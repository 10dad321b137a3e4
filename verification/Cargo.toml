[package]
name = "ctf_chal_creator"
version = "0.1.0"
edition = "2021"
publish = false

[dependencies]
anyhow = "1"
log = "0.4"
simplelog = "0.12"
structopt = "0.3"
ureq = "2"
