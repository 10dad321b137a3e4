//! Planning the on-disk skeleton of a single CTF challenge: validating the
//! challenge descriptor, listing the filesystem and network actions that
//! provision it, deciding the next step of a run, naming the error of a
//! failed action, and a model of the filesystem over which the
//! provisioning laws are proved.
pub mod config;
pub mod plan;
pub mod error;
pub mod disk;
pub mod provision;
pub mod memdisk;
pub mod driver;
