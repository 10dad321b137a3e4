use ctf_chal_creator::config::{assemble, ChalConfig};
use ctf_chal_creator::error::{field, Cause, ProvisioningError};
use ctf_chal_creator::config::ValidationError;
use ctf_chal_creator::memdisk::{parent, MemDisk};
use ctf_chal_creator::plan::{create_inner, create_outer, run, Action};

const TEMPLATE: &str = "https://gist.githubusercontent.com/the-rectifier/9af60d9d85e2600708e582505060258b/raw/8faedc9c67728afa853386aa41a7df873863e0b7/solution.py";

fn chal(category: &str, docker: bool) -> ChalConfig {
    assemble("chal1", "canopus", category, Some("/tmp"), docker, false).unwrap()
}

fn empty() -> Option<&'static Vec<u8>> {
    None
}

fn dir(path: &str) -> Action {
    Action::CreateDir { path: path.to_string() }
}

fn with_tmp() -> MemDisk {
    let mut disk = MemDisk::new();
    assert_eq!(disk.apply(&dir("/tmp"), None), Ok(()));
    disk
}

#[test]
fn a_new_disk_holds_nothing() {
    let disk = MemDisk::new();
    assert_eq!(disk.dir_count(), 0);
    assert!(!disk.is_dir("/tmp"));
    assert!(!disk.is_file("/tmp"));
    assert!(!disk.is_executable("/tmp"));
    assert_eq!(disk.content("/tmp"), None);
}

#[test]
fn outer_structure_is_one_root_three_subdirectories_and_a_readme() {
    for docker in [false, true] {
        let mut disk = with_tmp();
        let plan = create_outer(&chal("misc", docker));
        assert_eq!(disk.execute(&plan, None), Ok(()));
        assert_eq!(disk.dir_count(), 5);
        assert!(disk.is_dir("/tmp/chal1"));
        assert!(disk.is_dir("/tmp/chal1/setup"));
        assert!(disk.is_dir("/tmp/chal1/public"));
        assert!(disk.is_dir("/tmp/chal1/solution"));
        assert!(disk.is_dir("/tmp"));
        assert!(!disk.is_dir("/tmp/chal1/readme"));
        assert_eq!(disk.content("/tmp/chal1/readme"), Some(&Vec::new()));
        assert!(!disk.is_executable("/tmp/chal1/readme"));
        assert_eq!(disk.is_file("/tmp/chal1/docker_build.sh"), docker);
        assert_eq!(disk.is_file("/tmp/chal1/docker_run.sh"), docker);
        assert!(!disk.is_file("/tmp/chal1/setup/flag"));
    }
}

#[test]
fn without_docker_mode_no_docker_artifact_exists() {
    for category in ["pwn", "web", "stego"] {
        let mut disk = with_tmp();
        let body = b"template".to_vec();
        assert_eq!(disk.execute(&run(&chal(category, false)), Some(&body)), Ok(()));
        for path in [
            "/tmp/chal1/docker_build.sh",
            "/tmp/chal1/docker_run.sh",
            "/tmp/chal1/setup/Dockerfile",
        ] {
            assert!(!disk.is_file(path));
            assert!(!disk.is_dir(path));
        }
        assert_eq!(disk.content("/tmp/chal1/setup/flag"), Some(&Vec::new()));
        assert_eq!(disk.dir_count(), 5);
    }
}

#[test]
fn docker_mode_makes_executable_scripts_and_a_dockerfile() {
    let mut disk = with_tmp();
    assert_eq!(disk.execute(&run(&chal("Web", true)), None), Ok(()));
    assert_eq!(
        disk.content("/tmp/chal1/docker_build.sh"),
        Some(&b"#!/usr/bin/bash\ndocker build -t canopus/chal1 setup/".to_vec())
    );
    assert_eq!(
        disk.content("/tmp/chal1/docker_run.sh"),
        Some(&b"#!/usr/bin/bash\ndocker run -p 69666:69666 -d canopus/chal1".to_vec())
    );
    assert!(disk.is_executable("/tmp/chal1/docker_build.sh"));
    assert!(disk.is_executable("/tmp/chal1/docker_run.sh"));
    assert_eq!(disk.content("/tmp/chal1/setup/Dockerfile"), Some(&Vec::new()));
    assert!(!disk.is_executable("/tmp/chal1/setup/Dockerfile"));
    assert_eq!(disk.content("/tmp/chal1/setup/flag"), Some(&Vec::new()));
    assert!(!disk.is_file("/tmp/chal1/solution/solution.py"));
}

#[test]
fn no_template_unless_pwn() {
    for category in ["reversing", "crypto", "web", "misc", "forensics", "stego"] {
        for docker in [false, true] {
            let mut disk = with_tmp();
            assert_eq!(disk.execute(&run(&chal(category, docker)), empty()), Ok(()));
            assert!(!disk.is_file("/tmp/chal1/solution/solution.py"));
            assert!(!disk.is_dir("/tmp/chal1/solution/solution.py"));
        }
    }
}

#[test]
fn the_template_holds_the_response_unchanged() {
    let body: Vec<u8> = vec![0, 159, 146, 150, 10, 13, 255, b'#', b'!'];
    let mut disk = with_tmp();
    assert_eq!(disk.execute(&run(&chal("pwn", false)), Some(&body)), Ok(()));
    assert_eq!(disk.content("/tmp/chal1/solution/solution.py"), Some(&body));
    assert!(!disk.is_executable("/tmp/chal1/solution/solution.py"));
    let mut other = with_tmp();
    assert_eq!(other.execute(&run(&chal("pwn", true)), Some(&Vec::new())), Ok(()));
    assert_eq!(other.content("/tmp/chal1/solution/solution.py"), Some(&Vec::new()));
}

#[test]
fn a_failed_fetch_leaves_the_rest_in_place() {
    let mut disk = with_tmp();
    let got = disk.execute(&run(&chal("pwn", true)), None);
    assert_eq!(got, Err(ProvisioningError::Fetch { url: TEMPLATE.to_string() }));
    assert_eq!(disk.dir_count(), 5);
    assert!(disk.is_file("/tmp/chal1/readme"));
    assert!(disk.is_file("/tmp/chal1/setup/Dockerfile"));
    assert!(disk.is_file("/tmp/chal1/setup/flag"));
    assert!(!disk.is_file("/tmp/chal1/solution/solution.py"));
}

#[test]
fn a_second_run_fails_and_changes_nothing() {
    let config = chal("pwn", true);
    let first = b"first".to_vec();
    let second = b"second".to_vec();
    let mut disk = with_tmp();
    assert_eq!(disk.execute(&run(&config), Some(&first)), Ok(()));
    let again = disk.execute(&run(&config), Some(&second));
    assert_eq!(again, Err(ProvisioningError::AlreadyExists { path: "/tmp/chal1".to_string() }));
    assert_eq!(disk.dir_count(), 5);
    assert_eq!(disk.content("/tmp/chal1/solution/solution.py"), Some(&first));
    assert_eq!(disk.content("/tmp/chal1/readme"), Some(&Vec::new()));
    let outer = disk.execute(&create_outer(&config), None);
    assert_eq!(outer, Err(ProvisioningError::AlreadyExists { path: "/tmp/chal1".to_string() }));
    assert_eq!(disk.dir_count(), 5);
}

#[test]
fn a_file_in_the_roots_place_refuses_the_run() {
    let mut disk = with_tmp();
    let taken = Action::CreateFile { path: "/tmp/chal1".to_string() };
    assert_eq!(disk.apply(&taken, None), Ok(()));
    let got = disk.execute(&run(&chal("web", false)), None);
    assert_eq!(got, Err(ProvisioningError::AlreadyExists { path: "/tmp/chal1".to_string() }));
    assert_eq!(disk.dir_count(), 1);
    assert!(!disk.is_file("/tmp/chal1/readme"));
}

#[test]
fn the_inner_content_needs_the_setup_directory() {
    for category in ["pwn", "web"] {
        for (docker, first) in [(true, "/tmp/chal1/setup/Dockerfile"), (false, "/tmp/chal1/setup/flag")] {
            let mut disk = with_tmp();
            let body = b"x".to_vec();
            let got = disk.execute(&create_inner(&chal(category, docker)), Some(&body));
            assert_eq!(got, Err(ProvisioningError::PathNotFound { path: first.to_string() }));
            assert_eq!(disk.dir_count(), 1);
            assert!(!disk.is_dir("/tmp/chal1"));
            assert!(!disk.is_dir("/tmp/chal1/setup"));
            assert!(!disk.is_file(first));
            assert!(!disk.is_file("/tmp/chal1/setup/flag"));
            assert!(!disk.is_file("/tmp/chal1/solution/solution.py"));
        }
    }
}

#[test]
fn the_inner_content_after_the_outer_skeleton() {
    let mut disk = with_tmp();
    let body = b"x".to_vec();
    let config = chal("pwn", true);
    assert_eq!(disk.execute(&create_outer(&config), None), Ok(()));
    assert_eq!(disk.execute(&create_inner(&config), Some(&body)), Ok(()));
    assert_eq!(disk.dir_count(), 5);
    assert!(disk.is_file("/tmp/chal1/setup/Dockerfile"));
    assert!(disk.is_file("/tmp/chal1/setup/flag"));
    assert_eq!(disk.content("/tmp/chal1/solution/solution.py"), Some(&body));
}

#[test]
fn a_missing_base_directory_refuses_the_run() {
    let config = assemble("chal1", "canopus", "Web", Some("/tmp/nope"), true, false).unwrap();
    let want = Err(ProvisioningError::PathNotFound { path: "/tmp/nope/chal1".to_string() });
    let mut disk = with_tmp();
    assert_eq!(disk.execute(&create_outer(&config), None), want);
    assert_eq!(disk.execute(&run(&config), None), want);
    assert_eq!(disk.dir_count(), 1);
    assert!(!disk.is_dir("/tmp/nope"));
    assert!(!disk.is_dir("/tmp/nope/chal1"));
    let mut bare = MemDisk::new();
    assert_eq!(
        bare.execute(&run(&chal("web", false)), None),
        Err(ProvisioningError::PathNotFound { path: "/tmp/chal1".to_string() })
    );
    assert_eq!(bare.dir_count(), 0);
    assert_eq!(
        bare.apply(&Action::CreateFile { path: "/nope/setup/flag".to_string() }, None),
        Err(ProvisioningError::PathNotFound { path: "/nope/setup/flag".to_string() })
    );
    assert!(!bare.is_file("/nope/setup/flag"));
}

#[test]
fn a_file_is_no_parent() {
    let mut disk = with_tmp();
    assert_eq!(disk.apply(&Action::CreateFile { path: "/tmp/f".to_string() }, None), Ok(()));
    assert_eq!(
        disk.apply(&dir("/tmp/f/chal1"), None),
        Err(ProvisioningError::Other { path: "/tmp/f/chal1".to_string() })
    );
    assert_eq!(disk.refusal(&dir("/tmp/f/chal1"), None), Some(Cause::Other));
    assert_eq!(disk.refusal(&dir("/tmp/g/chal1"), None), Some(Cause::NotFound));
    assert_eq!(disk.refusal(&dir("/tmp"), None), Some(Cause::AlreadyExists));
    assert_eq!(disk.refusal(&dir("/tmp/f"), None), Some(Cause::AlreadyExists));
    assert_eq!(disk.refusal(&dir("/tmp/g"), None), None);
    assert_eq!(disk.refusal(&dir("relative"), None), None);
    let fetch = Action::Fetch { url: "u".to_string(), path: "/nope/t".to_string() };
    assert_eq!(disk.refusal(&fetch, None), Some(Cause::Network));
    assert_eq!(disk.refusal(&fetch, Some(&vec![1])), Some(Cause::NotFound));
}

#[test]
fn the_parent_stands_before_the_last_separator() {
    assert_eq!(parent("/tmp/chal1"), Some("/tmp"));
    assert_eq!(parent("/tmp"), Some(""));
    assert_eq!(parent("/tmp//chal1"), Some("/tmp/"));
    assert_eq!(parent("./chal1"), Some("."));
    assert_eq!(parent("a/b/"), Some("a/b"));
    assert_eq!(parent("chal1"), None);
    assert_eq!(parent(""), None);
    assert_eq!(parent("\u{e9}/\u{e9}"), Some("\u{e9}"));
}

#[test]
fn a_relative_base_directory() {
    let config = assemble("chal1", "canopus", "misc", None, false, false).unwrap();
    let mut disk = MemDisk::new();
    assert_eq!(disk.apply(&dir("."), None), Ok(()));
    assert_eq!(disk.execute(&run(&config), None), Ok(()));
    assert!(disk.is_dir("./chal1/solution"));
    assert!(disk.is_file("./chal1/setup/flag"));
    assert_eq!(disk.dir_count(), 5);
}

#[test]
fn a_file_is_not_written_over_a_directory() {
    let mut disk = MemDisk::new();
    assert_eq!(disk.apply(&Action::CreateDir { path: "/d".to_string() }, None), Ok(()));
    let other = Err(ProvisioningError::Other { path: "/d".to_string() });
    assert_eq!(disk.apply(&Action::CreateFile { path: "/d".to_string() }, None), other);
    let script = Action::WriteScript { path: "/d".to_string(), content: "x".to_string() };
    assert_eq!(disk.apply(&script, None), other);
    let fetch = Action::Fetch { url: "u".to_string(), path: "/d".to_string() };
    assert_eq!(disk.apply(&fetch, Some(&vec![1])), other);
    assert_eq!(disk.apply(&fetch, None), Err(ProvisioningError::Fetch { url: "u".to_string() }));
    assert!(disk.is_dir("/d"));
    assert!(!disk.is_file("/d"));
    assert_eq!(disk.dir_count(), 1);
}

#[test]
fn an_existing_file_keeps_its_mode() {
    let mut disk = MemDisk::new();
    let long = Action::WriteScript { path: "/s".to_string(), content: "abcdef".to_string() };
    let short = Action::WriteScript { path: "/s".to_string(), content: "XY".to_string() };
    assert_eq!(disk.apply(&long, None), Ok(()));
    assert_eq!(disk.apply(&short, None), Ok(()));
    assert_eq!(disk.content("/s"), Some(&b"XYcdef".to_vec()));
    assert!(disk.is_executable("/s"));
    assert_eq!(disk.apply(&Action::CreateFile { path: "/s".to_string() }, None), Ok(()));
    assert_eq!(disk.content("/s"), Some(&Vec::new()));
    assert!(disk.is_executable("/s"));
    assert_eq!(disk.apply(&Action::CreateFile { path: "/f".to_string() }, None), Ok(()));
    let over = Action::WriteScript { path: "/f".to_string(), content: "\u{e9}".to_string() };
    assert_eq!(disk.apply(&over, None), Ok(()));
    assert_eq!(disk.content("/f"), Some(&vec![0xc3, 0xa9]));
    assert!(!disk.is_executable("/f"));
}

#[test]
fn messages_name_the_path_or_the_address() {
    let path = "/tmp/chal1".to_string();
    assert_eq!(
        ProvisioningError::AlreadyExists { path: path.clone() }.message(),
        "Failed to create '/tmp/chal1': already exists"
    );
    assert_eq!(
        ProvisioningError::PermissionDenied { path: path.clone() }.message(),
        "Failed to create '/tmp/chal1': permission denied"
    );
    assert_eq!(
        ProvisioningError::PathNotFound { path: path.clone() }.message(),
        "Failed to create '/tmp/chal1': path not found"
    );
    assert_eq!(
        ProvisioningError::Other { path: path.clone() }.message(),
        "Failed to create '/tmp/chal1'"
    );
    assert_eq!(
        ProvisioningError::Fetch { url: "https://x/y".to_string() }.message(),
        "Failed to fetch 'https://x/y'"
    );
    assert_eq!(
        Action::CreateDir { path: path.clone() }.progress(),
        "Created '/tmp/chal1'"
    );
    assert_eq!(field(ValidationError::Name), "name");
    assert_eq!(field(ValidationError::Author), "author");
    assert_eq!(field(ValidationError::Category), "type");
    assert_eq!(field(ValidationError::Directory), "dir");
}

#[test]
fn a_denied_subdirectory_stops_the_run_and_undoes_nothing() {
    let order = ["/tmp/chal1/setup", "/tmp/chal1/public", "/tmp/chal1/solution"];
    for k in 0..3 {
        for docker in [false, true] {
            let mut disk = with_tmp();
            disk.deny(order[k], Cause::PermissionDenied);
            let got = disk.execute(&run(&chal("pwn", docker)), Some(&vec![1]));
            assert_eq!(
                got,
                Err(ProvisioningError::PermissionDenied { path: order[k].to_string() })
            );
            assert!(disk.is_dir("/tmp/chal1"));
            for (i, path) in order.iter().enumerate() {
                assert_eq!(disk.is_dir(path), i < k);
            }
            assert_eq!(disk.dir_count(), 2 + k);
            assert!(!disk.is_file("/tmp/chal1/readme"));
            assert!(!disk.is_file("/tmp/chal1/docker_build.sh"));
            assert!(!disk.is_file("/tmp/chal1/setup/flag"));
        }
    }
}

#[test]
fn a_denial_counts_only_where_the_place_is_free() {
    let mut disk = with_tmp();
    disk.deny("/tmp", Cause::PermissionDenied);
    assert_eq!(disk.refusal(&dir("/tmp"), None), Some(Cause::AlreadyExists));
    assert_eq!(disk.refusal(&dir("/tmp/x"), None), None);
    disk.deny("/tmp/x", Cause::Other);
    assert_eq!(disk.refusal(&dir("/tmp/x"), None), Some(Cause::Other));
    assert_eq!(
        disk.refusal(&Action::CreateFile { path: "/tmp/x".to_string() }, None),
        Some(Cause::Other)
    );
    assert_eq!(disk.refusal(&dir("/nope/x"), None), Some(Cause::NotFound));
    disk.deny("/tmp/y", Cause::PermissionDenied);
    assert_eq!(disk.refusal(&dir("/tmp/x"), None), None);
    assert_eq!(
        disk.apply(&Action::CreateFile { path: "/tmp/y".to_string() }, None),
        Err(ProvisioningError::PermissionDenied { path: "/tmp/y".to_string() })
    );
    assert!(!disk.is_file("/tmp/y"));
    assert!(disk.is_dir("/tmp"));
}
