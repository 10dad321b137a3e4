use ctf_chal_creator::config::{assemble, ChalConfig, ChalType};
use ctf_chal_creator::error::{failure, Cause, ProvisioningError};
use ctf_chal_creator::plan::{create_inner, create_outer, join_path, root_of, run, Action};

const TEMPLATE: &str = "https://gist.githubusercontent.com/the-rectifier/9af60d9d85e2600708e582505060258b/raw/8faedc9c67728afa853386aa41a7df873863e0b7/solution.py";

fn config(category: ChalType, docker: bool) -> ChalConfig {
    ChalConfig {
        name: "chal1".to_string(),
        author: "canopus".to_string(),
        directory: "/tmp".to_string(),
        chal_type: category,
        docker,
        verbose: false,
    }
}

fn dir(path: &str) -> Action {
    Action::CreateDir { path: path.to_string() }
}

fn file(path: &str) -> Action {
    Action::CreateFile { path: path.to_string() }
}

fn script(path: &str, content: &str) -> Action {
    Action::WriteScript { path: path.to_string(), content: content.to_string() }
}

#[test]
fn paths_are_joined_with_one_separator() {
    assert_eq!(join_path(&"/tmp".to_string(), "chal1"), "/tmp/chal1");
    assert_eq!(join_path(&".".to_string(), "x"), "./x");
    assert_eq!(root_of(&config(ChalType::Web, false)), "/tmp/chal1");
}

#[test]
fn outer_skeleton_without_docker() {
    let plan = create_outer(&config(ChalType::Misc, false));
    assert_eq!(
        plan,
        vec![
            dir("/tmp/chal1"),
            dir("/tmp/chal1/setup"),
            dir("/tmp/chal1/public"),
            dir("/tmp/chal1/solution"),
            file("/tmp/chal1/readme"),
        ]
    );
}

#[test]
fn outer_skeleton_with_docker() {
    let plan = create_outer(&config(ChalType::Web, true));
    assert_eq!(
        plan,
        vec![
            dir("/tmp/chal1"),
            dir("/tmp/chal1/setup"),
            dir("/tmp/chal1/public"),
            dir("/tmp/chal1/solution"),
            file("/tmp/chal1/readme"),
            script(
                "/tmp/chal1/docker_build.sh",
                "#!/usr/bin/bash\ndocker build -t canopus/chal1 setup/"
            ),
            script(
                "/tmp/chal1/docker_run.sh",
                "#!/usr/bin/bash\ndocker run -p 69666:69666 -d canopus/chal1"
            ),
        ]
    );
}

#[test]
fn inner_content_by_mode_and_category() {
    assert_eq!(create_inner(&config(ChalType::Web, false)), vec![file("/tmp/chal1/setup/flag")]);
    assert_eq!(
        create_inner(&config(ChalType::Web, true)),
        vec![file("/tmp/chal1/setup/Dockerfile"), file("/tmp/chal1/setup/flag")]
    );
    assert_eq!(
        create_inner(&config(ChalType::Pwn, false)),
        vec![
            file("/tmp/chal1/setup/flag"),
            Action::Fetch {
                url: TEMPLATE.to_string(),
                path: "/tmp/chal1/solution/solution.py".to_string(),
            },
        ]
    );
}

#[test]
fn web_challenge_with_docker() {
    let chal = assemble("chal1", "canopus", "Web", Some("/tmp"), true, false).unwrap();
    let plan = run(&chal);
    let mut build = None;
    let mut start = None;
    for action in plan.iter() {
        assert_ne!(action.target(), "/tmp/chal1/solution/solution.py");
        if let Action::WriteScript { path, content } = action {
            if path == "/tmp/chal1/docker_build.sh" {
                build = Some(content.clone());
            }
            if path == "/tmp/chal1/docker_run.sh" {
                start = Some(content.clone());
            }
        }
    }
    let build = build.unwrap();
    let start = start.unwrap();
    assert!(build.lines().any(|l| l == "docker build -t canopus/chal1 setup/"));
    assert!(start.lines().any(|l| l == "docker run -p 69666:69666 -d canopus/chal1"));
    assert_eq!(build.lines().next(), Some("#!/usr/bin/bash"));
    assert_eq!(start.lines().next(), Some("#!/usr/bin/bash"));
    assert!(!build.contains('{') && !start.contains('{'));
}

#[test]
fn a_run_is_the_outer_skeleton_then_the_inner_content() {
    for docker in [false, true] {
        for category in [ChalType::Pwn, ChalType::Stego] {
            let chal = config(category, docker);
            let mut want = create_outer(&chal);
            want.extend(create_inner(&chal));
            assert_eq!(run(&chal), want);
        }
    }
    assert_eq!(run(&config(ChalType::Pwn, true)).len(), 10);
    assert_eq!(run(&config(ChalType::Crypto, false)).len(), 6);
}

#[test]
fn no_docker_artifact_without_docker_mode() {
    for category in [ChalType::Pwn, ChalType::Reversing, ChalType::Forensics] {
        for action in run(&config(category, false)).iter() {
            let target = action.target();
            assert!(!target.ends_with("docker_build.sh"));
            assert!(!target.ends_with("docker_run.sh"));
            assert!(!target.ends_with("Dockerfile"));
            assert!(!matches!(action, Action::WriteScript { .. }));
        }
    }
}

#[test]
fn only_pwn_fetches() {
    let others = [
        ChalType::Reversing,
        ChalType::Crypto,
        ChalType::Web,
        ChalType::Misc,
        ChalType::Forensics,
        ChalType::Stego,
    ];
    for category in others {
        for docker in [false, true] {
            for action in run(&config(category, docker)).iter() {
                assert!(!matches!(action, Action::Fetch { .. }));
                assert!(!action.target().ends_with("solution.py"));
            }
        }
    }
    let plan = run(&config(ChalType::Pwn, true));
    assert_eq!(
        plan.last(),
        Some(&Action::Fetch {
            url: TEMPLATE.to_string(),
            path: "/tmp/chal1/solution/solution.py".to_string(),
        })
    );
}

#[test]
fn an_operating_system_cause_names_the_path() {
    let a = dir("/tmp/chal1");
    assert_eq!(
        failure(&a, Cause::AlreadyExists),
        ProvisioningError::AlreadyExists { path: "/tmp/chal1".to_string() }
    );
    assert_eq!(
        failure(&a, Cause::PermissionDenied),
        ProvisioningError::PermissionDenied { path: "/tmp/chal1".to_string() }
    );
    assert_eq!(
        failure(&a, Cause::NotFound),
        ProvisioningError::PathNotFound { path: "/tmp/chal1".to_string() }
    );
    assert_eq!(
        failure(&a, Cause::Other),
        ProvisioningError::Other { path: "/tmp/chal1".to_string() }
    );
    assert_eq!(
        failure(&a, Cause::Network),
        ProvisioningError::Other { path: "/tmp/chal1".to_string() }
    );
}

#[test]
fn a_failed_fetch_names_the_address() {
    let a = Action::Fetch { url: "https://example.org/t".to_string(), path: "/x/y".to_string() };
    assert_eq!(
        failure(&a, Cause::Network),
        ProvisioningError::Fetch { url: "https://example.org/t".to_string() }
    );
    assert_eq!(
        failure(&a, Cause::PermissionDenied),
        ProvisioningError::PermissionDenied { path: "/x/y".to_string() }
    );
    assert_eq!(a.target(), "/x/y");
}
