use driver_deploy::deploy::{driver_file_name, remote_path};
use driver_deploy::tasks::{bsd, is_release, jobs_for, parse_task, Job, Task};
use driver_deploy::toolchain::{build_args, makecert_args, profile_dir, signtool_args};

#[test]
fn task_names() {
    assert_eq!(parse_task("build"), Some(Task::Build));
    assert_eq!(parse_task("sign"), Some(Task::Sign));
    assert_eq!(parse_task("deploy"), Some(Task::Deploy));
    assert_eq!(parse_task("bsd"), Some(Task::Bsd));
    assert_eq!(parse_task("Build"), None);
    assert_eq!(parse_task(""), None);
}

#[test]
fn release_flag() {
    assert!(is_release("release"));
    assert!(is_release("--release"));
    assert!(!is_release("debug"));
    assert!(!is_release("Release"));
}

#[test]
fn bsd_runs_three_jobs_in_order() {
    assert_eq!(
        bsd(true),
        vec![
            Job { task: Task::Build, release: true },
            Job { task: Task::Sign, release: true },
            Job { task: Task::Deploy, release: true },
        ]
    );
    assert_eq!(jobs_for(Task::Bsd, false).len(), 3);
    assert_eq!(jobs_for(Task::Sign, false), vec![Job { task: Task::Sign, release: false }]);
}

#[test]
fn file_names_and_paths() {
    assert_eq!(driver_file_name("my-test-driver", "sys"), "my_test_driver.sys");
    assert_eq!(driver_file_name("plain", "pdb"), "plain.pdb");
    assert_eq!(remote_path("C:\\Temp", "drv.sys"), "C:\\Temp\\drv.sys");
}

#[test]
fn tool_arguments() {
    assert_eq!(profile_dir(true), "release");
    assert_eq!(profile_dir(false), "debug");
    assert_eq!(build_args("drv", true), vec!["build", "--release", "--package", "drv"]);
    assert_eq!(build_args("drv", false), vec!["build", "--package", "drv"]);
    assert_eq!(
        makecert_args(),
        vec!["-r", "-pe", "-ss", "PrivateCertStore", "-n", "CN=DriverCertificate", "DriverCertificate.cer"]
    );
    let s = signtool_args("t\\drv.sys");
    assert_eq!(s.len(), 12);
    assert_eq!(s[0], "sign");
    assert_eq!(s[10], "http://timestamp.digicert.com");
    assert_eq!(s[11], "t\\drv.sys");
}
