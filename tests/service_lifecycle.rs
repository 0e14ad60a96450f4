use driver_deploy::protocol::{chain_commands, send_cmd, send_cmds, Action, Event};
use driver_deploy::service::{
    classify, create_and_start, create_command, delete_command, query_command, query_state,
    remove_file_command, start_command, stop_and_remove, stop_command, CleanupStage,
    ServiceCleanup, ServiceState, POLL_INTERVAL_MS,
};

fn exec(s: &str) -> Action {
    Action::Exec(s.to_string())
}

fn out(s: &str) -> Event {
    Event::Output(s.to_string())
}

#[test]
fn send_cmd_runs_one_command() {
    assert_eq!(send_cmd("echo %TEMP%"), exec("echo %TEMP%"));
}

#[test]
fn send_cmds_chains_with_and() {
    let cmds = vec!["a".to_string(), "b c".to_string(), "d".to_string()];
    assert_eq!(send_cmds(&cmds), exec("a && b c && d"));
    assert_eq!(chain_commands(&vec![]), "");
    assert_eq!(chain_commands(&vec!["only".to_string()]), "only");
}

#[test]
fn classify_reads_state_words() {
    assert_eq!(classify("        STATE              : 4  RUNNING"), ServiceState::Running);
    assert_eq!(classify("        STATE              : 3  STOP_PENDING"), ServiceState::StopPending);
    assert_eq!(classify("        STATE              : 1  STOPPED"), ServiceState::Stopped);
    assert_eq!(classify("        STATE              : 2  START_PENDING"), ServiceState::Unknown);
    assert_eq!(classify("running"), ServiceState::Unknown);
    assert_eq!(classify(""), ServiceState::Unknown);
}

#[test]
fn failed_query_means_not_found() {
    assert_eq!(query_state(&Event::Failed("does not exist".to_string())), ServiceState::NotFound);
    assert_eq!(query_state(&out("RUNNING")), ServiceState::Running);
}

#[test]
fn service_commands_text() {
    assert_eq!(query_command("ExampleDrv"), "sc query ExampleDrv");
    assert_eq!(stop_command("ExampleDrv"), "sc stop ExampleDrv");
    assert_eq!(delete_command("ExampleDrv"), "sc delete ExampleDrv");
    assert_eq!(start_command("ExampleDrv"), "sc start ExampleDrv");
    assert_eq!(
        create_command("ExampleDrv", "C:\\Temp\\example_drv.sys"),
        "sc create ExampleDrv binpath= C:\\Temp\\example_drv.sys type=kernel"
    );
    assert_eq!(remove_file_command("C:\\Temp\\example_drv.sys"), "del C:\\Temp\\example_drv.sys");
}

#[test]
fn create_and_start_is_one_chained_line() {
    assert_eq!(
        create_and_start("ExampleDrv", "C:\\Temp\\example_drv.sys"),
        exec("sc create ExampleDrv binpath= C:\\Temp\\example_drv.sys type=kernel && sc start ExampleDrv")
    );
}

#[test]
fn stop_and_remove_chains_stop_first() {
    let a = stop_and_remove("ExampleDrv", "C:\\Temp\\example_drv.sys");
    assert_eq!(
        a,
        exec("sc stop ExampleDrv && sc delete ExampleDrv && del C:\\Temp\\example_drv.sys")
    );
    // Everything after the stop is behind an AND, so a failed stop runs nothing else.
    if let Action::Exec(line) = a {
        let parts: Vec<&str> = line.split(" && ").collect();
        assert_eq!(parts, vec!["sc stop ExampleDrv", "sc delete ExampleDrv", "del C:\\Temp\\example_drv.sys"]);
    }
}

#[test]
fn running_service_is_stopped_polled_and_deleted_once() {
    let (mut c, first) = ServiceCleanup::start("ExampleDrv");
    assert_eq!(first, exec("sc query ExampleDrv"));
    let mut issued = vec![first];
    issued.push(c.step(&out("STATE : 4 RUNNING")));
    assert_eq!(issued[1], exec("sc stop ExampleDrv"));
    issued.push(c.step(&out("")));
    assert_eq!(issued[2], exec("sc query ExampleDrv"));
    issued.push(c.step(&out("STATE : 3 STOP_PENDING")));
    assert_eq!(issued[3], Action::Sleep(POLL_INTERVAL_MS));
    assert!(POLL_INTERVAL_MS <= 50);
    issued.push(c.step(&Event::Done));
    assert_eq!(issued[4], exec("sc query ExampleDrv"));
    issued.push(c.step(&out("STATE : 3 STOP_PENDING")));
    assert_eq!(issued[5], Action::Sleep(POLL_INTERVAL_MS));
    issued.push(c.step(&Event::Done));
    issued.push(c.step(&out("STATE : 1 STOPPED")));
    assert_eq!(issued[7], exec("sc delete ExampleDrv"));
    issued.push(c.step(&out("[SC] DeleteService SUCCESS")));
    assert_eq!(issued[8], Action::Finish);
    assert!(c.is_done());
    assert_eq!(c.stage, CleanupStage::Absent);
    let deletes = issued.iter().filter(|a| **a == exec("sc delete ExampleDrv")).count();
    assert_eq!(deletes, 1);
}

#[test]
fn every_state_ends_absent() {
    // not found
    let (mut c, _) = ServiceCleanup::start("S");
    assert_eq!(c.step(&Event::Failed("FAILED 1060".to_string())), Action::Finish);
    assert_eq!(c.stage, CleanupStage::Absent);
    // running
    let (mut c, _) = ServiceCleanup::start("S");
    assert_eq!(c.step(&out("RUNNING")), exec("sc stop S"));
    assert_eq!(c.step(&out("")), exec("sc query S"));
    assert_eq!(c.step(&out("STOPPED")), exec("sc delete S"));
    assert_eq!(c.step(&out("")), Action::Finish);
    // stop pending
    let (mut c, _) = ServiceCleanup::start("S");
    assert_eq!(c.step(&out("STOP_PENDING")), Action::Sleep(POLL_INTERVAL_MS));
    assert_eq!(c.step(&Event::Done), exec("sc query S"));
    assert_eq!(c.step(&out("STOPPED")), exec("sc delete S"));
    assert_eq!(c.step(&out("")), Action::Finish);
    // stopped
    let (mut c, _) = ServiceCleanup::start("S");
    assert_eq!(c.step(&out("STOPPED")), exec("sc delete S"));
    assert_eq!(c.step(&out("")), Action::Finish);
    assert!(c.is_done());
}

#[test]
fn failures_are_passed_on_unchanged() {
    let (mut c, _) = ServiceCleanup::start("S");
    c.step(&out("RUNNING"));
    assert_eq!(c.step(&Event::Failed("stop refused".to_string())), Action::Fail("stop refused".to_string()));
    assert_eq!(c.stage, CleanupStage::Aborted);

    let (mut c, _) = ServiceCleanup::start("S");
    c.step(&out("STOPPED"));
    assert_eq!(c.step(&Event::Failed("access denied".to_string())), Action::Fail("access denied".to_string()));

    let (mut c, _) = ServiceCleanup::start("S");
    c.step(&out("STOP_PENDING"));
    c.step(&Event::Done);
    assert_eq!(c.step(&Event::Failed("gone".to_string())), Action::Fail("gone".to_string()));
}

#[test]
fn unexpected_event_fails() {
    let (mut c, _) = ServiceCleanup::start("S");
    c.step(&out("RUNNING"));
    assert_eq!(c.step(&Event::Cancel(true)), Action::Fail("unexpected event".to_string()));
}
