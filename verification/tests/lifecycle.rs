use dsh_desktop::manager::{Action, DshManager, Event, Operation};
use dsh_desktop::status::DshStatus;

fn emitted(action: Action<u32>) -> DshStatus {
    match action {
        Action::Emit(s) => s,
        _ => panic!("expected a status to publish"),
    }
}

fn finished(action: Action<u32>) -> Result<DshStatus, String> {
    match action {
        Action::Finish(r) => r,
        _ => panic!("expected the operation to end"),
    }
}

fn assert_status(s: &DshStatus, state: &str, port: Option<u16>, error: Option<&str>) {
    assert_eq!(s.state, state);
    assert_eq!(s.port, port);
    assert_eq!(s.error.as_deref(), error);
}

/// Starts a stopped manager whose launch yields server `child` on `port`.
fn start_ok(m: &mut DshManager<u32>, child: u32, port: u16) {
    let s = emitted(m.begin(Operation::Start));
    assert_status(&s, "stopped", None, None);
    let s = emitted(m.resume(Event::Emitted(Ok(()))));
    assert_status(&s, "starting", None, None);
    assert!(matches!(m.resume(Event::Emitted(Ok(()))), Action::Launch));
    let s = emitted(m.resume(Event::Launched(Ok((child, port)))));
    assert_status(&s, "ready", Some(port), None);
    let r = finished(m.resume(Event::Emitted(Ok(())))).unwrap();
    assert_status(&r, "ready", Some(port), None);
}

#[test]
fn status_constructors_fill_their_fields() {
    assert_status(&DshStatus::stopped(), "stopped", None, None);
    assert_status(&DshStatus::starting(), "starting", None, None);
    assert_status(&DshStatus::ready(3080), "ready", Some(3080), None);
    assert_status(&DshStatus::failed("boom".to_string()), "failed", None, Some("boom"));
    assert!(DshStatus::ready(1).is_ready());
    assert!(!DshStatus::stopped().is_ready());
    let copy = DshStatus::failed("x".to_string()).snapshot();
    assert_status(&copy, "failed", None, Some("x"));
}

#[test]
fn a_new_manager_is_stopped_and_idle() {
    let m: DshManager<u32> = DshManager::default();
    assert_status(&m.status(), "stopped", None, None);
    assert!(m.is_idle());
    assert!(!m.awaits(&Event::Terminated));
}

#[test]
fn starts_a_stopped_server() {
    let mut m: DshManager<u32> = DshManager::new();
    start_ok(&mut m, 7, 3080);
    assert!(m.is_idle());
    assert_status(&m.status(), "ready", Some(3080), None);
}

#[test]
fn starting_a_ready_server_changes_nothing() {
    let mut m: DshManager<u32> = DshManager::new();
    start_ok(&mut m, 7, 3080);
    let r = finished(m.begin(Operation::Start)).unwrap();
    assert_status(&r, "ready", Some(3080), None);
    assert!(m.is_idle());
    assert_status(&m.status(), "ready", Some(3080), None);
}

#[test]
fn stops_and_terminates_the_server() {
    let mut m: DshManager<u32> = DshManager::new();
    start_ok(&mut m, 7, 3080);
    assert!(matches!(m.begin(Operation::Stop), Action::Terminate(7)));
    assert!(m.awaits(&Event::Terminated));
    let s = emitted(m.resume(Event::Terminated));
    assert_status(&s, "stopped", None, None);
    let r = finished(m.resume(Event::Emitted(Ok(())))).unwrap();
    assert_status(&r, "stopped", None, None);
    assert_status(&m.status(), "stopped", None, None);
    // no server is left: a second stop terminates nothing
    let s = emitted(m.begin(Operation::Stop));
    assert_status(&s, "stopped", None, None);
}

#[test]
fn restart_stops_then_starts() {
    let mut m: DshManager<u32> = DshManager::new();
    start_ok(&mut m, 7, 3080);
    assert!(matches!(m.begin(Operation::Restart), Action::Terminate(7)));
    let s = emitted(m.resume(Event::Terminated));
    assert_status(&s, "stopped", None, None);
    // the start that follows stops again, then launches
    let s = emitted(m.resume(Event::Emitted(Ok(()))));
    assert_status(&s, "stopped", None, None);
    let s = emitted(m.resume(Event::Emitted(Ok(()))));
    assert_status(&s, "starting", None, None);
    assert!(matches!(m.resume(Event::Emitted(Ok(()))), Action::Launch));
    let s = emitted(m.resume(Event::Launched(Ok((8, 3081)))));
    assert_status(&s, "ready", Some(3081), None);
    let r = finished(m.resume(Event::Emitted(Ok(())))).unwrap();
    assert_status(&r, "ready", Some(3081), None);
    assert!(matches!(m.begin(Operation::Stop), Action::Terminate(8)));
}

#[test]
fn a_failed_launch_is_reported_as_failed() {
    let mut m: DshManager<u32> = DshManager::new();
    emitted(m.begin(Operation::Start));
    emitted(m.resume(Event::Emitted(Ok(()))));
    assert!(matches!(m.resume(Event::Emitted(Ok(()))), Action::Launch));
    let s = emitted(m.resume(Event::Launched(Err("no node".to_string()))));
    assert_status(&s, "failed", None, Some("no node"));
    let r = finished(m.resume(Event::Emitted(Ok(())))).unwrap();
    assert_status(&r, "failed", None, Some("no node"));
    assert_status(&m.status(), "failed", None, Some("no node"));
}

#[test]
fn a_failed_publication_ends_the_operation_with_its_error() {
    let mut m: DshManager<u32> = DshManager::new();
    emitted(m.begin(Operation::Stop));
    let r = finished(m.resume(Event::Emitted(Err("window gone".to_string()))));
    assert_eq!(r.unwrap_err(), "window gone");
    assert!(m.is_idle());
    assert_status(&m.status(), "stopped", None, None);

    emitted(m.begin(Operation::Start));
    emitted(m.resume(Event::Emitted(Ok(()))));
    let r = finished(m.resume(Event::Emitted(Err("no listener".to_string()))));
    assert_eq!(r.unwrap_err(), "no listener");
    assert_status(&m.status(), "starting", None, None);
}

#[test]
fn an_unpublished_ready_status_becomes_a_failure() {
    let mut m: DshManager<u32> = DshManager::new();
    emitted(m.begin(Operation::Start));
    emitted(m.resume(Event::Emitted(Ok(()))));
    m.resume(Event::Emitted(Ok(())));
    emitted(m.resume(Event::Launched(Ok((5, 3090)))));
    let s = emitted(m.resume(Event::Emitted(Err("emit failed".to_string()))));
    assert_status(&s, "failed", None, Some("emit failed"));
    let r = finished(m.resume(Event::Emitted(Err("again".to_string()))));
    assert_eq!(r.unwrap_err(), "again");
    // the launched server is still held, and the next start terminates it
    assert!(matches!(m.begin(Operation::Start), Action::Terminate(5)));
}

#[test]
fn only_the_awaited_event_is_accepted() {
    let mut m: DshManager<u32> = DshManager::new();
    emitted(m.begin(Operation::Start));
    assert!(m.awaits(&Event::Emitted(Ok(()))));
    assert!(!m.awaits(&Event::Terminated));
    assert!(!m.awaits(&Event::Launched(Ok((1, 1)))));
    emitted(m.resume(Event::Emitted(Ok(()))));
    m.resume(Event::Emitted(Ok(())));
    assert!(m.awaits(&Event::Launched(Err(String::new()))));
    assert!(!m.awaits(&Event::Emitted(Ok(()))));
}
