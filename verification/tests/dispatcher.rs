use broom::event_dispatcher::{self, child_started_event, reap_step, signal_event, DispatchEvent, Directive, ReapStep};

fn sorted(mut v: Vec<u32>) -> Vec<u32> {
    v.sort();
    v
}

#[test]
fn born_child_then_continue() {
    let mut d = event_dispatcher::new();
    assert!(matches!(d.handle(DispatchEvent::ChildBorn(3)), Directive::Continue));
}

#[test]
fn child_signal_asks_for_reaping() {
    let mut d = event_dispatcher::new();
    d.handle(DispatchEvent::ChildBorn(3));
    assert!(matches!(d.handle(DispatchEvent::Signal(libc::SIGCHLD)), Directive::ReapChild));
}

#[test]
fn reaping_last_child_shuts_down_with_reaping() {
    let mut d = event_dispatcher::new();
    d.handle(DispatchEvent::ChildBorn(3));
    assert!(matches!(
        d.handle_signal_received_sigchld(3),
        Directive::Shutdown { reap_remaining: true }
    ));
}

#[test]
fn reaping_adopted_child_asks_for_the_next() {
    let mut d = event_dispatcher::new();
    d.handle(DispatchEvent::ChildBorn(3));
    assert!(matches!(d.handle_signal_received_sigchld(40), Directive::ReapChild));
    assert!(matches!(d.handle_signal_received_sigchld(41), Directive::ReapChild));
    assert!(matches!(d.handle_signal_received_sigchld(0), Directive::Continue));
    assert!(matches!(d.handle_signal_received_sigchld(-1), Directive::Continue));
    assert!(matches!(
        d.handle_signal_received_sigchld(3),
        Directive::Shutdown { reap_remaining: true }
    ));
}

#[test]
fn born_then_reaped_restores_state() {
    let mut d = event_dispatcher::new();
    d.handle(DispatchEvent::ChildBorn(3));
    d.handle(DispatchEvent::ChildBorn(4));
    assert!(matches!(d.handle_signal_received_sigchld(4), Directive::ReapChild));
    assert!(matches!(d.handle_signal_received_sigchld(0), Directive::Continue));
    match d.handle(DispatchEvent::Signal(libc::SIGTERM)) {
        Directive::TerminateChildren(pids) => assert_eq!(pids, vec![3]),
        _ => panic!("expected a termination request"),
    }
}

#[test]
fn termination_requests_target_every_child() {
    for sig in [libc::SIGTERM, libc::SIGINT] {
        let mut d = event_dispatcher::new();
        d.handle(DispatchEvent::ChildBorn(3));
        d.handle(DispatchEvent::ChildBorn(9));
        d.handle(DispatchEvent::ChildBorn(3));
        match d.handle(DispatchEvent::Signal(sig)) {
            Directive::TerminateChildren(pids) => assert_eq!(sorted(pids), vec![3, 9]),
            _ => panic!("expected a termination request"),
        }
    }
}

#[test]
fn numeric_termination_requests_target_children() {
    for sig in [15, 2] {
        let mut d = event_dispatcher::new();
        d.handle(DispatchEvent::ChildBorn(8));
        match d.handle(DispatchEvent::Signal(sig)) {
            Directive::TerminateChildren(pids) => assert_eq!(pids, vec![8]),
            _ => panic!("expected a termination request"),
        }
    }
}

#[test]
fn other_signals_are_ignored() {
    let mut d = event_dispatcher::new();
    d.handle(DispatchEvent::ChildBorn(3));
    assert!(matches!(d.handle(DispatchEvent::Signal(libc::SIGHUP)), Directive::Continue));
    assert!(matches!(d.handle(DispatchEvent::Signal(libc::SIGUSR2)), Directive::Continue));
}

#[test]
fn timeout_shuts_down_with_reaping() {
    let mut d = event_dispatcher::new();
    d.handle(DispatchEvent::ChildBorn(3));
    assert!(matches!(
        d.handle(DispatchEvent::TerminationTimeout),
        Directive::Shutdown { reap_remaining: true }
    ));
}

#[test]
fn io_error_shuts_down_without_reaping() {
    let mut d = event_dispatcher::new();
    assert!(matches!(
        d.handle(DispatchEvent::IoError("broken pipe".to_string())),
        Directive::Shutdown { reap_remaining: false }
    ));
}

#[test]
fn reap_steps() {
    assert!(reap_step(-1) == ReapStep::Finished);
    assert!(reap_step(0) == ReapStep::PauseThenRetry);
    assert!(reap_step(1234) == ReapStep::Retry);
    assert!(reap_step(-5) == ReapStep::Retry);
}

#[test]
fn spawn_outcome_events() {
    assert!(matches!(child_started_event(Ok(17)), DispatchEvent::ChildBorn(17)));
    match child_started_event(Err("not found".to_string())) {
        DispatchEvent::IoError(msg) => assert_eq!(msg, "not found"),
        _ => panic!("expected an I/O error"),
    }
}

#[test]
fn signal_outcome_events() {
    assert!(matches!(signal_event(libc::SIGTERM, Ok(())), DispatchEvent::Signal(s) if s == libc::SIGTERM));
    match signal_event(libc::SIGTERM, Err("gone".to_string())) {
        DispatchEvent::IoError(msg) => assert_eq!(msg, "gone"),
        _ => panic!("expected an I/O error"),
    }
}
