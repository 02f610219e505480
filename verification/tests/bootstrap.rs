use bootstrapper::bootstrap::{bootstrap_builder, HostBuilder};
use bootstrapper::capability::Capability;
use bootstrapper::outcome::{
    conclude, diagnostic, exit_status, step, Event, HostRun, Outcome, Phase,
};

#[test]
fn bootstrap_registers_in_declared_order() {
    let b = bootstrap_builder();
    assert_eq!(
        *b.capabilities(),
        vec![Capability::Logging, Capability::Sql, Capability::Http]
    );
}

#[test]
fn bootstrap_registers_exactly_the_three_capabilities() {
    let b = bootstrap_builder();
    assert_eq!(b.len(), 3);
    assert!(b.registered(Capability::Logging));
    assert!(b.registered(Capability::Sql));
    assert!(b.registered(Capability::Http));
}

#[test]
fn fresh_builder_has_no_registrations() {
    let b = HostBuilder::new();
    assert_eq!(b.len(), 0);
    assert!(!b.registered(Capability::Logging));
    assert!(!b.registered(Capability::Sql));
    assert!(!b.registered(Capability::Http));
}

#[test]
fn swapped_registration_order_still_builds() {
    let b = HostBuilder::new()
        .plugin(Capability::Sql)
        .plugin(Capability::Logging)
        .plugin(Capability::Http);
    assert_eq!(b.len(), 3);
    assert!(b.registered(Capability::Logging));
    assert!(b.registered(Capability::Sql));
    assert!(b.registered(Capability::Http));
    assert_eq!(
        *b.capabilities(),
        vec![Capability::Sql, Capability::Logging, Capability::Http]
    );
}

#[test]
fn clean_host_exit_returns_zero_status() {
    let o = conclude(HostRun::Exited);
    assert_eq!(o, Outcome::Clean);
    assert_eq!(exit_status(&o), 0);
}

#[test]
fn failed_host_start_is_fatal_with_nonzero_status() {
    let o = conclude(HostRun::Failed(String::from("no window system")));
    assert_eq!(o, Outcome::FatalInit(String::from("no window system")));
    assert_ne!(exit_status(&o), 0);
}

#[test]
fn diagnostic_carries_the_identifying_phrase_and_detail() {
    let m = diagnostic("no window system");
    assert_eq!(m, "error while running tauri application: no window system");
    assert!(m.starts_with("error while running tauri application"));
}

#[test]
fn lifecycle_runs_then_terminates_cleanly() {
    let p = step(Phase::Unstarted, Event::Invoke);
    assert_eq!(p, Phase::Running);
    let p = step(p, Event::HostReported(HostRun::Exited));
    assert_eq!(p, Phase::Terminated(Outcome::Clean));
}

#[test]
fn lifecycle_terminates_fatally_on_failed_start() {
    let p = step(
        Phase::Running,
        Event::HostReported(HostRun::Failed(String::from("display not found"))),
    );
    assert_eq!(
        p,
        Phase::Terminated(Outcome::FatalInit(String::from("display not found")))
    );
}
