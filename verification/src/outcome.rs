use vstd::prelude::*;
use vstd::string::StringExecFns;

verus! {

/// What the host's run entry reported back after the builder was handed over.
#[derive(Clone, Debug, PartialEq, Eq)]
pub enum HostRun {
    /// The event loop started, ran, and exited cleanly.
    Exited,
    /// The host could not start; the detail says why (window system
    /// unavailable, context mismatch, a plugin refused to initialize).
    Failed(String),
}

/// The process-level outcome the bootstrapper decides on: there is no retry,
/// no fallback and no partial-capability mode.
#[derive(Clone, Debug, PartialEq, Eq)]
pub enum Outcome {
    /// Clean host exit: the process returns status zero.
    Clean,
    /// Fatal initialization failure: terminate with a diagnostic built from
    /// the carried detail.
    FatalInit(String),
}

/// The phrase that identifies a host-run failure in every diagnostic.
pub open spec fn fatal_phrase() -> Seq<char> {
    "error while running tauri application"@
}

/// The outcome decided for each host report.
pub open spec fn outcome_of(r: HostRun) -> Outcome {
    match r {
        HostRun::Exited => Outcome::Clean,
        HostRun::Failed(detail) => Outcome::FatalInit(detail),
    }
}

/// The exit status of an outcome: zero exactly on a clean host exit.
pub open spec fn status_of(o: Outcome) -> int {
    if o is Clean {
        0
    } else {
        1
    }
}

/// The full diagnostic for a fatal outcome: the identifying phrase, then the
/// host's detail.
pub open spec fn message_of(detail: Seq<char>) -> Seq<char> {
    fatal_phrase() + ": "@ + detail
}

/// Decide the process outcome from what the host reported: a clean exit stays
/// clean, any startup failure is fatal.
pub fn conclude(r: HostRun) -> (o: Outcome)
    ensures
        o == outcome_of(r),
{
    match r {
        HostRun::Exited => Outcome::Clean,
        HostRun::Failed(detail) => Outcome::FatalInit(detail),
    }
}

/// The exit status the process terminates with for an outcome.
pub fn exit_status(o: &Outcome) -> (code: i32)
    ensures
        code == status_of(*o),
{
    match o {
        Outcome::Clean => 0,
        Outcome::FatalInit(_) => 1,
    }
}

/// Render the human-readable diagnostic for a fatal outcome's detail.
pub fn diagnostic(detail: &str) -> (m: String)
    ensures
        m@ == message_of(detail@),
{
    let base: String = "error while running tauri application".to_owned();
    base.concat(": ").concat(detail)
}

/// The bootstrap lifecycle: unstarted until run is invoked, running while the
/// host owns the event loop, terminated once the host reported back.
#[derive(Clone, Debug, PartialEq, Eq)]
pub enum Phase {
    Unstarted,
    Running,
    Terminated(Outcome),
}

/// An event the bootstrap lifecycle reacts to.
#[derive(Clone, Debug, PartialEq, Eq)]
pub enum Event {
    /// The run operation was invoked.
    Invoke,
    /// The host's run entry returned.
    HostReported(HostRun),
}

/// Which event each phase admits: run is invoked exactly once, from the
/// unstarted phase, and the host reports back exactly once, while running.
pub open spec fn admits(p: Phase, e: Event) -> bool {
    match (p, e) {
        (Phase::Unstarted, Event::Invoke) => true,
        (Phase::Running, Event::HostReported(_)) => true,
        _ => false,
    }
}

/// Advance the lifecycle: invoking run hands control to the host, and the
/// host's report terminates the process with the decided outcome.
pub fn step(p: Phase, e: Event) -> (q: Phase)
    requires
        admits(p, e),
    ensures
        p is Unstarted ==> q is Running,
        e matches Event::HostReported(r) ==> q == Phase::Terminated(outcome_of(r)),
{
    match e {
        Event::Invoke => Phase::Running,
        Event::HostReported(r) => Phase::Terminated(conclude(r)),
    }
}

/// Law: the diagnostic for every detail begins with the phrase that
/// identifies a host-run failure.
pub proof fn lemma_message_carries_phrase(detail: Seq<char>)
    ensures
        fatal_phrase().is_prefix_of(message_of(detail)),
{
    assert(message_of(detail).subrange(0, fatal_phrase().len() as int) =~= fatal_phrase());
}

/// Law: a host-start failure is decided into a fatal outcome that carries the
/// host's detail, terminates with a non-zero status, and whose diagnostic
/// begins with the identifying phrase.
pub proof fn lemma_failed_start_is_fatal(r: HostRun)
    requires
        r is Failed,
    ensures
        outcome_of(r) matches Outcome::FatalInit(detail) && detail == r->0,
        status_of(outcome_of(r)) != 0,
        fatal_phrase().is_prefix_of(message_of(r->0@)),
{
    lemma_message_carries_phrase(r->0@);
}

/// Law: a clean host exit is decided into the clean outcome, whose status is
/// zero.
pub proof fn lemma_clean_exit_is_zero(r: HostRun)
    requires
        r is Exited,
    ensures
        outcome_of(r) is Clean,
        status_of(outcome_of(r)) == 0,
{
}

} // verus!
