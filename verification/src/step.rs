//! The steps of startup and the rule that orders them.
//!
//! The step in progress is the whole state of a startup: together with the
//! build profile and the outcome of the step it determines what is done next.

use vstd::prelude::*;
use crate::profile::{Profile, Verbosity};

verus! {

/// How the step in progress ended.
#[derive(Clone, Copy, Debug, PartialEq, Eq, Structural)]
pub enum Outcome {
    Completed,
    Failed,
}

/// Why a startup was aborted.
#[derive(Clone, Copy, Debug, PartialEq, Eq, Structural)]
pub enum Fault {
    /// The companion executable could not be located.
    CompanionNotFound,
    /// The companion executable was located but could not be launched.
    CompanionNotSpawned,
}

/// One step of startup: what the program is to do now.
#[derive(Clone, Copy, Debug, PartialEq, Eq, Structural)]
pub enum Step {
    /// Register the capability to run external processes with the host.
    RegisterShell,
    /// Register a logging capability with the host, at the given verbosity.
    RegisterLogging(Verbosity),
    /// Resolve the companion executable by its name.
    LocateCompanion,
    /// Launch the companion executable; its handle and output are let go.
    SpawnCompanion,
    /// Hand control to the host's main loop. Startup has completed.
    EnterMainLoop,
    /// Hand the host's own error back to the host. Startup has stopped.
    ReportToHost,
    /// Terminate the program at once. Startup has stopped.
    Abort(Fault),
}

impl Step {
    /// Whether nothing follows this step.
    pub open spec fn spec_is_terminal(self) -> bool {
        self == Step::EnterMainLoop || self == Step::ReportToHost || self is Abort
    }

    /// Whether nothing follows this step: control has gone to the host, or
    /// startup has stopped.
    #[verifier::when_used_as_spec(spec_is_terminal)]
    pub fn is_terminal(self) -> (terminal: bool)
        ensures
            terminal == self.spec_is_terminal(),
    {
        match self {
            Step::EnterMainLoop | Step::ReportToHost | Step::Abort(_) => true,
            _ => false,
        }
    }
}

/// The step that follows the registration of the shell capability: logging
/// where the profile asks for it, else the companion.
pub open spec fn after_shell(profile: Profile) -> Step {
    match profile.logging() {
        Some(level) => Step::RegisterLogging(level),
        None => Step::LocateCompanion,
    }
}

/// The step that follows `step` once it has ended with `outcome`.
///
/// Registering the shell capability cannot be seen to fail, so its outcome is
/// not looked at. A failed logging registration goes back to the host; a
/// companion that cannot be located or launched aborts. A terminal step is
/// followed by itself.
pub open spec fn successor(profile: Profile, step: Step, outcome: Outcome) -> Step {
    match (step, outcome) {
        (Step::RegisterShell, _) => after_shell(profile),
        (Step::RegisterLogging(_), Outcome::Completed) => Step::LocateCompanion,
        (Step::RegisterLogging(_), Outcome::Failed) => Step::ReportToHost,
        (Step::LocateCompanion, Outcome::Completed) => Step::SpawnCompanion,
        (Step::LocateCompanion, Outcome::Failed) => Step::Abort(Fault::CompanionNotFound),
        (Step::SpawnCompanion, Outcome::Completed) => Step::EnterMainLoop,
        (Step::SpawnCompanion, Outcome::Failed) => Step::Abort(Fault::CompanionNotSpawned),
        (Step::EnterMainLoop, _) => step,
        (Step::ReportToHost, _) => step,
        (Step::Abort(_), _) => step,
    }
}

/// The name under which the companion executable is bundled.
pub fn companion_name() -> (name: &'static str)
    ensures
        name@ == "api"@,
{
    "api"
}

/// The step every startup begins with.
pub fn first_step() -> (step: Step)
    ensures
        step == Step::RegisterShell,
{
    Step::RegisterShell
}

/// Decides what to do once `step` has ended with `outcome`.
pub fn next_step(profile: Profile, step: Step, outcome: Outcome) -> (next: Step)
    ensures
        next == successor(profile, step, outcome),
{
    if step.is_terminal() {
        return step;
    }
    let failed = outcome == Outcome::Failed;
    match step {
        Step::RegisterShell => match profile.logging() {
            Some(level) => Step::RegisterLogging(level),
            None => Step::LocateCompanion,
        },
        Step::RegisterLogging(_) => if failed {
            Step::ReportToHost
        } else {
            Step::LocateCompanion
        },
        Step::LocateCompanion => if failed {
            Step::Abort(Fault::CompanionNotFound)
        } else {
            Step::SpawnCompanion
        },
        _ => if failed {
            Step::Abort(Fault::CompanionNotSpawned)
        } else {
            Step::EnterMainLoop
        },
    }
}

} // verus!
