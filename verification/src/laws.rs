//! What holds of every startup.
//!
//! A run is modelled by the surroundings it meets: a function that says, for
//! each step, how that step ends. The laws below quantify over all such
//! surroundings and both build profiles.

use vstd::prelude::*;
use crate::profile::Profile;
use crate::step::{successor, Fault, Outcome, Step};

verus! {

/// The step in progress after `n` steps have ended, where each step ends as
/// `ends` says.
pub open spec fn step_at(profile: Profile, ends: spec_fn(Step) -> Outcome, n: nat) -> Step
    decreases n,
{
    if n == 0 {
        Step::RegisterShell
    } else {
        let before = step_at(profile, ends, (n - 1) as nat);
        successor(profile, before, ends(before))
    }
}

/// Whether the registration of logging, where the profile asks for one,
/// succeeds.
pub open spec fn logging_registers(profile: Profile, ends: spec_fn(Step) -> Outcome) -> bool {
    match profile.logging() {
        Some(level) => ends(Step::RegisterLogging(level)) == Outcome::Completed,
        None => true,
    }
}

/// Whether the companion can be located and launched.
pub open spec fn companion_available(ends: spec_fn(Step) -> Outcome) -> bool {
    ends(Step::LocateCompanion) == Outcome::Completed && ends(Step::SpawnCompanion)
        == Outcome::Completed
}

/// Whether a logging capability has been registered with success among the
/// first `n` steps.
pub open spec fn logging_active(profile: Profile, ends: spec_fn(Step) -> Outcome, n: nat) -> bool {
    exists|k: nat|
        k < n && (#[trigger] step_at(profile, ends, k)) is RegisterLogging && ends(
            step_at(profile, ends, k),
        ) == Outcome::Completed
}

/// How many steps end before the companion's turn: the shell alone, or the
/// shell and the logging registration.
pub open spec fn steps_before_companion(profile: Profile) -> nat {
    match profile {
        Profile::Debug => 2,
        Profile::Release => 1,
    }
}

/// Once a terminal step is reached the run stays there.
pub proof fn lemma_terminal_is_final(
    profile: Profile,
    ends: spec_fn(Step) -> Outcome,
    k: nat,
    n: nat,
)
    requires
        step_at(profile, ends, k).is_terminal(),
        k <= n,
    ensures
        step_at(profile, ends, n) == step_at(profile, ends, k),
    decreases n,
{
    if n > k {
        lemma_terminal_is_final(profile, ends, k, (n - 1) as nat);
    }
}

/// The fault a run aborts with where the companion is not available: the
/// first of the two companion steps that fails names it.
pub open spec fn companion_fault(ends: spec_fn(Step) -> Outcome) -> Fault {
    if ends(Step::LocateCompanion) == Outcome::Failed {
        Fault::CompanionNotFound
    } else {
        Fault::CompanionNotSpawned
    }
}

/// The order of the steps, written out: the shell; logging, where the
/// profile asks for it, and back to the host if it does not register; then
/// locating the companion, launching it, and the host's main loop, with an
/// abort in place of whatever would follow a companion step that fails.
pub open spec fn course(profile: Profile, ends: spec_fn(Step) -> Outcome, n: nat) -> Step {
    let b = steps_before_companion(profile);
    if n == 0 {
        Step::RegisterShell
    } else if n < b {
        crate::step::after_shell(profile)
    } else if !logging_registers(profile, ends) {
        Step::ReportToHost
    } else if n == b {
        Step::LocateCompanion
    } else if ends(Step::LocateCompanion) == Outcome::Failed {
        Step::Abort(Fault::CompanionNotFound)
    } else if n == b + 1 {
        Step::SpawnCompanion
    } else if ends(Step::SpawnCompanion) == Outcome::Failed {
        Step::Abort(Fault::CompanionNotSpawned)
    } else {
        Step::EnterMainLoop
    }
}

/// Every startup takes its steps in the order of `course`.
pub proof fn law_order_of_steps(profile: Profile, ends: spec_fn(Step) -> Outcome, n: nat)
    ensures
        step_at(profile, ends, n) == course(profile, ends, n),
    decreases n,
{
    if n > 0 {
        law_order_of_steps(profile, ends, (n - 1) as nat);
    }
}

/// Every startup ends: after four steps at the latest the step in progress is
/// terminal, and it is the step of every later moment.
pub proof fn law_startup_ends(profile: Profile, ends: spec_fn(Step) -> Outcome)
    ensures
        step_at(profile, ends, 4).is_terminal(),
        forall|n: nat| n >= 4 ==> #[trigger] step_at(profile, ends, n) == step_at(profile, ends, 4),
{
    law_order_of_steps(profile, ends, 4);
    assert forall|n: nat| n >= 4 implies #[trigger] step_at(profile, ends, n) == step_at(
        profile,
        ends,
        4,
    ) by {
        lemma_terminal_is_final(profile, ends, 4, n);
    }
}

/// Where the companion can be located and launched, no startup aborts; and
/// where the logging registration, if there is one, succeeds as well, the
/// startup arrives at the host's main loop and stays there.
pub proof fn law_available_companion_starts(profile: Profile, ends: spec_fn(Step) -> Outcome)
    requires
        companion_available(ends),
    ensures
        forall|n: nat| !(#[trigger] step_at(profile, ends, n) is Abort),
        logging_registers(profile, ends) ==> forall|n: nat|
            n >= steps_before_companion(profile) + 2 ==> #[trigger] step_at(profile, ends, n)
                == Step::EnterMainLoop,
{
    assert forall|n: nat| !(#[trigger] step_at(profile, ends, n) is Abort) by {
        law_order_of_steps(profile, ends, n);
    }
    if logging_registers(profile, ends) {
        assert forall|n: nat| n >= steps_before_companion(profile) + 2 implies #[trigger] step_at(
            profile,
            ends,
            n,
        ) == Step::EnterMainLoop by {
            law_order_of_steps(profile, ends, n);
        }
    }
}

/// Where the companion cannot be located or cannot be launched, no startup
/// ever arrives at the host's main loop; and where the logging registration,
/// if there is one, succeeds, the startup aborts, with the fault of the
/// companion step that failed.
pub proof fn law_unavailable_companion_stops(profile: Profile, ends: spec_fn(Step) -> Outcome)
    requires
        !companion_available(ends),
    ensures
        forall|n: nat| #[trigger] step_at(profile, ends, n) != Step::EnterMainLoop,
        logging_registers(profile, ends) ==> forall|n: nat|
            n >= steps_before_companion(profile) + 2 ==> #[trigger] step_at(profile, ends, n)
                == Step::Abort(companion_fault(ends)),
{
    assert forall|n: nat| #[trigger] step_at(profile, ends, n) != Step::EnterMainLoop by {
        law_order_of_steps(profile, ends, n);
    }
    if logging_registers(profile, ends) {
        assert forall|n: nat| n >= steps_before_companion(profile) + 2 implies #[trigger] step_at(
            profile,
            ends,
            n,
        ) == Step::Abort(companion_fault(ends)) by {
            law_order_of_steps(profile, ends, n);
        }
    }
}

/// Logging goes by the profile. A release build never registers logging. A
/// debug build registers it as its second step, at informational verbosity,
/// and at no other moment. Whenever a startup has arrived at the host's main
/// loop, logging is active if and only if the build is a debug build.
pub proof fn law_logging_follows_profile(profile: Profile, ends: spec_fn(Step) -> Outcome)
    ensures
        forall|n: nat| #[trigger]
            step_at(profile, ends, n) is RegisterLogging <==> profile == Profile::Debug && n == 1,
        profile == Profile::Debug ==> step_at(profile, ends, 1) == Step::RegisterLogging(
            crate::profile::Verbosity::Info,
        ),
        forall|n: nat| #[trigger]
            step_at(profile, ends, n) == Step::EnterMainLoop ==> (logging_active(profile, ends, n)
                <==> profile == Profile::Debug),
{
    assert forall|n: nat| #[trigger]
        step_at(profile, ends, n) is RegisterLogging <==> profile == Profile::Debug && n
            == 1 by {
        law_order_of_steps(profile, ends, n);
    }
    law_order_of_steps(profile, ends, 1);
    assert forall|n: nat| #[trigger]
        step_at(profile, ends, n) == Step::EnterMainLoop implies (logging_active(profile, ends, n)
            <==> profile == Profile::Debug) by {
        law_order_of_steps(profile, ends, n);
        if profile == Profile::Debug {
            assert(step_at(profile, ends, 1) is RegisterLogging);
            assert(n >= 4);
        }
    }
}

} // verus!
