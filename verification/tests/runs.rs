use app_bootstrap::profile::{Profile, Verbosity};
use app_bootstrap::step::{first_step, next_step, Fault, Outcome, Step};

/// What a run meets: whether logging registers, and whether the companion is
/// found and spawns.
#[derive(Clone, Copy)]
struct Surroundings {
    logging: bool,
    found: bool,
    spawns: bool,
}

const FINE: Surroundings = Surroundings { logging: true, found: true, spawns: true };

fn ends(around: Surroundings, step: Step) -> Outcome {
    let fine = match step {
        Step::RegisterLogging(_) => around.logging,
        Step::LocateCompanion => around.found,
        Step::SpawnCompanion => around.spawns,
        _ => true,
    };
    if fine {
        Outcome::Completed
    } else {
        Outcome::Failed
    }
}

/// The steps of a whole run, the terminal one included.
fn run(profile: Profile, around: Surroundings) -> Vec<Step> {
    let mut steps = vec![first_step()];
    while !steps[steps.len() - 1].is_terminal() {
        let step = steps[steps.len() - 1];
        steps.push(next_step(profile, step, ends(around, step)));
        assert!(steps.len() <= 5);
    }
    steps
}

fn all_surroundings() -> Vec<Surroundings> {
    let mut all = Vec::new();
    for logging in [true, false] {
        for found in [true, false] {
            for spawns in [true, false] {
                all.push(Surroundings { logging, found, spawns });
            }
        }
    }
    all
}

#[test]
fn debug_startup_with_companion_reaches_the_main_loop() {
    assert_eq!(
        run(Profile::Debug, FINE),
        vec![
            Step::RegisterShell,
            Step::RegisterLogging(Verbosity::Info),
            Step::LocateCompanion,
            Step::SpawnCompanion,
            Step::EnterMainLoop,
        ]
    );
}

#[test]
fn release_startup_with_companion_reaches_the_main_loop() {
    assert_eq!(
        run(Profile::Release, FINE),
        vec![
            Step::RegisterShell,
            Step::LocateCompanion,
            Step::SpawnCompanion,
            Step::EnterMainLoop,
        ]
    );
}

#[test]
fn startup_without_companion_aborts() {
    let around = Surroundings { found: false, ..FINE };
    assert_eq!(
        run(Profile::Debug, around),
        vec![
            Step::RegisterShell,
            Step::RegisterLogging(Verbosity::Info),
            Step::LocateCompanion,
            Step::Abort(Fault::CompanionNotFound),
        ]
    );
    assert_eq!(
        run(Profile::Release, around),
        vec![
            Step::RegisterShell,
            Step::LocateCompanion,
            Step::Abort(Fault::CompanionNotFound),
        ]
    );
}

#[test]
fn startup_with_companion_that_does_not_spawn_aborts() {
    let around = Surroundings { spawns: false, ..FINE };
    assert_eq!(
        run(Profile::Debug, around),
        vec![
            Step::RegisterShell,
            Step::RegisterLogging(Verbosity::Info),
            Step::LocateCompanion,
            Step::SpawnCompanion,
            Step::Abort(Fault::CompanionNotSpawned),
        ]
    );
    assert_eq!(
        run(Profile::Release, around),
        vec![
            Step::RegisterShell,
            Step::LocateCompanion,
            Step::SpawnCompanion,
            Step::Abort(Fault::CompanionNotSpawned),
        ]
    );
}

#[test]
fn debug_startup_without_logging_goes_back_to_the_host() {
    for around in all_surroundings() {
        if !around.logging {
            assert_eq!(
                run(Profile::Debug, around),
                vec![
                    Step::RegisterShell,
                    Step::RegisterLogging(Verbosity::Info),
                    Step::ReportToHost,
                ]
            );
        }
    }
}

#[test]
fn release_startup_does_not_depend_on_logging() {
    for around in all_surroundings() {
        let with = Surroundings { logging: true, ..around };
        let without = Surroundings { logging: false, ..around };
        assert_eq!(run(Profile::Release, with), run(Profile::Release, without));
    }
}

#[test]
fn every_startup_ends_within_four_steps() {
    for profile in [Profile::Debug, Profile::Release] {
        for around in all_surroundings() {
            let steps = run(profile, around);
            assert!(steps.len() <= 5);
            assert!(steps[steps.len() - 1].is_terminal());
        }
    }
}

#[test]
fn no_startup_aborts_while_the_companion_is_available() {
    for profile in [Profile::Debug, Profile::Release] {
        for logging in [true, false] {
            let steps = run(profile, Surroundings { logging, ..FINE });
            assert!(steps.iter().all(|step| !matches!(step, Step::Abort(_))));
        }
    }
}

#[test]
fn no_startup_reaches_the_main_loop_without_the_companion() {
    for profile in [Profile::Debug, Profile::Release] {
        for around in all_surroundings() {
            if !(around.found && around.spawns) {
                let steps = run(profile, around);
                assert!(!steps.contains(&Step::EnterMainLoop));
            }
        }
    }
}

#[test]
fn logging_is_registered_in_debug_builds_only() {
    for around in all_surroundings() {
        let debug = run(Profile::Debug, around);
        assert_eq!(debug[1], Step::RegisterLogging(Verbosity::Info));
        assert_eq!(
            debug.iter().filter(|step| matches!(step, Step::RegisterLogging(_))).count(),
            1
        );
        let release = run(Profile::Release, around);
        assert!(release.iter().all(|step| !matches!(step, Step::RegisterLogging(_))));
    }
}
