use media_organizer::startup::{
    next_step, plan_startup, Failure, Outcome, Startup, Step, Strategy, BACKEND_SIDECAR,
};

use Outcome::{Failed, Succeeded};

#[test]
fn build_flag_selects_strategy() {
    assert_eq!(Strategy::for_build(true), Strategy::AttachDebugLogger);
    assert_eq!(Strategy::for_build(false), Strategy::LaunchProductionSidecar);
}

#[test]
fn sidecar_name_is_the_backend() {
    assert_eq!(BACKEND_SIDECAR, "media-organizer-backend");
}

#[test]
fn debug_run_attaches_logger_and_never_spawns() {
    let t = plan_startup(Strategy::AttachDebugLogger, &vec![Succeeded, Succeeded, Succeeded]);
    assert_eq!(
        t,
        vec![Step::RegisterShellPlugin, Step::AttachLogger, Step::RunEventLoop, Step::Finished]
    );
    assert!(!t.contains(&Step::SpawnSidecar));
    assert!(!t.contains(&Step::CreateSidecarCommand));
}

#[test]
fn release_run_spawns_once_and_attaches_no_logger() {
    let t = plan_startup(
        Strategy::LaunchProductionSidecar,
        &vec![Succeeded, Succeeded, Succeeded, Succeeded],
    );
    assert_eq!(
        t,
        vec![
            Step::RegisterShellPlugin,
            Step::CreateSidecarCommand,
            Step::SpawnSidecar,
            Step::RunEventLoop,
            Step::Finished,
        ]
    );
    assert_eq!(t.iter().filter(|s| **s == Step::SpawnSidecar).count(), 1);
    assert!(!t.contains(&Step::AttachLogger));
}

#[test]
fn extra_outcomes_after_the_end_are_ignored() {
    let t = plan_startup(
        Strategy::LaunchProductionSidecar,
        &vec![Succeeded, Succeeded, Succeeded, Succeeded, Failed, Succeeded],
    );
    assert_eq!(t.len(), 5);
    assert_eq!(t[4], Step::Finished);
    assert_eq!(t.iter().filter(|s| **s == Step::SpawnSidecar).count(), 1);
}

#[test]
fn failed_spawn_aborts_before_event_loop() {
    let t = plan_startup(
        Strategy::LaunchProductionSidecar,
        &vec![Succeeded, Succeeded, Failed, Succeeded],
    );
    assert_eq!(
        t,
        vec![
            Step::RegisterShellPlugin,
            Step::CreateSidecarCommand,
            Step::SpawnSidecar,
            Step::Aborted(Failure::SidecarSpawn),
        ]
    );
    assert!(!t.contains(&Step::RunEventLoop));
    assert!(t[3].is_fatal());
}

#[test]
fn missing_sidecar_executable_aborts_before_spawn() {
    let t = plan_startup(Strategy::LaunchProductionSidecar, &vec![Succeeded, Failed]);
    assert_eq!(
        t,
        vec![
            Step::RegisterShellPlugin,
            Step::CreateSidecarCommand,
            Step::Aborted(Failure::SidecarCommand),
        ]
    );
    assert!(!t.contains(&Step::SpawnSidecar));
}

#[test]
fn failed_registration_aborts_before_spawn() {
    let t = plan_startup(Strategy::LaunchProductionSidecar, &vec![Failed, Succeeded, Succeeded]);
    assert_eq!(
        t,
        vec![Step::RegisterShellPlugin, Step::Aborted(Failure::PluginRegistration)]
    );
    assert!(!t.contains(&Step::SpawnSidecar));
    assert!(!t.contains(&Step::RunEventLoop));
}

#[test]
fn failed_logger_attachment_aborts_before_event_loop() {
    let t = plan_startup(Strategy::AttachDebugLogger, &vec![Succeeded, Failed, Succeeded]);
    assert_eq!(
        t,
        vec![
            Step::RegisterShellPlugin,
            Step::AttachLogger,
            Step::Aborted(Failure::LoggerAttachment),
        ]
    );
    assert!(!t.contains(&Step::RunEventLoop));
}

#[test]
fn runtime_failure_is_fatal() {
    let t = plan_startup(Strategy::AttachDebugLogger, &vec![Succeeded, Succeeded, Failed]);
    assert_eq!(t.last(), Some(&Step::Aborted(Failure::Runtime)));
    assert!(t.last().unwrap().is_fatal());
}

#[test]
fn run_keeps_going_until_shutdown() {
    // The event loop has not returned yet: the run is still in it.
    let t = plan_startup(Strategy::LaunchProductionSidecar, &vec![Succeeded, Succeeded, Succeeded]);
    assert_eq!(t.last(), Some(&Step::RunEventLoop));
    assert!(!t.last().unwrap().is_terminal());
    assert_eq!(t.len(), 4);
}

#[test]
fn empty_outcomes_give_the_first_step() {
    let t = plan_startup(Strategy::AttachDebugLogger, &vec![]);
    assert_eq!(t, vec![Step::RegisterShellPlugin]);
}

#[test]
fn runtime_that_exits_at_once_finishes_the_run() {
    // A mock runtime whose actions all succeed and whose event loop returns
    // on its first turn.
    let mut run = Startup::new(Strategy::LaunchProductionSidecar);
    assert_eq!(run.strategy(), Strategy::LaunchProductionSidecar);
    let mut turns: u32 = 0;
    while !run.current().is_terminal() {
        let step = run.advance(Succeeded);
        assert_eq!(step, run.current());
        turns += 1;
    }
    assert_eq!(run.current(), Step::Finished);
    assert!(!run.current().is_fatal());
    assert_eq!(turns, 4);
}

#[test]
fn mock_spawner_that_fails_stops_the_driver() {
    let mut run = Startup::new(Strategy::LaunchProductionSidecar);
    let mut spawns: u32 = 0;
    let mut loops: u32 = 0;
    while !run.current().is_terminal() {
        let o = match run.current() {
            Step::SpawnSidecar => {
                spawns += 1;
                Failed
            }
            Step::RunEventLoop => {
                loops += 1;
                Succeeded
            }
            _ => Succeeded,
        };
        run.advance(o);
    }
    assert_eq!(spawns, 1);
    assert_eq!(loops, 0);
    assert_eq!(run.current(), Step::Aborted(Failure::SidecarSpawn));
}

#[test]
fn terminal_steps_stay_put() {
    for s in [Strategy::AttachDebugLogger, Strategy::LaunchProductionSidecar] {
        for o in [Succeeded, Failed] {
            assert_eq!(next_step(s, Step::Finished, o), Step::Finished);
            assert_eq!(
                next_step(s, Step::Aborted(Failure::Runtime), o),
                Step::Aborted(Failure::Runtime)
            );
        }
    }
}

#[test]
fn each_transition() {
    let d = Strategy::AttachDebugLogger;
    let r = Strategy::LaunchProductionSidecar;
    assert_eq!(next_step(d, Step::RegisterShellPlugin, Succeeded), Step::AttachLogger);
    assert_eq!(next_step(r, Step::RegisterShellPlugin, Succeeded), Step::CreateSidecarCommand);
    assert_eq!(next_step(d, Step::AttachLogger, Succeeded), Step::RunEventLoop);
    assert_eq!(next_step(r, Step::CreateSidecarCommand, Succeeded), Step::SpawnSidecar);
    assert_eq!(next_step(r, Step::SpawnSidecar, Succeeded), Step::RunEventLoop);
    assert_eq!(next_step(d, Step::RunEventLoop, Succeeded), Step::Finished);
    assert_eq!(next_step(r, Step::RunEventLoop, Failed), Step::Aborted(Failure::Runtime));
}

#[test]
fn steps_classified() {
    assert!(Step::Finished.is_terminal());
    assert!(Step::Aborted(Failure::SidecarSpawn).is_terminal());
    assert!(!Step::RunEventLoop.is_terminal());
    assert!(!Step::Finished.is_fatal());
    assert!(!Step::SpawnSidecar.is_fatal());
}

#[test]
fn failure_messages() {
    assert_eq!(Failure::SidecarCommand.message(), "Failed to create sidecar command");
    assert_eq!(Failure::SidecarSpawn.message(), "Failed to spawn backend sidecar");
    assert_eq!(Failure::Runtime.message(), "error while running tauri application");
    assert_eq!(Failure::PluginRegistration.message(), "failed to register the shell plugin");
    assert_eq!(Failure::LoggerAttachment.message(), "failed to attach the logging plugin");
}
