//! Properties of every run of the startup sequence, whatever its actions
//! report.
use vstd::prelude::*;

use crate::startup::{next, startup_trace, steps_from, terminal, Failure, Outcome, Step, Strategy};

verus! {

/// In a debug build no sidecar command is created and no sidecar is spawned,
/// on any run; once the shell plugin is registered the logger is attached,
/// and the event loop is only entered right after it.
pub proof fn debug_build_attaches_logger_and_never_spawns(outs: Seq<Outcome>)
    ensures
        ({
            let t = startup_trace(Strategy::AttachDebugLogger, outs);
            &&& forall|i: int|
                0 <= i < t.len() ==> !(t[i] is SpawnSidecar) && !(t[i] is CreateSidecarCommand)
            &&& outs.len() >= 1 && outs[0] is Succeeded ==> t[1] == Step::AttachLogger
            &&& forall|i: int|
                0 <= i < t.len() && #[trigger] t[i] is RunEventLoop ==> i == 2 && t[1] == Step::AttachLogger
        }),
{
    reveal(next);
    reveal_with_fuel(steps_from, 5);
}

/// In a release build the logger is never attached and the sidecar is
/// spawned at most once on any run, exactly once when the shell plugin is
/// registered and the sidecar command is created; the event loop is only
/// entered right after that spawn.
pub proof fn release_build_spawns_sidecar_exactly_once(outs: Seq<Outcome>)
    ensures
        ({
            let t = startup_trace(Strategy::LaunchProductionSidecar, outs);
            &&& forall|i: int| 0 <= i < t.len() ==> !(#[trigger] t[i] is AttachLogger)
            &&& forall|i: int, j: int|
                0 <= i < t.len() && 0 <= j < t.len() && #[trigger] t[i] is SpawnSidecar
                    && #[trigger] t[j] is SpawnSidecar ==> i == j
            &&& outs.len() >= 2 && outs[0] is Succeeded && outs[1] is Succeeded ==> t[2]
                == Step::SpawnSidecar
            &&& forall|i: int|
                0 <= i < t.len() && #[trigger] t[i] is RunEventLoop ==> i == 3 && t[2]
                    == Step::SpawnSidecar
        }),
{
    reveal(next);
    reveal_with_fuel(steps_from, 5);
}

/// When the sidecar spawn fails, the run ends right there with a fatal
/// error, and the event loop is never entered.
pub proof fn failed_spawn_ends_run_before_event_loop(s: Strategy, outs: Seq<Outcome>, i: int)
    requires
        0 <= i < outs.len(),
        i < startup_trace(s, outs).len(),
        startup_trace(s, outs)[i] == Step::SpawnSidecar,
        outs[i] is Failed,
    ensures
        ({
            let t = startup_trace(s, outs);
            &&& t.len() == i + 2
            &&& t[i + 1] == Step::Aborted(Failure::SidecarSpawn)
            &&& forall|j: int| 0 <= j < t.len() ==> !(#[trigger] t[j] is RunEventLoop)
        }),
{
    reveal(next);
    reveal_with_fuel(steps_from, 5);
}

/// When a plugin cannot be registered (the shell plugin, or the logger in a
/// debug build), the run ends right there with a fatal error: no sidecar is
/// spawned and the event loop is never entered.
pub proof fn failed_registration_ends_run_before_spawn(s: Strategy, outs: Seq<Outcome>, i: int)
    requires
        0 <= i < outs.len(),
        i < startup_trace(s, outs).len(),
        startup_trace(s, outs)[i] is RegisterShellPlugin || startup_trace(s, outs)[i] is AttachLogger,
        outs[i] is Failed,
    ensures
        ({
            let t = startup_trace(s, outs);
            &&& t.len() == i + 2
            &&& t[i + 1] == Step::Aborted(Failure::PluginRegistration) || t[i + 1] == Step::Aborted(
                Failure::LoggerAttachment,
            )
            &&& forall|j: int|
                0 <= j < t.len() ==> !(#[trigger] t[j] is SpawnSidecar) && !(t[j] is RunEventLoop)
        }),
{
    reveal(next);
    reveal_with_fuel(steps_from, 5);
}

/// Each step of a trace but the last is an action that was carried out, and
/// the step after it is where its outcome leads; a trace stops short of the
/// outcomes only at a terminal step.
proof fn lemma_trace_transitions(s: Strategy, step: Step, outs: Seq<Outcome>)
    ensures
        ({
            let t = steps_from(s, step, outs);
            &&& 1 <= t.len() <= outs.len() + 1
            &&& t[0] == step
            &&& forall|i: int|
                0 <= i < t.len() - 1 ==> !terminal(t[i]) && t[i + 1] == next(
                    s,
                    t[i],
                    #[trigger] outs[i],
                )
            &&& t.len() < outs.len() + 1 ==> terminal(t.last())
        }),
    decreases outs.len(),
{
    if outs.len() > 0 && !terminal(step) {
        let rest = outs.subrange(1, outs.len() as int);
        let n = next(s, step, outs[0]);
        lemma_trace_transitions(s, n, rest);
        let t = steps_from(s, step, outs);
        let u = steps_from(s, n, rest);
        assert(t == seq![step] + u);
        assert forall|i: int| 0 <= i < t.len() - 1 implies !terminal(t[i]) && t[i + 1] == next(
            s,
            t[i],
            #[trigger] outs[i],
        ) by {
            if i > 0 {
                assert(t[i] == u[i - 1]);
                assert(t[i + 1] == u[i]);
                assert(outs[i] == rest[i - 1]);
            }
        }
    }
}

/// A run finishes only when its event loop has returned on the GUI's
/// shutdown signal, and it does finish then; otherwise it ends fatally or is
/// still going, in which case every outcome so far has been taken in.
pub proof fn run_finishes_only_on_shutdown(s: Strategy, outs: Seq<Outcome>)
    ensures
        ({
            let t = startup_trace(s, outs);
            &&& forall|i: int| 0 <= i < t.len() - 1 ==> !(#[trigger] t[i] is Finished)
            &&& t.last() is Finished ==> t.len() >= 2 && t[t.len() - 2] is RunEventLoop
                && outs[t.len() - 2] is Succeeded
            &&& forall|i: int|
                0 <= i < t.len() && i < outs.len() && #[trigger] t[i] is RunEventLoop
                    && outs[i] is Succeeded ==> t.len() == i + 2 && t.last() is Finished
            &&& !terminal(t.last()) ==> t.len() == outs.len() + 1
        }),
{
    lemma_trace_transitions(s, Step::RegisterShellPlugin, outs);
    let t = startup_trace(s, outs);
    assert forall|i: int| 0 <= i < t.len() - 1 implies !(#[trigger] t[i] is Finished) by {
        let o = outs[i];
    }
    if t.last() is Finished {
        let k = t.len() - 1;
        let o = outs[k - 1];
        assert(t[k] == next(s, t[k - 1], o));
        assert(t[k - 1] is RunEventLoop && o is Succeeded) by {
            reveal(next);
        }
    }
    assert forall|i: int|
        0 <= i < t.len() && i < outs.len() && #[trigger] t[i] is RunEventLoop
            && outs[i] is Succeeded implies t.len() == i + 2 && t.last() is Finished by {
        if i < t.len() - 1 {
            assert(t[i + 1] == next(s, t[i], outs[i]));
            assert(t[i + 1] is Finished) by {
                reveal(next);
            }
            if i + 1 < t.len() - 1 {
                let o = outs[i + 1];
            }
        }
    }
}

} // verus!
