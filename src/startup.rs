use vstd::prelude::*;

verus! {

/// Name under which the packaged backend executable is bundled next to the
/// application.
pub const BACKEND_SIDECAR: &'static str = "media-organizer-backend";

/// How the application shell starts up. The two strategies are mutually
/// exclusive for a given build.
#[derive(Clone, Copy, Debug, PartialEq, Eq, Structural)]
pub enum Strategy {
    /// Development builds: attach a logger at informational verbosity.
    AttachDebugLogger,
    /// Production builds: launch the bundled backend as a child process.
    LaunchProductionSidecar,
}

/// Why startup or the event loop ended fatally.
#[derive(Clone, Copy, Debug, PartialEq, Eq, Structural)]
pub enum Failure {
    /// The shell-execution capability could not be registered.
    PluginRegistration,
    /// The logging plugin could not be attached.
    LoggerAttachment,
    /// The sidecar executable could not be resolved to a command.
    SidecarCommand,
    /// The sidecar process could not be started.
    SidecarSpawn,
    /// The GUI runtime failed while running.
    Runtime,
}

/// What the shell does next. A non-terminal step is an action to perform;
/// `Finished` and `Aborted` are where the sequence ends.
#[derive(Clone, Copy, Debug, PartialEq, Eq, Structural)]
pub enum Step {
    RegisterShellPlugin,
    AttachLogger,
    CreateSidecarCommand,
    SpawnSidecar,
    RunEventLoop,
    Finished,
    Aborted(Failure),
}

/// How the action of the current step went. For `RunEventLoop`, `Succeeded`
/// means the loop returned because the GUI signalled shutdown.
#[derive(Clone, Copy, Debug, PartialEq, Eq, Structural)]
pub enum Outcome {
    Succeeded,
    Failed,
}

pub open spec fn strategy_of(debug_build: bool) -> Strategy {
    if debug_build {
        Strategy::AttachDebugLogger
    } else {
        Strategy::LaunchProductionSidecar
    }
}

pub open spec fn terminal(step: Step) -> bool {
    step is Finished || step is Aborted
}

/// The step after `step` once its action ended with `o`. Every failure is
/// fatal; terminal steps stay where they are.
#[verifier::opaque]
pub open spec fn next(s: Strategy, step: Step, o: Outcome) -> Step {
    match step {
        Step::RegisterShellPlugin => if o is Failed {
            Step::Aborted(Failure::PluginRegistration)
        } else if s is AttachDebugLogger {
            Step::AttachLogger
        } else {
            Step::CreateSidecarCommand
        },
        Step::AttachLogger => if o is Failed {
            Step::Aborted(Failure::LoggerAttachment)
        } else {
            Step::RunEventLoop
        },
        Step::CreateSidecarCommand => if o is Failed {
            Step::Aborted(Failure::SidecarCommand)
        } else {
            Step::SpawnSidecar
        },
        Step::SpawnSidecar => if o is Failed {
            Step::Aborted(Failure::SidecarSpawn)
        } else {
            Step::RunEventLoop
        },
        Step::RunEventLoop => if o is Failed {
            Step::Aborted(Failure::Runtime)
        } else {
            Step::Finished
        },
        Step::Finished => Step::Finished,
        Step::Aborted(f) => Step::Aborted(f),
    }
}

/// The steps taken from `step` when the actions end with `outs`, in order:
/// `step` itself, then one step per outcome consumed, until a terminal step
/// or the end of `outs`.
pub open spec fn steps_from(s: Strategy, step: Step, outs: Seq<Outcome>) -> Seq<Step>
    decreases outs.len(),
{
    if outs.len() == 0 || terminal(step) {
        seq![step]
    } else {
        seq![step] + steps_from(s, next(s, step, outs[0]), outs.subrange(1, outs.len() as int))
    }
}

/// The steps of a whole startup and run, from the first registration on.
pub open spec fn startup_trace(s: Strategy, outs: Seq<Outcome>) -> Seq<Step> {
    steps_from(s, Step::RegisterShellPlugin, outs)
}

pub open spec fn failure_text(f: Failure) -> Seq<char> {
    match f {
        Failure::PluginRegistration => "failed to register the shell plugin"@,
        Failure::LoggerAttachment => "failed to attach the logging plugin"@,
        Failure::SidecarCommand => "Failed to create sidecar command"@,
        Failure::SidecarSpawn => "Failed to spawn backend sidecar"@,
        Failure::Runtime => "error while running tauri application"@,
    }
}

impl Strategy {
    /// The strategy that a build selects: the debug logger for debug builds,
    /// the production sidecar otherwise.
    pub fn for_build(debug_build: bool) -> (r: Strategy)
        ensures
            r == strategy_of(debug_build),
    {
        if debug_build {
            Strategy::AttachDebugLogger
        } else {
            Strategy::LaunchProductionSidecar
        }
    }
}

impl Failure {
    /// The message with which the process terminates on this failure.
    pub fn message(&self) -> (r: &'static str)
        ensures
            r@ == failure_text(*self),
    {
        match self {
            Failure::PluginRegistration => "failed to register the shell plugin",
            Failure::LoggerAttachment => "failed to attach the logging plugin",
            Failure::SidecarCommand => "Failed to create sidecar command",
            Failure::SidecarSpawn => "Failed to spawn backend sidecar",
            Failure::Runtime => "error while running tauri application",
        }
    }
}

impl Step {
    /// Whether the sequence has ended here.
    pub fn is_terminal(&self) -> (r: bool)
        ensures
            r == terminal(*self),
    {
        match self {
            Step::Finished | Step::Aborted(_) => true,
            _ => false,
        }
    }

    /// Whether the sequence ended with a fatal error.
    pub fn is_fatal(&self) -> (r: bool)
        ensures
            r == (*self is Aborted),
    {
        match self {
            Step::Aborted(_) => true,
            _ => false,
        }
    }
}

/// The step after `step` under strategy `s` once its action ended with `o`.
pub fn next_step(s: Strategy, step: Step, o: Outcome) -> (r: Step)
    ensures
        r == next(s, step, o),
{
    reveal(next);
    let failed = match o {
        Outcome::Failed => true,
        Outcome::Succeeded => false,
    };
    match step {
        Step::RegisterShellPlugin => if failed {
            Step::Aborted(Failure::PluginRegistration)
        } else {
            match s {
                Strategy::AttachDebugLogger => Step::AttachLogger,
                Strategy::LaunchProductionSidecar => Step::CreateSidecarCommand,
            }
        },
        Step::AttachLogger => if failed {
            Step::Aborted(Failure::LoggerAttachment)
        } else {
            Step::RunEventLoop
        },
        Step::CreateSidecarCommand => if failed {
            Step::Aborted(Failure::SidecarCommand)
        } else {
            Step::SpawnSidecar
        },
        Step::SpawnSidecar => if failed {
            Step::Aborted(Failure::SidecarSpawn)
        } else {
            Step::RunEventLoop
        },
        Step::RunEventLoop => if failed {
            Step::Aborted(Failure::Runtime)
        } else {
            Step::Finished
        },
        Step::Finished => Step::Finished,
        Step::Aborted(f) => Step::Aborted(f),
    }
}

/// One run of the application shell: the strategy it was built with and the
/// step it has reached.
pub struct Startup {
    strategy: Strategy,
    step: Step,
}

impl Startup {
    pub closed spec fn strategy_spec(&self) -> Strategy {
        self.strategy
    }

    pub closed spec fn step_spec(&self) -> Step {
        self.step
    }

    /// A run that has not done anything yet: its first action is to register
    /// the shell-execution plugin.
    pub fn new(strategy: Strategy) -> (r: Startup)
        ensures
            r.strategy_spec() == strategy,
            r.step_spec() == Step::RegisterShellPlugin,
    {
        Startup { strategy, step: Step::RegisterShellPlugin }
    }

    pub fn strategy(&self) -> (r: Strategy)
        ensures
            r == self.strategy_spec(),
    {
        self.strategy
    }

    /// The action to perform now, or how the run ended.
    pub fn current(&self) -> (r: Step)
        ensures
            r == self.step_spec(),
    {
        self.step
    }

    /// Records how the current action went and moves to the next step, which
    /// is returned.
    pub fn advance(&mut self, o: Outcome) -> (r: Step)
        ensures
            final(self).strategy_spec() == old(self).strategy_spec(),
            final(self).step_spec() == next(old(self).strategy_spec(), old(self).step_spec(), o),
            r == final(self).step_spec(),
    {
        self.step = next_step(self.strategy, self.step, o);
        self.step
    }
}

proof fn lemma_steps_from_unfold(s: Strategy, step: Step, outs: Seq<Outcome>, i: int)
    requires
        0 <= i < outs.len(),
        !terminal(step),
    ensures
        steps_from(s, step, outs.subrange(i, outs.len() as int)) == seq![step] + steps_from(
            s,
            next(s, step, outs[i]),
            outs.subrange(i + 1, outs.len() as int),
        ),
{
    let rest = outs.subrange(i, outs.len() as int);
    assert(rest.subrange(1, rest.len() as int) =~= outs.subrange(i + 1, outs.len() as int));
}

/// The steps that a run under strategy `s` takes when its actions end with
/// `outcomes`, one after the other: the first step, then one step per
/// outcome, until the run ends or the outcomes run out.
pub fn plan_startup(s: Strategy, outcomes: &Vec<Outcome>) -> (r: Vec<Step>)
    ensures
        r@ == startup_trace(s, outcomes@),
{
    let mut r: Vec<Step> = Vec::new();
    let mut run = Startup::new(s);
    let mut i: usize = 0;
    assert(outcomes@.subrange(0, outcomes@.len() as int) =~= outcomes@);
    while i < outcomes.len() && !run.current().is_terminal()
        invariant
            i <= outcomes@.len(),
            run.strategy_spec() == s,
            r@ + steps_from(s, run.step_spec(), outcomes@.subrange(i as int, outcomes@.len() as int))
                == startup_trace(s, outcomes@),
        decreases outcomes@.len() - i,
    {
        let step = run.current();
        proof {
            lemma_steps_from_unfold(s, step, outcomes@, i as int);
        }
        let ghost tail = steps_from(s, next(s, step, outcomes@[i as int]), outcomes@.subrange(i + 1, outcomes@.len() as int));
        let ghost before = r@;
        r.push(step);
        run.advance(outcomes[i]);
        i = i + 1;
        assert(r@ + tail =~= before + (seq![step] + tail));
    }
    let ghost before = r@;
    let last = run.current();
    assert(steps_from(s, last, outcomes@.subrange(i as int, outcomes@.len() as int)) == seq![last]);
    r.push(last);
    assert(r@ =~= before + seq![last]);
    r
}

} // verus!
