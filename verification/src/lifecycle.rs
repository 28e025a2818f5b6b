//! The engine lifecycle controller: `Stopped`, `Loading`, `Running`.
//!
//! The controller decides; its caller acts. `start` is told whether the
//! listen port could be bound and answers whether a worker is to be
//! spawned. `stop` answers whether a worker has to be told to end and
//! waited for. The worker's reports come back as events, each tagged with
//! the number of the run that sent it, and a report of any run but the
//! current one is ignored: progress of a run that is over is never taken
//! for progress of the run that followed it.
//!
//! At most one worker is alive for one controller. A start is refused while
//! a worker may still hold the listen port, and a restart is a stop, with
//! the wait that it asks for, followed by a start.

use vstd::prelude::*;
use crate::progress::LoadProgress;
use crate::progress::all_done;
use crate::progress::none_done;
use crate::startup::StartupModel;
use crate::startup::lemma_step_progress;
use crate::startup::lemma_step_wf;
use crate::startup::progress_of;
use crate::startup::step;

verus! {

/// The state of the engine as its controller sees it.
#[derive(Clone, Copy, Debug, PartialEq, Eq, Structural)]
pub enum EngineState {
    /// No worker is alive.
    Stopped,
    /// A worker is alive and bringing the engine up.
    Loading,
    /// A worker is alive and the engine accepts events.
    Running,
    /// The worker died without being asked to end.
    Crashed,
}

/// What the caller of `stop` or `begin_restart` has to do to the worker.
#[derive(Clone, Copy, Debug, PartialEq, Eq, Structural)]
pub enum StopAction {
    /// There is no worker: nothing to do, and nothing to wait for.
    Nothing,
    /// Set the cancellation flag, then wait until the worker has ended.
    SignalAndJoin,
}

/// Why a start was refused.
#[derive(Clone, Copy, Debug, PartialEq, Eq, Structural)]
pub enum StartError {
    /// A worker is still alive: stop it first.
    AlreadyActive,
    /// The listen port could not be bound.
    PortUnavailable { port: u16 },
}

/// What a worker tells its controller.
#[derive(Clone, Copy, Debug, PartialEq, Eq, Structural)]
pub enum WorkerReport {
    /// The start attempt has come this far.
    Progress(LoadProgress),
    /// The engine accepts events.
    Ready,
    /// The engine could not be brought up; the worker has given up.
    Failed,
    /// The worker died, or left a lock poisoned.
    Crashed,
}

/// The mathematical state of a controller.
pub struct ControllerModel {
    pub state: EngineState,
    /// Progress of the current start attempt, or of the last one.
    pub progress: LoadProgress,
    /// Number of the current run, or of the last one.
    pub run: u64,
}

/// The engine lifecycle controller.
pub struct Controller {
    state: EngineState,
    progress: LoadProgress,
    run: u64,
}

impl View for Controller {
    type V = ControllerModel;

    closed spec fn view(&self) -> ControllerModel {
        ControllerModel { state: self.state, progress: self.progress, run: self.run }
    }
}

/// The number of the run after `run`.
pub open spec fn next_run(run: u64) -> u64 {
    if run == u64::MAX {
        0
    } else {
        (run + 1) as u64
    }
}

impl ControllerModel {
    /// What holds of every state that a controller can reach.
    pub open spec fn wf(self) -> bool {
        &&& self.progress.wf()
        &&& self.state is Running ==> self.progress.is_complete()
    }

    /// Whether a worker is alive, or was when last heard of.
    pub open spec fn active(self) -> bool {
        !(self.state is Stopped)
    }
}

/// The state of a controller that was never started.
pub open spec fn fresh() -> ControllerModel {
    ControllerModel { state: EngineState::Stopped, progress: none_done(), run: 0 }
}

/// What `stop` asks of its caller.
pub open spec fn stop_action(c: ControllerModel) -> StopAction {
    if c.active() {
        StopAction::SignalAndJoin
    } else {
        StopAction::Nothing
    }
}

/// The state after `stop`. Stopping a stopped controller changes nothing.
/// Stopping one with a worker leaves nothing to wait for: progress is
/// complete.
pub open spec fn stopped(c: ControllerModel) -> ControllerModel {
    if c.active() {
        ControllerModel { state: EngineState::Stopped, progress: all_done(), run: c.run }
    } else {
        c
    }
}

/// The state after the first half of a restart: progress is back at zero
/// whatever the state was, and the controller is stopped.
pub open spec fn restart_begun(c: ControllerModel) -> ControllerModel {
    ControllerModel { state: EngineState::Stopped, progress: none_done(), run: c.run }
}

/// What `start` answers: the number of the new run, or why there is none.
pub open spec fn start_result(c: ControllerModel, port: u16, bound: bool) -> Result<
    u64,
    StartError,
> {
    if c.active() {
        Err(StartError::AlreadyActive)
    } else if !bound {
        Err(StartError::PortUnavailable { port })
    } else {
        Ok(next_run(c.run))
    }
}

/// The state after `start`. A refused start leaves the controller stopped;
/// one that failed on the port marks progress complete, so that nobody
/// waits for a worker that was never spawned.
pub open spec fn started(c: ControllerModel, bound: bool) -> ControllerModel {
    if c.active() {
        c
    } else if !bound {
        ControllerModel { state: EngineState::Stopped, progress: all_done(), run: c.run }
    } else {
        ControllerModel { state: EngineState::Loading, progress: none_done(), run: next_run(c.run) }
    }
}

/// Whether a report is taken: it comes from the current run, the state
/// allows it, and the progress it carries, if any, is a fraction.
pub open spec fn accepts(c: ControllerModel, run: u64, report: WorkerReport) -> bool {
    run == c.run && match report {
        WorkerReport::Progress(p) => c.state is Loading && p.wf(),
        WorkerReport::Ready => c.state is Loading,
        WorkerReport::Failed => c.state is Loading,
        WorkerReport::Crashed => c.state is Loading || c.state is Running,
    }
}

/// The state after a report. A report that is not taken changes nothing.
pub open spec fn reported(c: ControllerModel, run: u64, report: WorkerReport) -> ControllerModel {
    if !accepts(c, run, report) {
        c
    } else {
        match report {
            WorkerReport::Progress(p) => ControllerModel { progress: p, ..c },
            WorkerReport::Ready => ControllerModel {
                state: EngineState::Running,
                progress: all_done(),
                run: c.run,
            },
            WorkerReport::Failed => ControllerModel {
                state: EngineState::Stopped,
                progress: all_done(),
                run: c.run,
            },
            WorkerReport::Crashed => ControllerModel {
                state: EngineState::Crashed,
                progress: all_done(),
                run: c.run,
            },
        }
    }
}

impl Controller {
    #[verifier::type_invariant]
    spec fn reachable(&self) -> bool {
        self@.wf()
    }

    /// A controller with no worker.
    pub fn new() -> (c: Controller)
        ensures
            c@ == fresh(),
    {
        Controller { state: EngineState::Stopped, progress: LoadProgress::zero(), run: 0 }
    }

    /// The state of the engine.
    pub fn state(&self) -> (state: EngineState)
        ensures
            state == self@.state,
    {
        self.state
    }

    /// Progress of the current start attempt, or of the last one.
    pub fn progress(&self) -> (p: LoadProgress)
        ensures
            p == self@.progress,
            p.wf(),
            self@.wf(),
    {
        proof {
            use_type_invariant(self);
        }
        self.progress
    }

    /// Number of the current run, or of the last one.
    pub fn run(&self) -> (run: u64)
        ensures
            run == self@.run,
    {
        self.run
    }

    /// Whether a worker is alive, or was when last heard of.
    pub fn is_active(&self) -> (active: bool)
        ensures
            active == self@.active(),
    {
        match self.state {
            EngineState::Stopped => false,
            _ => true,
        }
    }

    /// Whether the engine accepts events.
    pub fn is_running(&self) -> (running: bool)
        ensures
            running == (self@.state is Running),
    {
        match self.state {
            EngineState::Running => true,
            _ => false,
        }
    }

    /// Stops the engine. The caller does what the answer says before it
    /// does anything else with the listen port: only when the worker has
    /// ended is the port free again.
    pub fn stop(&mut self) -> (action: StopAction)
        ensures
            action == stop_action(old(self)@),
            final(self)@ == stopped(old(self)@),
            final(self)@.wf(),
    {
        proof {
            use_type_invariant(&*self);
        }
        if self.is_active() {
            *self = Controller {
                state: EngineState::Stopped,
                progress: LoadProgress::complete(),
                run: self.run,
            };
            StopAction::SignalAndJoin
        } else {
            StopAction::Nothing
        }
    }

    /// Begins a restart: resets progress to zero, then stops the engine as
    /// `stop` does. The caller does what the answer says, tries to bind the
    /// listen port, and calls `start`.
    pub fn begin_restart(&mut self) -> (action: StopAction)
        ensures
            action == stop_action(old(self)@),
            final(self)@ == restart_begun(old(self)@),
            final(self)@.wf(),
    {
        let action = if self.is_active() {
            StopAction::SignalAndJoin
        } else {
            StopAction::Nothing
        };
        *self = Controller {
            state: EngineState::Stopped,
            progress: LoadProgress::zero(),
            run: self.run,
        };
        action
    }

    /// Starts the engine. `bound` tells whether the caller could bind
    /// `port`. On `Ok` the caller spawns exactly one worker and gives it
    /// the run number that comes back; on `Err` it spawns none.
    pub fn start(&mut self, port: u16, bound: bool) -> (result: Result<u64, StartError>)
        ensures
            result == start_result(old(self)@, port, bound),
            final(self)@ == started(old(self)@, bound),
            final(self)@.wf(),
    {
        proof {
            use_type_invariant(&*self);
        }
        if self.is_active() {
            Err(StartError::AlreadyActive)
        } else if !bound {
            *self = Controller {
                state: EngineState::Stopped,
                progress: LoadProgress::complete(),
                run: self.run,
            };
            Err(StartError::PortUnavailable { port })
        } else {
            let run = self.run.wrapping_add(1);
            *self = Controller { state: EngineState::Loading, progress: LoadProgress::zero(), run };
            Ok(run)
        }
    }

    /// Takes a report of the worker of run `run`. Tells whether the report
    /// was taken.
    pub fn on_report(&mut self, run: u64, report: WorkerReport) -> (taken: bool)
        ensures
            taken == accepts(old(self)@, run, report),
            final(self)@ == reported(old(self)@, run, report),
            final(self)@.wf(),
    {
        proof {
            use_type_invariant(&*self);
        }
        if run != self.run {
            return false;
        }
        match (self.state, report) {
            (EngineState::Loading, WorkerReport::Progress(p)) => {
                if p.denominator > 0 && p.numerator <= p.denominator {
                    *self = Controller { state: EngineState::Loading, progress: p, run: self.run };
                    true
                } else {
                    false
                }
            },
            (EngineState::Loading, WorkerReport::Ready) => {
                *self = Controller {
                    state: EngineState::Running,
                    progress: LoadProgress::complete(),
                    run: self.run,
                };
                true
            },
            (EngineState::Loading, WorkerReport::Failed) => {
                *self = Controller {
                    state: EngineState::Stopped,
                    progress: LoadProgress::complete(),
                    run: self.run,
                };
                true
            },
            (EngineState::Loading, WorkerReport::Crashed)
            | (EngineState::Running, WorkerReport::Crashed) => {
                *self = Controller {
                    state: EngineState::Crashed,
                    progress: LoadProgress::complete(),
                    run: self.run,
                };
                true
            },
            _ => false,
        }
    }
}

/// Stopping is idempotent: on a stopped controller `stop` asks for nothing
/// and changes nothing, and a second `stop` after a first never does.
pub proof fn lemma_stop_idempotent(c: ControllerModel)
    ensures
        !c.active() ==> stopped(c) == c && stop_action(c) == StopAction::Nothing,
        stopped(stopped(c)) == stopped(c),
        stop_action(stopped(c)) == StopAction::Nothing,
        stopped(c).state is Stopped,
{
}

/// A restart is a stop followed by a start: after the start that follows,
/// the controller is in the same state and the caller has the same answer,
/// whichever of the two came before it.
pub proof fn lemma_restart_is_stop_then_start(c: ControllerModel, port: u16, bound: bool)
    ensures
        started(restart_begun(c), bound) == started(stopped(c), bound),
        start_result(restart_begun(c), port, bound) == start_result(stopped(c), port, bound),
        bound ==> started(restart_begun(c), bound).state is Loading,
        !bound ==> started(restart_begun(c), bound).state is Stopped,
{
}

/// A restart resets progress before anything else can be seen. From the
/// moment it begins, progress is zero; no report changes that until the
/// new run has started, and after the start no report of an earlier run
/// changes it either.
pub proof fn lemma_restart_resets_progress(
    c: ControllerModel,
    bound: bool,
    run: u64,
    report: WorkerReport,
)
    ensures
        restart_begun(c).progress.is_zero(),
        reported(restart_begun(c), run, report) == restart_begun(c),
        started(restart_begun(c), true).progress.is_zero(),
        run != next_run(c.run) ==> reported(started(restart_begun(c), true), run, report)
            == started(restart_begun(c), true),
        run == c.run ==> reported(started(restart_begun(c), true), run, report) == started(
            restart_begun(c),
            true,
        ),
{
}

/// Every operation leads from a reachable state to a reachable state.
pub proof fn lemma_operations_wf(c: ControllerModel, bound: bool, run: u64, report: WorkerReport)
    requires
        c.wf(),
    ensures
        fresh().wf(),
        stopped(c).wf(),
        restart_begun(c).wf(),
        started(c, bound).wf(),
        reported(c, run, report).wf(),
{
}

/// Only a start attempt that has not ended takes progress reports, and a
/// running engine has always completed its start attempt.
pub proof fn lemma_progress_only_while_loading(c: ControllerModel, run: u64, p: LoadProgress)
    requires
        c.wf(),
    ensures
        !(c.state is Loading) ==> reported(c, run, WorkerReport::Progress(p)) == c,
        c.state is Running ==> c.progress.is_complete(),
        reported(c, run, WorkerReport::Ready).state is Running ==> reported(
            c,
            run,
            WorkerReport::Ready,
        ).progress.is_complete(),
{
}

/// What the controller shows never goes back while a start attempt
/// lasts. A worker reports the progress of its startup sequence after
/// every step; where the controller shows the progress of one state of the
/// sequence, the report of the next state is taken, and what the controller
/// shows afterwards is that report and no less than what it showed before.
pub proof fn lemma_shown_progress_never_decreases(
    c: ControllerModel,
    attempt: StartupModel,
    succeeded: bool,
)
    requires
        c.wf(),
        c.state is Loading,
        attempt.wf(),
        c.progress == progress_of(attempt),
    ensures
        accepts(c, c.run, WorkerReport::Progress(progress_of(step(attempt, succeeded)))),
        reported(
            c,
            c.run,
            WorkerReport::Progress(progress_of(step(attempt, succeeded))),
        ).progress == progress_of(step(attempt, succeeded)),
        c.progress.at_most(
            reported(
                c,
                c.run,
                WorkerReport::Progress(progress_of(step(attempt, succeeded))),
            ).progress,
        ),
{
    lemma_step_wf(attempt, succeeded);
    lemma_step_progress(attempt, succeeded);
}

} // verus!
