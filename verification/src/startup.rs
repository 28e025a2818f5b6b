//! The worker's startup sequence: set the engine up, load the instrument
//! banks one after another, assign what was loaded to the channels, then
//! listen.
//!
//! The sequence is a state machine. The worker asks it for the next action,
//! performs the action, and reports how it went; the machine keeps the
//! books: which banks loaded, and how far the start attempt has come. A
//! bank that fails to load is skipped and the sequence goes on, so the
//! engine comes up with whatever did load, in the order in which the banks
//! were listed.

use vstd::prelude::*;
use crate::progress::LoadProgress;
use crate::progress::all_done;
use crate::progress::bank_share;
use crate::progress::banks_done;
use crate::progress::none_done;
use crate::progress::lemma_at_most_transitive;

verus! {

/// Where a start attempt stands.
#[derive(Clone, Copy, Debug, PartialEq, Eq, Structural)]
pub enum StartupPhase {
    /// The engine has yet to be set up.
    Setup,
    /// Banks are being loaded.
    Loading,
    /// Every bank has been attempted; the channels have yet to be told.
    Assigning,
    /// The engine accepts events.
    Ready,
    /// The engine could not be set up. The attempt is over.
    Failed,
}

/// What the worker has to do next.
#[derive(Clone, Copy, Debug, PartialEq, Eq, Structural)]
pub enum StartupAction {
    /// Open the engine with the render window, thread count and channel
    /// count of the configuration.
    ApplyBaseSetup,
    /// Load the bank with this index in the configured list.
    LoadBank(usize),
    /// Hand the banks that loaded, in order, to every channel.
    AssignInstruments,
    /// Nothing loaded: warn that the engine will be silent.
    WarnNoInstruments,
    /// Start receiving packets.
    EnterReceiveLoop,
    /// Give up and report the failure.
    Abandon,
}

/// The mathematical state of a start attempt.
pub struct StartupModel {
    /// Number of banks in the configured list.
    pub total: nat,
    /// Number of banks attempted so far: the banks `0..attempted`.
    pub attempted: nat,
    /// Indices of the banks that loaded, in the order of the list.
    pub loaded: Seq<usize>,
    pub phase: StartupPhase,
}

/// The state of a start attempt. It can only be made by [`Startup::begin`]
/// and changed by [`Startup::complete_step`], so it is always a state that
/// a start attempt can reach.
pub struct Startup {
    total_banks: usize,
    attempted: usize,
    loaded: Vec<usize>,
    phase: StartupPhase,
}

impl View for Startup {
    type V = StartupModel;

    closed spec fn view(&self) -> StartupModel {
        StartupModel {
            total: self.total_banks as nat,
            attempted: self.attempted as nat,
            loaded: self.loaded@,
            phase: self.phase,
        }
    }
}

/// The state in which every start attempt begins.
pub open spec fn initial(total: nat) -> StartupModel {
    StartupModel { total, attempted: 0, loaded: Seq::empty(), phase: StartupPhase::Setup }
}

/// The state after the pending action has finished. `succeeded` tells
/// whether setting the engine up, or loading a bank, went well; for the
/// other actions it is not looked at.
pub open spec fn step(m: StartupModel, succeeded: bool) -> StartupModel {
    match m.phase {
        StartupPhase::Setup => if !succeeded {
            StartupModel { phase: StartupPhase::Failed, ..m }
        } else if m.total == 0 {
            StartupModel { phase: StartupPhase::Assigning, ..m }
        } else {
            StartupModel { phase: StartupPhase::Loading, ..m }
        },
        StartupPhase::Loading => StartupModel {
            total: m.total,
            attempted: m.attempted + 1,
            loaded: if succeeded {
                m.loaded.push(m.attempted as usize)
            } else {
                m.loaded
            },
            phase: if m.attempted + 1 == m.total {
                StartupPhase::Assigning
            } else {
                StartupPhase::Loading
            },
        },
        StartupPhase::Assigning => StartupModel { phase: StartupPhase::Ready, ..m },
        StartupPhase::Ready => m,
        StartupPhase::Failed => m,
    }
}

/// The action that is pending in a state.
pub open spec fn pending(m: StartupModel) -> StartupAction {
    match m.phase {
        StartupPhase::Setup => StartupAction::ApplyBaseSetup,
        StartupPhase::Loading => StartupAction::LoadBank(m.attempted as usize),
        StartupPhase::Assigning => if m.loaded.len() > 0 {
            StartupAction::AssignInstruments
        } else {
            StartupAction::WarnNoInstruments
        },
        StartupPhase::Ready => StartupAction::EnterReceiveLoop,
        StartupPhase::Failed => StartupAction::Abandon,
    }
}

/// The progress that a state stands for. A failed attempt counts as
/// complete, so that nobody waits for it.
pub open spec fn progress_of(m: StartupModel) -> LoadProgress {
    match m.phase {
        StartupPhase::Setup => none_done(),
        StartupPhase::Loading => bank_share(m.attempted, m.total),
        StartupPhase::Assigning => banks_done(),
        StartupPhase::Ready => all_done(),
        StartupPhase::Failed => all_done(),
    }
}

/// The state after a run of actions with the given outcomes.
pub open spec fn run(m: StartupModel, outcomes: Seq<bool>) -> StartupModel
    decreases outcomes.len(),
{
    if outcomes.len() == 0 {
        m
    } else {
        step(run(m, outcomes.drop_last()), outcomes.last())
    }
}

/// The banks that loaded, given the outcome of each attempt: the indices
/// of the successful attempts, in ascending order.
pub open spec fn loaded_banks(outcomes: Seq<bool>) -> Seq<usize>
    decreases outcomes.len(),
{
    if outcomes.len() == 0 {
        Seq::empty()
    } else if outcomes.last() {
        loaded_banks(outcomes.drop_last()).push((outcomes.len() - 1) as usize)
    } else {
        loaded_banks(outcomes.drop_last())
    }
}

impl StartupModel {
    /// What holds of every state that a start attempt can reach.
    pub open spec fn wf(self) -> bool {
        &&& self.total <= usize::MAX
        &&& self.attempted <= self.total
        &&& self.loaded.len() <= self.attempted
        &&& forall|i: int| 0 <= i < self.loaded.len() ==> #[trigger] self.loaded[i] < self.attempted
        &&& forall|i: int, j: int|
            0 <= i < j < self.loaded.len() ==> #[trigger] self.loaded[i] < #[trigger] self.loaded[j]
        &&& self.phase is Setup ==> self.attempted == 0
        &&& self.phase is Failed ==> self.attempted == 0
        &&& self.phase is Loading ==> self.attempted < self.total
        &&& self.phase is Assigning ==> self.attempted == self.total
        &&& self.phase is Ready ==> self.attempted == self.total
    }
}

impl Startup {
    #[verifier::type_invariant]
    spec fn reachable(&self) -> bool {
        self@.wf()
    }

    /// Begins a start attempt with `total_banks` banks to load.
    pub fn begin(total_banks: usize) -> (s: Startup)
        ensures
            s@ == initial(total_banks as nat),
    {
        Startup { total_banks, attempted: 0, loaded: Vec::new(), phase: StartupPhase::Setup }
    }

    /// The action to perform next.
    pub fn next_action(&self) -> (action: StartupAction)
        ensures
            action == pending(self@),
            self@.wf(),
    {
        proof {
            use_type_invariant(self);
        }
        match self.phase {
            StartupPhase::Setup => StartupAction::ApplyBaseSetup,
            StartupPhase::Loading => StartupAction::LoadBank(self.attempted),
            StartupPhase::Assigning => if self.loaded.len() > 0 {
                StartupAction::AssignInstruments
            } else {
                StartupAction::WarnNoInstruments
            },
            StartupPhase::Ready => StartupAction::EnterReceiveLoop,
            StartupPhase::Failed => StartupAction::Abandon,
        }
    }

    /// Records that the pending action has finished, and moves on.
    /// `succeeded` tells whether setting the engine up, or loading a bank,
    /// went well; for the other actions it is not looked at.
    pub fn complete_step(self, succeeded: bool) -> (next: Startup)
        ensures
            next@ == step(self@, succeeded),
            next@.wf(),
    {
        proof {
            use_type_invariant(&self);
            lemma_step_wf(self@, succeeded);
        }
        match self.phase {
            StartupPhase::Setup => {
                let phase = if !succeeded {
                    StartupPhase::Failed
                } else if self.total_banks == 0 {
                    StartupPhase::Assigning
                } else {
                    StartupPhase::Loading
                };
                Startup {
                    total_banks: self.total_banks,
                    attempted: self.attempted,
                    loaded: self.loaded,
                    phase,
                }
            },
            StartupPhase::Loading => {
                let bank = self.attempted;
                let mut loaded = self.loaded;
                if succeeded {
                    loaded.push(bank);
                }
                let phase = if bank + 1 == self.total_banks {
                    StartupPhase::Assigning
                } else {
                    StartupPhase::Loading
                };
                Startup { total_banks: self.total_banks, attempted: bank + 1, loaded, phase }
            },
            StartupPhase::Assigning => Startup {
                total_banks: self.total_banks,
                attempted: self.attempted,
                loaded: self.loaded,
                phase: StartupPhase::Ready,
            },
            StartupPhase::Ready => self,
            StartupPhase::Failed => self,
        }
    }

    /// How far the start attempt has come.
    pub fn progress(&self) -> (p: LoadProgress)
        ensures
            p == progress_of(self@),
            p.wf(),
    {
        proof {
            use_type_invariant(self);
        }
        match self.phase {
            StartupPhase::Setup => LoadProgress::zero(),
            StartupPhase::Loading => LoadProgress::after_banks(self.attempted, self.total_banks),
            StartupPhase::Assigning => LoadProgress::after_loading(),
            StartupPhase::Ready => LoadProgress::complete(),
            StartupPhase::Failed => LoadProgress::complete(),
        }
    }

    /// The banks that loaded so far, by their index in the configured
    /// list, in the order of that list.
    pub fn loaded_banks(&self) -> (banks: &Vec<usize>)
        ensures
            banks@ == self@.loaded,
    {
        &self.loaded
    }

    /// Where the start attempt stands.
    pub fn phase(&self) -> (phase: StartupPhase)
        ensures
            phase == self@.phase,
    {
        self.phase
    }
}

/// Every step leads from a reachable state to a reachable state.
pub proof fn lemma_step_wf(m: StartupModel, succeeded: bool)
    requires
        m.wf(),
    ensures
        step(m, succeeded).wf(),
{
    let n = step(m, succeeded);
    if m.phase is Loading && succeeded {
        assert forall|i: int| 0 <= i < n.loaded.len() implies #[trigger] n.loaded[i]
            < n.attempted by {
            if i < m.loaded.len() {
                assert(n.loaded[i] == m.loaded[i]);
            }
        }
        assert forall|i: int, j: int| 0 <= i < j < n.loaded.len() implies #[trigger] n.loaded[i]
            < #[trigger] n.loaded[j] by {
            assert(n.loaded[i] == m.loaded[i]);
            if j < m.loaded.len() {
                assert(n.loaded[j] == m.loaded[j]);
            }
        }
    }
}

/// The progress of every reachable state is a fraction between zero and
/// one.
pub proof fn lemma_progress_is_fraction(m: StartupModel)
    requires
        m.wf(),
    ensures
        progress_of(m).wf(),
{
}

/// Progress never decreases from one step to the next.
pub proof fn lemma_step_progress(m: StartupModel, succeeded: bool)
    requires
        m.wf(),
    ensures
        progress_of(m).at_most(progress_of(step(m, succeeded))),
{
    let p = progress_of(m);
    let q = progress_of(step(m, succeeded));
    let t = m.total as int;
    let a = m.attempted as int;
    let (pn, pd) = (p.numerator as int, p.denominator as int);
    let (qn, qd) = (q.numerator as int, q.denominator as int);
    match m.phase {
        StartupPhase::Loading => {
            assert(pn == t + 18 * a && pd == 20 * t);
            if a + 1 != t {
                assert(qn == t + 18 * (a + 1) && qd == 20 * t);
                assert(pn * qd <= qn * pd) by (nonlinear_arith)
                    requires
                        0 <= pn <= qn,
                        0 < pd,
                        pd == qd,
                ;
            }
        },
        StartupPhase::Setup => {
            assert(pn * qd == 0) by (nonlinear_arith)
                requires
                    pn == 0,
            ;
            assert(qn * pd >= 0) by (nonlinear_arith)
                requires
                    qn >= 0,
                    pd >= 0,
            ;
        },
        _ => {},
    }
}

/// A run of steps leads from a reachable state to a reachable state, and
/// progress at its end is no less than at its beginning.
pub proof fn lemma_run_progress(m: StartupModel, outcomes: Seq<bool>)
    requires
        m.wf(),
    ensures
        run(m, outcomes).wf(),
        progress_of(run(m, outcomes)).wf(),
        progress_of(m).at_most(progress_of(run(m, outcomes))),
    decreases outcomes.len(),
{
    if outcomes.len() > 0 {
        let before = run(m, outcomes.drop_last());
        let after = step(before, outcomes.last());
        lemma_run_progress(m, outcomes.drop_last());
        lemma_step_wf(before, outcomes.last());
        lemma_step_progress(before, outcomes.last());
        lemma_at_most_transitive(progress_of(m), progress_of(before), progress_of(after));
    }
}

/// The indices in `loaded_banks` are exactly those of the successful
/// attempts, each once, in ascending order.
pub proof fn lemma_loaded_banks(outcomes: Seq<bool>)
    requires
        outcomes.len() <= usize::MAX,
    ensures
        loaded_banks(outcomes).len() <= outcomes.len(),
        forall|i: int|
            0 <= i < loaded_banks(outcomes).len() ==> 0 <= #[trigger] loaded_banks(outcomes)[i]
                < outcomes.len() && outcomes[loaded_banks(outcomes)[i] as int],
        forall|i: int, j: int|
            0 <= i < j < loaded_banks(outcomes).len() ==> #[trigger] loaded_banks(outcomes)[i]
                < #[trigger] loaded_banks(outcomes)[j],
        forall|k: int|
            0 <= k < outcomes.len() && #[trigger] outcomes[k] ==> loaded_banks(outcomes).contains(
                k as usize,
            ),
    decreases outcomes.len(),
{
    if outcomes.len() > 0 {
        let front = outcomes.drop_last();
        let prev = loaded_banks(front);
        let all = loaded_banks(outcomes);
        lemma_loaded_banks(front);
        assert forall|k: int| 0 <= k < outcomes.len() && #[trigger] outcomes[k] implies all.contains(
            k as usize,
        ) by {
            if k < front.len() {
                assert(front[k] == outcomes[k]);
                let w = choose|w: int| 0 <= w < prev.len() && prev[w] == k as usize;
                assert(all[w] == k as usize);
            } else {
                assert(all[all.len() - 1] == k as usize);
            }
        }
        assert forall|i: int| 0 <= i < all.len() implies 0 <= #[trigger] all[i] < outcomes.len()
            && outcomes[all[i] as int] by {
            if i < prev.len() {
                assert(all[i] == prev[i]);
                assert(front[prev[i] as int] == outcomes[prev[i] as int]);
            }
        }
        assert forall|i: int, j: int| 0 <= i < j < all.len() implies #[trigger] all[i]
            < #[trigger] all[j] by {
            assert(all[i] == prev[i]);
            if j < prev.len() {
                assert(all[j] == prev[j]);
            }
        }
    }
}

/// While banks are being loaded, the machine collects exactly the banks
/// that loaded: after the attempts with the given outcomes, whatever they
/// were, the loaded banks are the successful ones in list order.
pub proof fn lemma_run_loading(total: nat, outcomes: Seq<bool>)
    requires
        0 < total <= usize::MAX,
        outcomes.len() <= total,
    ensures
        ({
            let m = run(step(initial(total), true), outcomes);
            &&& m.total == total
            &&& m.attempted == outcomes.len()
            &&& m.loaded == loaded_banks(outcomes)
            &&& m.phase == if outcomes.len() == total {
                StartupPhase::Assigning
            } else {
                StartupPhase::Loading
            }
        }),
    decreases outcomes.len(),
{
    if outcomes.len() > 0 {
        lemma_run_loading(total, outcomes.drop_last());
    }
}

/// A start attempt whose setup succeeds always ends with the engine
/// ready, whatever became of the banks: after the setup, one attempt for
/// each bank and the assignment, the phase is `Ready`, progress is one, and
/// the banks handed to the channels were the successful ones in list order.
pub proof fn lemma_start_completes(outcomes: Seq<bool>)
    requires
        outcomes.len() <= usize::MAX,
    ensures
        ({
            let before = run(step(initial(outcomes.len()), true), outcomes);
            let after = step(before, true);
            &&& before.phase is Assigning
            &&& before.loaded == loaded_banks(outcomes)
            &&& pending(before) == if loaded_banks(outcomes).len() > 0 {
                StartupAction::AssignInstruments
            } else {
                StartupAction::WarnNoInstruments
            }
            &&& after.phase is Ready
            &&& after.loaded == loaded_banks(outcomes)
            &&& progress_of(after).is_complete()
            &&& pending(after) == StartupAction::EnterReceiveLoop
        }),
{
    if outcomes.len() > 0 {
        lemma_run_loading(outcomes.len(), outcomes);
    } else {
        assert(run(step(initial(0), true), outcomes) == step(initial(0), true));
    }
}

} // verus!
