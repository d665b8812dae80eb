//! The life cycle of the simulation thread.
//!
//! The thread replays the bootstrap sequence, runs the script, and then keeps
//! the simulation running without a script for as long as the process lives:
//! `Bootstrapping`, then `ScriptRunning`, then `FreeRunning`, never back. The
//! thread itself belongs to the host. It asks `next_action` what to do, does
//! it, and asks again; when the script has ended it reports how with
//! `finish_script`, and the outcome stays readable from then on.

use vstd::prelude::*;
use crate::bootstrap::{bootstrap_input, bootstrap_value, BOOTSTRAP_TICKS};
use crate::button::Button;
use crate::error::ScriptError;
use crate::register::InputRegister;

verus! {

/// The number of paced ticks per second that the host's clock aims at.
pub const TICK_RATE: u32 = 60;

/// Where the simulation thread stands.
#[derive(Clone, Copy, Debug, PartialEq, Eq, Structural)]
pub enum Phase {
    /// The bootstrap sequence is being replayed.
    Bootstrapping,
    /// The script is in control.
    ScriptRunning,
    /// The script has ended; the simulation runs on with no input changes.
    FreeRunning,
}

/// What the host does next.
#[derive(Clone, Copy, Debug, PartialEq, Eq)]
pub enum Action {
    /// Show the simulation the given register value and advance it one tick,
    /// at full speed and without publishing a frame.
    Advance(InputRegister),
    /// Publish the current frame.
    Publish,
    /// Run the script to its end, then report with `finish_script`.
    RunScript,
    /// Run one paced tick: advance the simulation, publish the frame, and
    /// sleep for the rest of the tick.
    Tick,
}

/// The mathematical state of the thread.
pub ghost struct Progress {
    /// The phase.
    pub phase: Phase,
    /// How many values of the bootstrap sequence were handed out.
    pub replayed: nat,
    /// How the script ended, once it has.
    pub outcome: Option<Result<(), ScriptError>>,
}

/// The mathematical content of an `Action`.
pub ghost enum Deed {
    Advance(Set<Button>),
    Publish,
    RunScript,
    Tick,
}

/// The content of an action.
pub open spec fn deed_of(action: Action) -> Deed {
    match action {
        Action::Advance(input) => Deed::Advance(input@),
        Action::Publish => Deed::Publish,
        Action::RunScript => Deed::RunScript,
        Action::Tick => Deed::Tick,
    }
}

/// The position of a phase in the life cycle.
pub open spec fn rank(phase: Phase) -> nat {
    match phase {
        Phase::Bootstrapping => 0,
        Phase::ScriptRunning => 1,
        Phase::FreeRunning => 2,
    }
}

/// The state of a thread that has not done anything yet.
pub open spec fn fresh_start() -> Progress {
    Progress { phase: Phase::Bootstrapping, replayed: 0, outcome: None }
}

/// The states that a thread can be in.
pub open spec fn well_formed(progress: Progress) -> bool {
    &&& progress.replayed <= BOOTSTRAP_TICKS
    &&& progress.phase != Phase::Bootstrapping ==> progress.replayed == BOOTSTRAP_TICKS
    &&& progress.outcome.is_some() <==> progress.phase == Phase::FreeRunning
}

/// What `next_action` hands out in a given state.
pub open spec fn deed_in(progress: Progress) -> Deed {
    match progress.phase {
        Phase::Bootstrapping => if progress.replayed < BOOTSTRAP_TICKS {
            Deed::Advance(bootstrap_value(progress.replayed as int))
        } else {
            Deed::Publish
        },
        Phase::ScriptRunning => Deed::RunScript,
        Phase::FreeRunning => Deed::Tick,
    }
}

/// The state after `next_action`.
pub open spec fn after_action(progress: Progress) -> Progress {
    match progress.phase {
        Phase::Bootstrapping => if progress.replayed < BOOTSTRAP_TICKS {
            Progress { replayed: progress.replayed + 1, ..progress }
        } else {
            Progress { phase: Phase::ScriptRunning, ..progress }
        },
        Phase::ScriptRunning => progress,
        Phase::FreeRunning => progress,
    }
}

/// The state after `finish_script(outcome)`.
pub open spec fn after_script(progress: Progress, outcome: Result<(), ScriptError>) -> Progress {
    if progress.phase == Phase::ScriptRunning {
        Progress { phase: Phase::FreeRunning, outcome: Some(outcome), ..progress }
    } else {
        progress
    }
}

/// The state after `count` calls of `next_action`.
pub open spec fn after_actions(progress: Progress, count: nat) -> Progress
    decreases count,
{
    if count == 0 {
        progress
    } else {
        after_action(after_actions(progress, (count - 1) as nat))
    }
}

/// The life cycle of the simulation thread.
pub struct ScriptThread {
    phase: Phase,
    replayed: usize,
    outcome: Option<Result<(), ScriptError>>,
}

impl View for ScriptThread {
    type V = Progress;

    closed spec fn view(&self) -> Progress {
        Progress { phase: self.phase, replayed: self.replayed as nat, outcome: self.outcome }
    }
}

impl ScriptThread {
    #[verifier::type_invariant]
    spec fn sound(self) -> bool {
        well_formed(self@)
    }

    /// A thread at the start of the bootstrap sequence.
    pub fn new() -> (thread: ScriptThread)
        ensures
            thread@ == fresh_start(),
    {
        ScriptThread { phase: Phase::Bootstrapping, replayed: 0, outcome: None }
    }

    /// The phase the thread is in.
    pub fn phase(&self) -> (phase: Phase)
        ensures
            phase == self@.phase,
            well_formed(self@),
    {
        proof {
            use_type_invariant(self);
        }
        self.phase
    }

    /// How the script ended: nothing while it has not, `Ok` when it ran to its
    /// end, and the failure otherwise.
    pub fn outcome(&self) -> (outcome: Option<&Result<(), ScriptError>>)
        ensures
            self@.outcome matches Some(ended) ==> outcome == Some(&ended),
            self@.outcome.is_none() ==> outcome.is_none(),
            outcome.is_some() <==> self@.phase == Phase::FreeRunning,
    {
        proof {
            use_type_invariant(self);
        }
        self.outcome.as_ref()
    }

    /// Says what the host does next, and moves on.
    ///
    /// While bootstrapping, the values of the bootstrap sequence are handed
    /// out one by one, then one `Publish`, which ends the phase. While the
    /// script is in control the answer is `RunScript`, until `finish_script`
    /// is called. From then on the answer is `Tick`, every time.
    pub fn next_action(&mut self) -> (action: Action)
        ensures
            deed_of(action) == deed_in(old(self)@),
            final(self)@ == after_action(old(self)@),
    {
        proof {
            use_type_invariant(&*self);
        }
        match self.phase {
            Phase::Bootstrapping => {
                match bootstrap_input(self.replayed) {
                    Some(input) => {
                        self.replayed = self.replayed + 1;
                        Action::Advance(input)
                    },
                    None => {
                        self.phase = Phase::ScriptRunning;
                        Action::Publish
                    },
                }
            },
            Phase::ScriptRunning => Action::RunScript,
            Phase::FreeRunning => Action::Tick,
        }
    }

    /// Records how the script ended and lets the simulation run on freely.
    ///
    /// A failed script is not hidden: its failure stays readable through
    /// `outcome`. Outside the script phase the call changes nothing. Returns
    /// whether the outcome was recorded.
    pub fn finish_script(&mut self, outcome: Result<(), ScriptError>) -> (recorded: bool)
        ensures
            recorded == (old(self)@.phase == Phase::ScriptRunning),
            final(self)@ == after_script(old(self)@, outcome),
    {
        proof {
            use_type_invariant(&*self);
        }
        match self.phase {
            Phase::ScriptRunning => {
                *self = ScriptThread {
                    phase: Phase::FreeRunning,
                    replayed: self.replayed,
                    outcome: Some(outcome),
                };
                true
            },
            _ => false,
        }
    }
}

/// No transition returns to an earlier phase, and every transition keeps the
/// state well formed.
pub proof fn lemma_phases_only_advance(progress: Progress, outcome: Result<(), ScriptError>)
    requires
        well_formed(progress),
    ensures
        rank(after_action(progress).phase) >= rank(progress.phase),
        rank(after_script(progress, outcome).phase) >= rank(progress.phase),
        well_formed(after_action(progress)),
        well_formed(after_script(progress, outcome)),
{
}

/// The bootstrap sequence is replayed whole and in order: the first
/// `BOOTSTRAP_TICKS` actions of a thread are the values of the sequence, the
/// next one publishes the first frame, and then the script gets control.
pub proof fn lemma_bootstrap_is_replayed(count: nat)
    requires
        count <= BOOTSTRAP_TICKS,
    ensures
        after_actions(fresh_start(), count) == (Progress { replayed: count, ..fresh_start() }),
        count < BOOTSTRAP_TICKS ==> deed_in(after_actions(fresh_start(), count)) == Deed::Advance(
            bootstrap_value(count as int),
        ),
        count == BOOTSTRAP_TICKS ==> deed_in(after_actions(fresh_start(), count)) == Deed::Publish
            && after_action(after_actions(fresh_start(), count)).phase == Phase::ScriptRunning,
    decreases count,
{
    if count > 0 {
        lemma_bootstrap_is_replayed((count - 1) as nat);
    }
}

/// Free running never ends: once the script has ended, every action is a
/// paced tick and the state stays as it is, however many actions are asked
/// for and whether or not the script ever called a primitive.
pub proof fn lemma_free_running_goes_on(progress: Progress, count: nat)
    requires
        progress.phase == Phase::FreeRunning,
    ensures
        after_actions(progress, count) == progress,
        deed_in(after_actions(progress, count)) == Deed::Tick,
    decreases count,
{
    if count > 0 {
        lemma_free_running_goes_on(progress, (count - 1) as nat);
    }
}

} // verus!
