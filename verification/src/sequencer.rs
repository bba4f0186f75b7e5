//! The bring-up state machine.
//!
//! Bringing a controller up means performing the operations of a bring-up
//! program in order. The sequencer hands out one operation at a time and is
//! told how each one went; a failed exchange ends the bring-up, and so does a
//! power-on wait so short that no panel can be attached. Once the last
//! operation has gone through, the controller is ready.
//!
//! The states of a bring-up are the positions in its program, followed by the
//! ready state: a program walks through its reset, its waits, its
//! configuration writes and, where it has one, its waveform table, one
//! operation at a time and never backwards. The ready state and the failed
//! states are final; a controller is brought up again by beginning a new
//! bring-up.

use vstd::prelude::*;
use crate::transport::{Operation, OperationView, Program};

verus! {

/// Shortest time, in milliseconds, that real silicon keeps the busy line
/// asserted after a power-on command.
pub const POWER_ON_FLOOR_MS: u64 = 50;

/// Why a bring-up ended without reaching the ready state.
#[derive(Clone, Copy, Debug, PartialEq, Eq, Structural)]
pub enum StartError {
    /// The power-on wait was implausibly short: the busy line is not wired to
    /// a panel.
    NotConnected,
    /// A byte exchange or a line toggle failed.
    Transport,
}

impl StartError {
    /// What went wrong, in words.
    pub fn message(&self) -> (text: &'static str)
        ensures
            text@ == match *self {
                StartError::NotConnected => "Power On command returned in less than 50ms, card is probably not present"@,
                StartError::Transport => "error with spi write"@,
            },
    {
        match self {
            StartError::NotConnected => "Power On command returned in less than 50ms, card is probably not present",
            StartError::Transport => "error with spi write",
        }
    }
}

/// How the operation that was handed out went.
#[derive(Clone, Copy, Debug, PartialEq, Eq, Structural)]
pub enum Outcome {
    /// It was carried out. `busy_ms` is the time spent waiting on the busy
    /// line; operations that do not wait report zero.
    Completed { busy_ms: u64 },
    /// The hardware layer reported a failure.
    TransportFailed,
}

/// Where a bring-up stands.
#[derive(Clone, Copy, Debug, PartialEq, Eq, Structural)]
pub enum SequencerState {
    /// The operation at index `next` is to be performed.
    Running { next: usize },
    /// Every operation has gone through.
    Ready,
    /// The bring-up was abandoned.
    Failed(StartError),
}

/// Whether `outcome` passes the presence check of `op`: only the wait after a
/// power-on command checks anything, and it wants the busy line to have been
/// asserted for at least the floor.
pub open spec fn passes_presence_check(op: OperationView, outcome: Outcome) -> bool {
    match outcome {
        Outcome::Completed { busy_ms } => !(op is AwaitPowerOn) || busy_ms >= POWER_ON_FLOOR_MS,
        Outcome::TransportFailed => false,
    }
}

/// The state that follows `state` when the operation it points at ends with
/// `outcome`. The ready state and the failed states are final.
pub open spec fn next_state(
    program: Seq<OperationView>,
    state: SequencerState,
    outcome: Outcome,
) -> SequencerState {
    match state {
        SequencerState::Running { next } => match outcome {
            Outcome::TransportFailed => SequencerState::Failed(StartError::Transport),
            Outcome::Completed { busy_ms } => if program[next as int] is AwaitPowerOn && busy_ms
                < POWER_ON_FLOOR_MS {
                SequencerState::Failed(StartError::NotConnected)
            } else if next + 1 < program.len() {
                SequencerState::Running { next: (next + 1) as usize }
            } else {
                SequencerState::Ready
            },
        },
        SequencerState::Ready => SequencerState::Ready,
        SequencerState::Failed(error) => SequencerState::Failed(error),
    }
}

/// The state in which a bring-up of `program` begins.
pub open spec fn initial_state(program: Seq<OperationView>) -> SequencerState {
    if program.len() == 0 {
        SequencerState::Ready
    } else {
        SequencerState::Running { next: 0 }
    }
}

/// The state of a bring-up of `program` after its first operations ended with
/// `outcomes`, in order.
pub open spec fn state_after(program: Seq<OperationView>, outcomes: Seq<Outcome>) -> SequencerState
    decreases outcomes.len(),
{
    if outcomes.len() == 0 {
        initial_state(program)
    } else {
        next_state(program, state_after(program, outcomes.drop_last()), outcomes.last())
    }
}

/// A bring-up in progress.
#[derive(Debug)]
pub struct InitSequencer {
    program: Program,
    state: SequencerState,
}

impl InitSequencer {
    /// The operations of the bring-up.
    pub closed spec fn program(&self) -> Seq<OperationView> {
        self.program@
    }

    /// Where the bring-up stands.
    pub closed spec fn state(&self) -> SequencerState {
        self.state
    }

    /// A running sequencer points at an operation of its program.
    #[verifier::type_invariant]
    spec fn well_formed(&self) -> bool {
        self.state matches SequencerState::Running { next } ==> next < self.program@.len()
    }

    /// Begins a bring-up that performs `program`.
    pub fn new(program: Program) -> (sequencer: InitSequencer)
        ensures
            sequencer.program() == program@,
            sequencer.state() == initial_state(program@),
    {
        let state = if program.len() == 0 {
            SequencerState::Ready
        } else {
            SequencerState::Running { next: 0 }
        };
        InitSequencer { program, state }
    }

    /// Where the bring-up stands.
    pub fn current_state(&self) -> (state: SequencerState)
        ensures
            state == self.state(),
    {
        self.state
    }

    /// The operation to perform now, or `None` once the bring-up has ended.
    pub fn current(&self) -> (op: Option<&Operation>)
        ensures
            match self.state() {
                SequencerState::Running { next } => op.is_some() && op.unwrap()@
                    == self.program()[next as int],
                _ => op.is_none(),
            },
    {
        proof {
            use_type_invariant(self);
        }
        match self.state {
            SequencerState::Running { next } => self.program.get(next),
            _ => None,
        }
    }

    /// Takes note of how the current operation went and moves on.
    pub fn advance(&mut self, outcome: Outcome)
        ensures
            final(self).program() == old(self).program(),
            final(self).state() == next_state(old(self).program(), old(self).state(), outcome),
    {
        proof {
            use_type_invariant(&*self);
        }
        let len = self.program.len();
        match self.state {
            SequencerState::Running { next } => {
                match outcome {
                    Outcome::TransportFailed => {
                        self.state = SequencerState::Failed(StartError::Transport);
                    },
                    Outcome::Completed { busy_ms } => {
                        let checked = match self.program.get(next) {
                            Some(Operation::AwaitPowerOn) => true,
                            _ => false,
                        };
                        if checked && busy_ms < POWER_ON_FLOOR_MS {
                            self.state = SequencerState::Failed(StartError::NotConnected);
                        } else if next + 1 < len {
                            self.state = SequencerState::Running { next: next + 1 };
                        } else {
                            self.state = SequencerState::Ready;
                        }
                    },
                }
            },
            _ => {},
        }
    }

    /// How the bring-up ended: `None` while it is running.
    pub fn result(&self) -> (result: Option<Result<(), StartError>>)
        ensures
            result == match self.state() {
                SequencerState::Running { .. } => None::<Result<(), StartError>>,
                SequencerState::Ready => Some(Ok::<(), StartError>(())),
                SequencerState::Failed(error) => Some(Err::<(), StartError>(error)),
            },
    {
        match self.state {
            SequencerState::Running { .. } => None,
            SequencerState::Ready => Some(Ok(())),
            SequencerState::Failed(error) => Some(Err(error)),
        }
    }
}

/// The presence check at the wait that follows a power-on command: a wait
/// below the floor abandons the bring-up as not connected, and a wait at or
/// above it lets the bring-up go on with the operation that follows.
pub proof fn lemma_presence_boundary(program: Seq<OperationView>, next: usize, busy_ms: u64)
    requires
        next < program.len(),
        program[next as int] is AwaitPowerOn,
    ensures
        busy_ms < POWER_ON_FLOOR_MS ==> next_state(
            program,
            SequencerState::Running { next },
            Outcome::Completed { busy_ms },
        ) == SequencerState::Failed(StartError::NotConnected),
        busy_ms >= POWER_ON_FLOOR_MS && next + 1 < program.len() ==> next_state(
            program,
            SequencerState::Running { next },
            Outcome::Completed { busy_ms },
        ) == (SequencerState::Running { next: (next + 1) as usize }),
        busy_ms >= POWER_ON_FLOOR_MS && next + 1 == program.len() ==> next_state(
            program,
            SequencerState::Running { next },
            Outcome::Completed { busy_ms },
        ) == SequencerState::Ready,
{
}

/// A bring-up whose operations all go through stands, after `outcomes.len()`
/// of them, at the operation with that index, and is ready exactly when the
/// last operation of the program has gone through: not before, and after no
/// more operations than the program has.
pub proof fn lemma_bring_up_completes(program: Seq<OperationView>, outcomes: Seq<Outcome>)
    requires
        program.len() <= usize::MAX,
        outcomes.len() <= program.len(),
        forall|i: int|
            0 <= i < outcomes.len() ==> passes_presence_check(program[i], #[trigger] outcomes[i]),
    ensures
        outcomes.len() < program.len() ==> state_after(program, outcomes) == (
        SequencerState::Running { next: outcomes.len() as usize }),
        outcomes.len() == program.len() ==> state_after(program, outcomes)
            == SequencerState::Ready,
    decreases outcomes.len(),
{
    if outcomes.len() > 0 {
        let before = outcomes.drop_last();
        assert forall|i: int| 0 <= i < before.len() implies passes_presence_check(
            program[i],
            #[trigger] before[i],
        ) by {
            assert(before[i] == outcomes[i]);
        }
        lemma_bring_up_completes(program, before);
        assert(passes_presence_check(program[outcomes.len() - 1], outcomes.last()));
    }
}

/// The first operation that does not go through ends the bring-up: a failed
/// exchange as a transport error, a power-on wait below the floor as a panel
/// that is not connected. Whatever is reported afterwards changes nothing.
pub proof fn lemma_failure_is_final(
    program: Seq<OperationView>,
    outcomes: Seq<Outcome>,
    failed: int,
)
    requires
        program.len() <= usize::MAX,
        0 <= failed < outcomes.len(),
        failed < program.len(),
        forall|i: int|
            0 <= i < failed ==> passes_presence_check(program[i], #[trigger] outcomes[i]),
        !passes_presence_check(program[failed], outcomes[failed]),
    ensures
        state_after(program, outcomes) == SequencerState::Failed(
            if outcomes[failed] is TransportFailed {
                StartError::Transport
            } else {
                StartError::NotConnected
            },
        ),
    decreases outcomes.len(),
{
    let before = outcomes.drop_last();
    if failed == outcomes.len() - 1 {
        assert forall|i: int| 0 <= i < before.len() implies passes_presence_check(
            program[i],
            #[trigger] before[i],
        ) by {
            assert(before[i] == outcomes[i]);
        }
        lemma_bring_up_completes(program, before);
    } else {
        assert(before[failed] == outcomes[failed]);
        assert forall|i: int| 0 <= i < failed implies passes_presence_check(
            program[i],
            #[trigger] before[i],
        ) by {
            assert(before[i] == outcomes[i]);
        }
        lemma_failure_is_final(program, before, failed);
    }
}

/// Once a bring-up is ready it stays ready.
pub proof fn lemma_ready_is_final(program: Seq<OperationView>, outcome: Outcome)
    ensures
        next_state(program, SequencerState::Ready, outcome) == SequencerState::Ready,
{
}

} // verus!
