//! Waiting for the controller to become idle.
//!
//! The controller holds its busy line at one level while it works. The caller
//! samples the line and its clock, and the poller says whether to sleep and
//! sample again or to stop waiting.

use vstd::prelude::*;
use crate::transport::Level;

verus! {

/// Milliseconds between two samples of the busy line.
pub const IDLE_CHECK_INTERVAL_MS: u64 = 10;

/// Milliseconds after which the current generation stops waiting, busy or not.
pub const IDLE_TIMEOUT_MS: u64 = 6000;

/// How one controller generation signals that it is busy, and for how long
/// the driver is willing to wait.
#[derive(Clone, Copy, Debug, PartialEq, Eq, Structural)]
pub struct IdlePoller {
    /// Level of the busy line while the controller works.
    pub busy_level: Level,
    /// Waiting time at which polling stops even if the line is still busy;
    /// `None` polls for as long as the line is busy.
    pub ceiling_ms: Option<u64>,
}

/// What to do after a sample of the busy line.
#[derive(Clone, Copy, Debug, PartialEq, Eq, Structural)]
pub enum Poll {
    /// Sleep this many milliseconds and sample again.
    Sleep(u64),
    /// Stop waiting; the time waited is whatever the clock says now.
    Idle,
}

/// One sample: the level of the busy line and the milliseconds since the wait
/// began.
pub struct Sample {
    pub line: Level,
    pub elapsed_ms: u64,
}

impl IdlePoller {
    /// The poller of the current generation: busy is high, and no wait lasts
    /// longer than the timeout.
    pub fn current_generation() -> (poller: IdlePoller)
        ensures
            poller.busy_level == Level::High,
            poller.ceiling_ms == Some(IDLE_TIMEOUT_MS),
    {
        IdlePoller { busy_level: Level::High, ceiling_ms: Some(IDLE_TIMEOUT_MS) }
    }

    /// The poller of the legacy generation: busy is low, and the wait has no
    /// ceiling.
    pub fn legacy_generation() -> (poller: IdlePoller)
        ensures
            poller.busy_level == Level::Low,
            poller.ceiling_ms == None::<u64>,
    {
        IdlePoller { busy_level: Level::Low, ceiling_ms: None }
    }

    /// Whether a wait goes on after this sample: the line is at its busy level
    /// and the ceiling, if there is one, has not been reached.
    pub open spec fn keeps_waiting(self, line: Level, elapsed_ms: u64) -> bool {
        line == self.busy_level && match self.ceiling_ms {
            Some(ceiling) => elapsed_ms < ceiling,
            None => true,
        }
    }

    /// Index of the first of `samples` at which the wait stops, or the number
    /// of samples if it goes on through all of them.
    pub open spec fn first_stop(self, samples: Seq<Sample>) -> int
        decreases samples.len(),
    {
        if samples.len() == 0 {
            0
        } else if !self.keeps_waiting(samples[0].line, samples[0].elapsed_ms) {
            0
        } else {
            1 + self.first_stop(samples.drop_first())
        }
    }

    /// The time a wait reports when the busy line and the clock are sampled as
    /// in `samples`: the clock at the first sample at which the wait stops.
    /// `None` while the wait is still going on after the last sample.
    pub open spec fn waited(self, samples: Seq<Sample>) -> Option<u64> {
        let stop = self.first_stop(samples);
        if stop < samples.len() {
            Some(samples[stop].elapsed_ms)
        } else {
            None
        }
    }

    /// Decides what follows one sample of the busy line.
    ///
    /// `line` is the level read from the busy line and `elapsed_ms` the time
    /// since the wait began.
    pub fn wait_for_idle(&self, line: Level, elapsed_ms: u64) -> (next: Poll)
        ensures
            next == if self.keeps_waiting(line, elapsed_ms) {
                Poll::Sleep(IDLE_CHECK_INTERVAL_MS)
            } else {
                Poll::Idle
            },
    {
        let busy = match (line, self.busy_level) {
            (Level::Low, Level::Low) => true,
            (Level::High, Level::High) => true,
            _ => false,
        };
        let below_ceiling = match self.ceiling_ms {
            Some(ceiling) => elapsed_ms < ceiling,
            None => true,
        };
        if busy && below_ceiling {
            Poll::Sleep(IDLE_CHECK_INTERVAL_MS)
        } else {
            Poll::Idle
        }
    }
}

/// Where the wait stops lies within the samples, every sample before it kept
/// the wait going, and the sample at it, if there is one, did not.
pub proof fn lemma_first_stop(poller: IdlePoller, samples: Seq<Sample>)
    ensures
        0 <= poller.first_stop(samples) <= samples.len(),
        forall|i: int|
            0 <= i < poller.first_stop(samples) ==> poller.keeps_waiting(
                #[trigger] samples[i].line,
                samples[i].elapsed_ms,
            ),
        poller.first_stop(samples) < samples.len() ==> !poller.keeps_waiting(
            samples[poller.first_stop(samples)].line,
            samples[poller.first_stop(samples)].elapsed_ms,
        ),
    decreases samples.len(),
{
    if samples.len() > 0 && poller.keeps_waiting(samples[0].line, samples[0].elapsed_ms) {
        let rest = samples.drop_first();
        lemma_first_stop(poller, rest);
        assert forall|i: int| 0 <= i < poller.first_stop(samples) implies poller.keeps_waiting(
            #[trigger] samples[i].line,
            samples[i].elapsed_ms,
        ) by {
            if i > 0 {
                assert(samples[i] == rest[i - 1]);
            }
        }
        assert(poller.first_stop(rest) < rest.len() ==> samples[poller.first_stop(samples)]
            == rest[poller.first_stop(rest)]);
    }
}

/// A busy line that never reports ready: a wait with a ceiling ends at the
/// first sample taken at or after the ceiling, without an error, and the time
/// it reports is at least the ceiling.
pub proof fn lemma_idle_ceiling(poller: IdlePoller, samples: Seq<Sample>, late: int)
    requires
        poller.ceiling_ms.is_some(),
        forall|i: int| 0 <= i < samples.len() ==> (#[trigger] samples[i]).line == poller.busy_level,
        0 <= late < samples.len(),
        samples[late].elapsed_ms >= poller.ceiling_ms.unwrap(),
    ensures
        poller.waited(samples).is_some(),
        poller.waited(samples).unwrap() >= poller.ceiling_ms.unwrap(),
        poller.first_stop(samples) <= late,
        forall|i: int|
            0 <= i < poller.first_stop(samples) ==> (#[trigger] samples[i]).elapsed_ms
                < poller.ceiling_ms.unwrap(),
{
    lemma_first_stop(poller, samples);
    let stop = poller.first_stop(samples);
    if stop > late {
        assert(poller.keeps_waiting(samples[late].line, samples[late].elapsed_ms));
    }
    assert(samples[stop].line == poller.busy_level);
    assert forall|i: int| 0 <= i < stop implies (#[trigger] samples[i]).elapsed_ms
        < poller.ceiling_ms.unwrap() by {
        assert(poller.keeps_waiting(samples[i].line, samples[i].elapsed_ms));
    }
}

/// Without a ceiling a wait goes on for as long as the line is busy.
pub proof fn lemma_unbounded_wait(poller: IdlePoller, samples: Seq<Sample>)
    requires
        poller.ceiling_ms.is_none(),
        forall|i: int| 0 <= i < samples.len() ==> (#[trigger] samples[i]).line == poller.busy_level,
    ensures
        poller.waited(samples).is_none(),
{
    lemma_first_stop(poller, samples);
    let stop = poller.first_stop(samples);
    if stop < samples.len() {
        assert(samples[stop].line == poller.busy_level);
    }
}

/// A wait ends at the first sample that shows the line idle, whatever the
/// clock says.
pub proof fn lemma_ready_ends_wait(poller: IdlePoller, samples: Seq<Sample>, ready: int)
    requires
        0 <= ready < samples.len(),
        samples[ready].line != poller.busy_level,
    ensures
        poller.waited(samples).is_some(),
        poller.first_stop(samples) <= ready,
{
    lemma_first_stop(poller, samples);
    if poller.first_stop(samples) > ready {
        assert(poller.keeps_waiting(samples[ready].line, samples[ready].elapsed_ms));
    }
}

} // verus!
