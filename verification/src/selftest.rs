//! Structs and functions to enable testing `credibility` itself.

use crate::reporter::{check_signal, replay, Signal, TestBlockResult, TestReporter};
use std::fmt::Debug;
use vstd::multiset::Multiset;
use vstd::prelude::*;

verus! {

/// What a [`TestTracker`] has counted.
pub struct Counts {
    /// Checks that terminated abnormally.
    pub failed: nat,
    /// Checks that ran to completion.
    pub succeeded: nat,
    /// Block bodies that returned an error.
    pub errored: nat,
    /// Block bodies that finished without an error.
    pub ran: nat,
}

/// `n`, held at the largest number that a counter can show.
pub open spec fn capped(n: nat) -> nat {
    if n <= usize::MAX {
        n
    } else {
        usize::MAX as nat
    }
}

impl Counts {
    /// The counts of a tracker that has been told nothing.
    pub open spec fn zero() -> Counts {
        Counts { failed: 0, succeeded: 0, errored: 0, ran: 0 }
    }

    /// The counts after one more signal. Each signal raises exactly one
    /// count by one; a count that has reached `usize::MAX` stays there.
    pub open spec fn step(self, signal: Signal) -> Counts {
        match signal {
            Signal::CheckAborted => Counts { failed: capped(self.failed + 1), ..self },
            Signal::CheckCompleted => Counts { succeeded: capped(self.succeeded + 1), ..self },
            Signal::BodyErrored => Counts { errored: capped(self.errored + 1), ..self },
            Signal::BodyVoid | Signal::BodySucceeded => Counts {
                ran: capped(self.ran + 1),
                ..self
            },
        }
    }

    /// The counts after all of `seen`, in whatever order the signals came.
    pub open spec fn plus(self, seen: Multiset<Signal>) -> Counts {
        Counts {
            failed: capped(self.failed + seen.count(Signal::CheckAborted)),
            succeeded: capped(self.succeeded + seen.count(Signal::CheckCompleted)),
            errored: capped(self.errored + seen.count(Signal::BodyErrored)),
            ran: capped(
                self.ran + seen.count(Signal::BodyVoid) + seen.count(Signal::BodySucceeded),
            ),
        }
    }
}

/// A test reporter that counts the number of things that
/// happened. It's mostly useful for writing tests.
#[derive(Copy, Clone)]
pub struct TestTracker {
    failed: usize,
    succeeded: usize,
    errored: usize,
    ran: usize,
}

impl View for TestTracker {
    type V = Counts;

    closed spec fn view(&self) -> Counts {
        Counts {
            failed: self.failed as nat,
            succeeded: self.succeeded as nat,
            errored: self.errored as nat,
            ran: self.ran as nat,
        }
    }
}

impl Default for TestTracker {
    fn default() -> (tracker: TestTracker)
        ensures
            tracker@ == Counts::zero(),
    {
        TestTracker { failed: 0, succeeded: 0, errored: 0, ran: 0 }
    }
}

/// Implements the `TestReporter` trait non-fatally. This
/// implementation never fails a block, making it very useful for writing
/// tests.
impl TestReporter for TestTracker {
    closed spec fn record(self, signal: Signal) -> Self {
        match signal {
            Signal::CheckAborted => TestTracker { failed: self.failed.saturating_add(1), ..self },
            Signal::CheckCompleted => TestTracker {
                succeeded: self.succeeded.saturating_add(1),
                ..self
            },
            Signal::BodyErrored => TestTracker { errored: self.errored.saturating_add(1), ..self },
            Signal::BodyVoid | Signal::BodySucceeded => TestTracker {
                ran: self.ran.saturating_add(1),
                ..self
            },
        }
    }

    open spec fn failing(self) -> bool {
        false
    }

    open spec fn failure_message(self, name: Seq<char>) -> Seq<char> {
        Seq::empty()
    }

    fn averred<T: Sized + Debug, E: Sized + Debug>(&mut self, result: Result<T, E>)
        ensures
            final(self)@ == old(self)@.step(check_signal(result)),
    {
        match result {
            Ok(_) => self.succeeded = self.succeeded.saturating_add(1),
            Err(_) => self.failed = self.failed.saturating_add(1),
        }
    }

    fn ran<T: Send + Sized + Debug, E: Send + Sized + Debug>(
        &mut self,
        result: TestBlockResult<T, E>,
    )
        ensures
            final(self)@ == old(self)@.step(result.signal()),
    {
        match result.res {
            Some(Err(_)) => self.errored = self.errored.saturating_add(1),
            _ => self.ran = self.ran.saturating_add(1),
        }
    }

    /// Does nothing. To get information about a test block's statuses
    /// in a real test, use [`counts`](#method.counts).
    fn tally<'a>(&self, _name: &'a str) -> (verdict: Result<(), String>)
        ensures
            verdict is Ok,
    {
        Ok(())
    }
}

impl TestTracker {
    /// Returns a tuple containing the number of:
    /// * failed assertions
    /// * succeeded assertions
    /// * blocks that finished without an error
    pub fn counts(&self) -> (counts: (usize, usize, usize))
        ensures
            counts.0 == self@.failed,
            counts.1 == self@.succeeded,
            counts.2 == self@.ran,
    {
        (self.failed, self.succeeded, self.ran)
    }

    /// Returns the number of blocks that returned an error.
    pub fn errored(&self) -> (errored: usize)
        ensures
            errored == self@.errored,
    {
        self.errored
    }

    /// No count of a tracker is beyond what a counter can show.
    pub proof fn lemma_within_limits(self)
        ensures
            self@.failed <= usize::MAX,
            self@.succeeded <= usize::MAX,
            self@.errored <= usize::MAX,
            self@.ran <= usize::MAX,
    {
    }

    /// One step of the tracker, in terms of its counts.
    pub proof fn lemma_record(self, signal: Signal)
        ensures
            self.record(signal)@ == self@.step(signal),
    {
    }
}

/// The counts of a tracker account for every signal it was told, whatever
/// their order: each count has grown by the number of signals of its kind,
/// up to `usize::MAX`. Nothing it is told makes the tracker fail a block.
pub proof fn lemma_tracker_counts(tracker: TestTracker, signals: Seq<Signal>)
    ensures
        replay(tracker, signals)@ == tracker@.plus(signals.to_multiset()),
        !replay(tracker, signals).failing(),
    decreases signals.len(),
{
    broadcast use vstd::seq_lib::group_to_multiset_ensures;

    tracker.lemma_within_limits();
    if signals.len() == 0 {
        assert(signals.to_multiset().len() == 0);
    } else {
        let earlier = signals.drop_last();
        let before = replay(tracker, earlier);
        lemma_tracker_counts(tracker, earlier);
        before.lemma_record(signals.last());
        assert(earlier.push(signals.last()) == signals);
        assert(signals.to_multiset() == earlier.to_multiset().insert(signals.last()));
    }
}

/// A tracker that starts at zero and is told no more signals than a counter
/// can show reports exactly how many of each kind it was told.
pub proof fn lemma_tracker_counts_exact(tracker: TestTracker, signals: Seq<Signal>)
    requires
        tracker@ == Counts::zero(),
        signals.len() <= usize::MAX,
    ensures
        ({
            let seen = signals.to_multiset();
            let counts = replay(tracker, signals)@;
            &&& counts.failed == seen.count(Signal::CheckAborted)
            &&& counts.succeeded == seen.count(Signal::CheckCompleted)
            &&& counts.errored == seen.count(Signal::BodyErrored)
            &&& counts.ran == seen.count(Signal::BodyVoid) + seen.count(Signal::BodySucceeded)
        }),
{
    lemma_tracker_counts(tracker, signals);
    lemma_kinds_add_up(signals);
}

/// The counts do not depend on the order in which the signals came: two
/// runs that tell a tracker the same signals, interleaved differently, leave
/// the same counts.
pub proof fn lemma_tracker_order_independent(
    tracker: TestTracker,
    first: Seq<Signal>,
    second: Seq<Signal>,
)
    requires
        first.to_multiset() == second.to_multiset(),
    ensures
        replay(tracker, first)@ == replay(tracker, second)@,
{
    lemma_tracker_counts(tracker, first);
    lemma_tracker_counts(tracker, second);
}

/// Every signal of a sequence is of exactly one of the five kinds.
proof fn lemma_kinds_add_up(signals: Seq<Signal>)
    ensures
        ({
            let seen = signals.to_multiset();
            seen.count(Signal::CheckAborted) + seen.count(Signal::CheckCompleted) + seen.count(
                Signal::BodyErrored,
            ) + seen.count(Signal::BodyVoid) + seen.count(Signal::BodySucceeded) == signals.len()
        }),
    decreases signals.len(),
{
    broadcast use vstd::seq_lib::group_to_multiset_ensures;

    if signals.len() == 0 {
        assert(signals.to_multiset().len() == 0);
    } else {
        let earlier = signals.drop_last();
        lemma_kinds_add_up(earlier);
        assert(earlier.push(signals.last()) == signals);
        assert(signals.to_multiset() == earlier.to_multiset().insert(signals.last()));
    }
}

} // verus!
