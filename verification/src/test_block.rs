//! The block: the owner of a test's life cycle.

use crate::reporter::{check_signal, mentions, TestBlockResult, TestReporter};
use std::fmt::Debug;
use vstd::prelude::*;

verus! {

/// A test result accumulator. The `TestBlock` defines a unit of
/// test functionality, within which checks can fail without aborting the
/// test.
///
/// # Lifetime & Usage
/// A block borrows its reporter for as long as it lives, and tells it of
/// every check and of what the body came to. It is in one of two states:
/// open, from [`new`](#method.new) on, and tallied, from the first call of
/// [`tally`](#method.tally) on. That first call asks the reporter's
/// [`tally`](trait.TestReporter.html#tymethod.tally) whether the block
/// failed; a tallied block tells its reporter nothing more and never asks
/// again, so a block fails at most once.
///
/// # Using results in tests
/// Since error results are the other "big" cause of early test
/// aborts, a block takes what its body returned through
/// [`finished`](#method.finished).
pub struct TestBlock<'a, St> where St: 'a + TestReporter + Sized {
    name: &'a str,
    status_tracker: &'a mut St,
    tallied: bool,
}

impl<'a, St> TestBlock<'a, St> where St: TestReporter + Sized {
    /// The name of the block.
    pub closed spec fn name(&self) -> &'a str {
        self.name
    }

    /// The borrow of the reporter that the block holds. What the borrow
    /// points to now is [`reporter`](#method.reporter); what it points to
    /// when the block has gone is what the lender finds in its reporter.
    pub closed spec fn borrowed(self) -> &'a mut St {
        self.status_tracker
    }

    /// The reporter as the block has left it so far.
    pub open spec fn reporter(self) -> St {
        *self.borrowed()
    }

    /// Whether the block has been tallied.
    pub closed spec fn is_tallied(&self) -> bool {
        self.tallied
    }

    /// Once nothing writes through the block any more, the reporter is to
    /// its lender as the block has left it.
    pub proof fn lemma_gone(self)
        requires
            has_resolved(self),
        ensures
            *final(self.borrowed()) == self.reporter(),
    {
    }

    /// Creates a new, open `TestBlock` with a tracker.
    pub fn new(name: &'a str, tracker: &'a mut St) -> (block: TestBlock<'a, St>)
        ensures
            block.name() == name,
            block.reporter() == *old(tracker),
            *final(block.borrowed()) == *final(tracker),
            !block.is_tallied(),
    {
        TestBlock { name, status_tracker: tracker, tallied: false }
    }

    /// Takes the outcome of one isolated check, `Ok` where the check ran to
    /// completion and `Err` where it terminated abnormally, and calls the
    /// test reporter's
    /// [`averred`](trait.TestReporter.html#tymethod.averred) method with
    /// it: once in an open block, not at all in a tallied one.
    pub fn eval_aver<T: Sized + Debug, E: Sized + Debug>(&mut self, result: Result<T, E>)
        ensures
            final(self).name() == old(self).name(),
            final(self).is_tallied() == old(self).is_tallied(),
            *final(final(self).borrowed()) == *final(old(self).borrowed()),
            final(self).reporter() == if old(self).is_tallied() {
                old(self).reporter()
            } else {
                old(self).reporter().record(check_signal(result))
            },
    {
        if !self.tallied {
            self.status_tracker.averred(result);
        }
    }

    /// Takes what the body of the block came to and calls the test
    /// reporter's [`ran`](trait.TestReporter.html#tymethod.ran) method with
    /// it: once in an open block, not at all in a tallied one.
    pub fn finished<T: Send + Sized + Debug, E: Send + Sized + Debug>(
        &mut self,
        result: TestBlockResult<T, E>,
    )
        ensures
            final(self).name() == old(self).name(),
            final(self).is_tallied() == old(self).is_tallied(),
            *final(final(self).borrowed()) == *final(old(self).borrowed()),
            final(self).reporter() == if old(self).is_tallied() {
                old(self).reporter()
            } else {
                old(self).reporter().record(result.signal())
            },
    {
        if !self.tallied {
            self.status_tracker.ran(result);
        }
    }

    /// Ends the life of the block. On an open block this calls the test
    /// reporter's [`tally`](trait.TestReporter.html#tymethod.tally) method
    /// with the block's name and returns what that returns, `Err` with a
    /// message that names the block where the block has failed. On a tallied
    /// block it does nothing and returns `Ok`. The reporter is left as it was.
    pub fn tally(&mut self) -> (verdict: Result<(), String>)
        ensures
            final(self).is_tallied(),
            final(self).name() == old(self).name(),
            final(self).reporter() == old(self).reporter(),
            *final(final(self).borrowed()) == *final(old(self).borrowed()),
            verdict is Err <==> !old(self).is_tallied() && old(self).reporter().failing(),
            verdict matches Err(message) ==> message@ == old(self).reporter().failure_message(
                old(self).name()@,
            ) && mentions(message@, old(self).name()@),
    {
        if self.tallied {
            Ok(())
        } else {
            self.tallied = true;
            self.status_tracker.tally(self.name)
        }
    }
}

} // verus!
