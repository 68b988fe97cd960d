//! The reporting policy: what a reporter is told, and what it decides.

use std::fmt::Debug;
use vstd::prelude::*;
use vstd::std_specs::convert::FromSpecImpl;

verus! {

/// One thing a reporter can be told. The payloads of the recording calls are
/// left out: a policy depends only on how a check or a body ended.
#[derive(Clone, Copy, Debug, PartialEq, Eq, Structural)]
pub enum Signal {
    /// An isolated check ran to completion.
    CheckCompleted,
    /// An isolated check terminated abnormally.
    CheckAborted,
    /// A block's body finished without a result.
    BodyVoid,
    /// A block's body finished with a success.
    BodySucceeded,
    /// A block's body finished with an error.
    BodyErrored,
}

impl Signal {
    /// Whether the signal tells of an isolated check.
    pub open spec fn is_check(self) -> bool {
        self is CheckCompleted || self is CheckAborted
    }

    /// Whether the signal tells of something that went wrong: a check that
    /// terminated abnormally, or a body that returned an error.
    pub open spec fn is_failure(self) -> bool {
        self is CheckAborted || self is BodyErrored
    }
}

/// The signal that the outcome of one isolated check amounts to: `Ok` is a
/// check that completed, `Err` one that terminated abnormally.
pub open spec fn check_signal<T, E>(result: Result<T, E>) -> Signal {
    if result is Err {
        Signal::CheckAborted
    } else {
        Signal::CheckCompleted
    }
}

/// What the body of a test block came to: nothing at all (`None`), or the
/// `Result` that it returned.
#[derive(Debug)]
pub struct TestBlockResult<T, E> where T: Debug + Sized, E: Debug + Sized {
    pub res: Option<Result<T, E>>,
}

impl<T: Debug, E: Debug> TestBlockResult<T, E> {
    /// The signal that this body result amounts to.
    pub open spec fn signal(self) -> Signal {
        match self.res {
            None => Signal::BodyVoid,
            Some(Ok(_)) => Signal::BodySucceeded,
            Some(Err(_)) => Signal::BodyErrored,
        }
    }
}

impl From<()> for TestBlockResult<(), ()> {
    fn from(_nothing: ()) -> (result: TestBlockResult<(), ()>) {
        TestBlockResult { res: None }
    }
}

impl FromSpecImpl<()> for TestBlockResult<(), ()> {
    open spec fn obeys_from_spec() -> bool {
        true
    }

    open spec fn from_spec(_nothing: ()) -> Self {
        TestBlockResult { res: None }
    }
}

impl<T: Debug + Send, E: Debug + Send> From<Result<T, E>> for TestBlockResult<T, E> {
    fn from(res: Result<T, E>) -> (result: TestBlockResult<T, E>) {
        TestBlockResult { res: Some(res) }
    }
}

impl<T: Debug + Send, E: Debug + Send> FromSpecImpl<Result<T, E>> for TestBlockResult<T, E> {
    open spec fn obeys_from_spec() -> bool {
        true
    }

    open spec fn from_spec(res: Result<T, E>) -> Self {
        TestBlockResult { res: Some(res) }
    }
}

/// Whether `message` holds `name` as a contiguous run of characters.
pub open spec fn mentions(message: Seq<char>, name: Seq<char>) -> bool {
    exists|at: int|
        0 <= at && at + name.len() <= message.len() && #[trigger] message.subrange(
            at,
            at + name.len(),
        ) == name
}

/// Collects test statuses and decides, when a block is torn down, whether the
/// block failed.
///
/// A reporter is a state machine over [`Signal`]s: `record` is its step, and
/// `failing` is what it decides in the state reached. The three methods are that
/// machine in executable form.
pub trait TestReporter: Sized {
    /// The reporter after it has been told `signal`.
    spec fn record(self, signal: Signal) -> Self;

    /// Whether a block torn down over this reporter has failed.
    spec fn failing(self) -> bool;

    /// The message with which a failing block named `name` fails.
    spec fn failure_message(self, name: Seq<char>) -> Seq<char>;

    /// Takes the outcome of one isolated check: `Ok` where the check ran to
    /// completion, `Err` where it terminated abnormally.
    fn averred<T: Sized + Debug, E: Sized + Debug>(&mut self, result: Result<T, E>)
        ensures
            *final(self) == old(self).record(check_signal(result)),
    ;

    /// Takes what the body of a block came to.
    fn ran<T: Send + Sized + Debug, E: Send + Sized + Debug>(
        &mut self,
        result: TestBlockResult<T, E>,
    )
        ensures
            *final(self) == old(self).record(result.signal()),
    ;

    /// Decides the block named `name` at the end of its life: `Err` with the
    /// failure message where the block has failed, `Ok` where it has not. The
    /// message names the block.
    fn tally<'a>(&self, name: &'a str) -> (verdict: Result<(), String>)
        ensures
            verdict is Err <==> self.failing(),
            verdict matches Err(message) ==> message@ == self.failure_message(name@) && mentions(
                message@,
                name@,
            ),
    ;
}

/// The reporter reached from `reporter` by telling it `signals`, first to
/// last.
pub open spec fn replay<R: TestReporter>(reporter: R, signals: Seq<Signal>) -> R
    decreases signals.len(),
{
    if signals.len() == 0 {
        reporter
    } else {
        replay(reporter, signals.drop_last()).record(signals.last())
    }
}

/// The default test status reporter. It holds back every failure until the
/// block is torn down: the block fails then if any check terminated
/// abnormally, or if the body of the block returned an error.
pub struct DefaultTestReporter {
    failed: bool,
}

impl DefaultTestReporter {
    /// What a failing block named `name` says.
    pub open spec fn message_for(name: Seq<char>) -> Seq<char> {
        "Test cases in block \""@ + name + "\" failed"@
    }

    /// One step of the reporter, in terms of what it decides: it fails the
    /// block from the first failure on.
    pub proof fn lemma_record(self, signal: Signal)
        ensures
            self.record(signal).failing() == (self.failing() || signal.is_failure()),
    {
    }
}

impl Default for DefaultTestReporter {
    fn default() -> (reporter: DefaultTestReporter)
        ensures
            !reporter.failing(),
    {
        DefaultTestReporter { failed: false }
    }
}

impl TestReporter for DefaultTestReporter {
    closed spec fn record(self, signal: Signal) -> Self {
        DefaultTestReporter { failed: self.failed || signal.is_failure() }
    }

    closed spec fn failing(self) -> bool {
        self.failed
    }

    open spec fn failure_message(self, name: Seq<char>) -> Seq<char> {
        Self::message_for(name)
    }

    fn averred<T: Sized + Debug, E: Sized + Debug>(&mut self, result: Result<T, E>) {
        if result.is_err() {
            self.failed = true
        }
    }

    fn ran<T: Send + Sized + Debug, E: Send + Sized + Debug>(
        &mut self,
        result: TestBlockResult<T, E>,
    ) {
        if let Some(Err(_)) = result.res {
            self.failed = true
        }
    }

    fn tally<'a>(&self, name: &'a str) -> (verdict: Result<(), String>) {
        if self.failed {
            let mut message = String::from_str("Test cases in block \"");
            message.append(name);
            message.append("\" failed");
            proof {
                let start = "Test cases in block \""@.len() as int;
                assert(message@.subrange(start, start + name@.len()) == name@);
            }
            Err(message)
        } else {
            Ok(())
        }
    }
}

/// The default policy, over every sequence of signals: a reporter that did not
/// fail the block before fails it afterwards if and only if one of the signals
/// is an aborted check or an errored body.
pub proof fn lemma_default_reporter_policy(reporter: DefaultTestReporter, signals: Seq<Signal>)
    ensures
        replay(reporter, signals).failing() <==> reporter.failing() || exists|i: int|
            0 <= i < signals.len() && (#[trigger] signals[i]).is_failure(),
    decreases signals.len(),
{
    if signals.len() > 0 {
        let earlier = signals.drop_last();
        lemma_default_reporter_policy(reporter, earlier);
        replay(reporter, earlier).lemma_record(signals.last());
        if replay(reporter, signals).failing() && !reporter.failing() {
            if signals.last().is_failure() {
                assert(signals[signals.len() - 1].is_failure());
            } else {
                let i = choose|i: int| 0 <= i < earlier.len() && (#[trigger] earlier[i]).is_failure();
                assert(signals[i] == earlier[i]);
            }
        }
        if exists|i: int| 0 <= i < signals.len() && (#[trigger] signals[i]).is_failure() {
            let i = choose|i: int| 0 <= i < signals.len() && (#[trigger] signals[i]).is_failure();
            if i < earlier.len() {
                assert(earlier[i] == signals[i]);
            }
        }
    }
}

/// Over isolated checks alone: a fresh reporter fails the block if at least
/// one of the checks terminated abnormally, and passes it if none did.
pub proof fn lemma_default_reporter_checks(reporter: DefaultTestReporter, checks: Seq<Signal>)
    requires
        !reporter.failing(),
        forall|i: int| 0 <= i < checks.len() ==> (#[trigger] checks[i]).is_check(),
    ensures
        replay(reporter, checks).failing() <==> exists|i: int|
            0 <= i < checks.len() && #[trigger] checks[i] == Signal::CheckAborted,
{
    lemma_default_reporter_policy(reporter, checks);
    if replay(reporter, checks).failing() {
        let i = choose|i: int| 0 <= i < checks.len() && (#[trigger] checks[i]).is_failure();
        assert(checks[i].is_check());
        assert(checks[i] == Signal::CheckAborted);
    }
    if exists|i: int| 0 <= i < checks.len() && #[trigger] checks[i] == Signal::CheckAborted {
        let i = choose|i: int| 0 <= i < checks.len() && #[trigger] checks[i] == Signal::CheckAborted;
        assert(checks[i].is_failure());
    }
}

} // verus!
