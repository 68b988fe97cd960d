use credibility::selftest::TestTracker;
use credibility::{TestBlock, TestBlockResult};
use std::fmt::Debug;
use std::io::{self, Write};

/// The outcome of checking that `held` is true.
fn aver(held: bool, message: &str) -> Result<(), String> {
    if held {
        Ok(())
    } else {
        Err(message.to_string())
    }
}

/// The outcome of checking that `left` equals `right`.
fn aver_eq_of<T: PartialEq + Debug>(left: T, right: T, message: &str) -> Result<(), String> {
    if left == right {
        Ok(())
    } else {
        Err(format!("{:?} != {:?}: {}", left, right, message))
    }
}

/// The outcome of checking that `left` differs from `right`.
fn aver_ne_of<T: PartialEq + Debug>(left: T, right: T, message: &str) -> Result<(), String> {
    if left != right {
        Ok(())
    } else {
        Err(format!("{:?} == {:?}: {}", left, right, message))
    }
}

#[test]
fn aver_failures() {
    let mut tracker = TestTracker::default();
    {
        let mut tb = TestBlock::new(
            "Checking that aver failures don't cause aborts",
            &mut tracker,
        );
        let res = {
            tb.eval_aver(aver(false, "Executed"));
            tb.eval_aver(aver(false, "Also executed"));
        };
        tb.finished(TestBlockResult::from(res));
        assert!(tb.tally().is_ok());
    }
    assert_eq!(tracker.counts(), (2, 0, 1));
}

#[test]
fn aver_eq() {
    let mut tracker = TestTracker::default();
    {
        let mut tb = TestBlock::new(
            "Checking that aver failures don't cause aborts",
            &mut tracker,
        );
        let res = {
            tb.eval_aver(aver_eq_of(false, false, "Equal"));
            tb.eval_aver(aver_eq_of(true, false, "Not equal"));
            tb.eval_aver(aver_eq_of(true, false, "Not equal, again"));
        };
        tb.finished(TestBlockResult::from(res));
        assert!(tb.tally().is_ok());
    }
    assert_eq!(tracker.counts(), (2, 1, 1));
}

#[test]
fn aver_ne() {
    let mut tracker = TestTracker::default();
    {
        let mut tb = TestBlock::new(
            "Checking that aver failures don't cause aborts",
            &mut tracker,
        );
        let res = {
            tb.eval_aver(aver_ne_of(false, false, "Equal"));
            tb.eval_aver(aver_ne_of(true, false, "Not equal"));
            tb.eval_aver(aver_ne_of(true, false, "Not equal, again"));
        };
        tb.finished(TestBlockResult::from(res));
        assert!(tb.tally().is_ok());
    }
    assert_eq!(tracker.counts(), (1, 2, 1));
}

#[test]
fn aver_table() {
    let mut tracker = TestTracker::default();
    {
        let cases = vec![(1, 1, 2), (3, 4, 5), (5, 6, 11)];
        let mut tb = TestBlock::new(
            "Checking that aver failures don't cause aborts",
            &mut tracker,
        );
        let res = {
            for (in1, in2, output) in cases {
                let sum = in1 + in2;
                tb.eval_aver(aver_eq_of(sum, output, ""));
            }
        };
        tb.finished(TestBlockResult::from(res));
        assert!(tb.tally().is_ok());
    }
    assert_eq!(tracker.counts(), (1, 2, 1));
}

#[test]
fn aver_success() {
    let mut tracker = TestTracker::default();
    {
        let mut tb = TestBlock::new("Checking that aver successes count", &mut tracker);
        let res = {
            tb.eval_aver(aver(true, "Executed"));
            tb.eval_aver(aver(true, "Also executed"));
        };
        tb.finished(TestBlockResult::from(res));
        assert!(tb.tally().is_ok());
    }
    assert_eq!(tracker.counts(), (0, 2, 1));
}

struct TestError(String);

impl<T: Debug + Sized> From<T> for TestError {
    fn from(f: T) -> Self {
        TestError(format!("test error: {:?}", f))
    }
}

fn failure_result() -> Result<(), &'static str> {
    Err("nope!")
}

#[test]
fn err_result() {
    let mut tracker = TestTracker::default();
    let _res = (|| -> Result<(), TestError> {
        let mut tb = TestBlock::new("asserting that failure happens", &mut tracker);
        let res: Result<(), ()> = {
            io::stdout().write(b"hi there!")?;
            failure_result()?;
            Ok(())
        };
        tb.finished(TestBlockResult::from(res));
        assert!(tb.tally().is_ok());
        Ok(())
    })();
    assert!(_res.is_err());
    assert_eq!(_res.err().map(|e| e.0), Some("test error: \"nope!\"".to_string()));
    assert_eq!(tracker.counts(), (0, 0, 0));
    assert_eq!(tracker.errored(), 0);
}

#[test]
fn ok_result() -> Result<(), &'static str> {
    let mut tracker = TestTracker::default();
    {
        let mut tb = TestBlock::new("asserting that success is OK", &mut tracker);
        let res = {};
        tb.finished(TestBlockResult::from(res));
        assert!(tb.tally().is_ok());
    }
    assert_eq!(tracker.counts(), (0, 0, 1));
    Ok(())
}
