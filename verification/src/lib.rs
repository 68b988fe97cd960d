//! Test blocks that keep going after a failed check.
//!
//! A [`TestBlock`] groups the checks of one test under a name and hands the
//! outcome of each to a [`TestReporter`]. Nothing is decided until the block
//! is torn down: only then does the reporter say whether the block as a whole
//! failed, so a table-driven test shows every failing row in one run.

mod reporter;
pub mod selftest;
mod test_block;

pub use reporter::{
    check_signal, lemma_default_reporter_checks, lemma_default_reporter_policy, mentions, replay,
    DefaultTestReporter, Signal, TestBlockResult, TestReporter,
};
pub use test_block::TestBlock;
