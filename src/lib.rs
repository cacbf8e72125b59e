//! Retry control for fallible operations with a growing pause between
//! attempts.
//!
//! The library decides; the caller acts. A [`RetryPolicy`] fixes how many
//! attempts a run may make, and a [`RetryRun`] tracks one run: after each
//! attempt it says whether the result must be returned as it stands or
//! whether the caller's retry predicate is to be asked, and after the
//! predicate's verdict it says whether to return or to pause and try again.
//! Computing the length of a pause and sleeping are left to the caller.

pub mod policy;
pub mod run;
pub mod trace;

pub use policy::{RetryPolicy, DEFAULT_MAX_RETRIES};
pub use run::{Action, Phase, RetryRun};
