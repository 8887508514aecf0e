//! The error taxonomy. Every failure is a per-call rejection: the call
//! mutates nothing and the error is surfaced verbatim to the caller.

use vstd::prelude::*;

verus! {

/// Why an operation rejected a call.
#[derive(Clone, Copy, Debug, PartialEq, Eq, Structural)]
pub enum ErrorCode {
    /// `count` is zero.
    InvalidClickCount,
    /// `count` exceeds the fixed batch ceiling.
    TooManyClicks,
    /// A non-first submission above the per-minute allowance arrived within
    /// the rate window.
    RateLimited,
    /// A counter increment would exceed `u64::MAX`.
    Overflow,
}

} // verus!
