//! The two persistent record types the operations act on.

use vstd::prelude::*;

verus! {

/// A caller's identity as the host's addressing layer presents it:
/// 32 opaque bytes. It serves both as storage key and as the subject of
/// the ownership check on `UserState`.
pub type Pubkey = [u8; 32];

/// The singleton aggregate record, created exactly once by `initialize`.
#[derive(Clone, Copy, Debug, PartialEq, Eq)]
pub struct GlobalState {
    /// Sum of all accepted click batches across all users.
    /// Monotonically non-decreasing.
    pub total_clicks: u64,
    /// Count of `UserState` records ever created.
    /// Monotonically non-decreasing.
    pub total_users: u64,
    /// Identity of whoever invoked `initialize`; immutable after creation.
    pub authority: Pubkey,
}

/// One record per participant, keyed by the participant's identity.
#[derive(Clone, Copy, Debug, PartialEq, Eq)]
pub struct UserState {
    /// The participant this record belongs to; immutable after creation.
    /// Only the matching identity may mutate the record.
    pub user: Pubkey,
    /// This participant's cumulative accepted clicks.
    /// Monotonically non-decreasing.
    pub user_clicks: u64,
    /// Seconds since epoch of the most recent accepted submission;
    /// initialized to creation time. Monotonically non-decreasing under a
    /// monotonic host clock (ties permitted).
    pub last_click_timestamp: i64,
}

} // verus!
