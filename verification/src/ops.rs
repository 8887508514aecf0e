//! The three operations. Each runs to completion against the records the
//! host hands it: validation first, then either every effect or none.

use vstd::prelude::*;

use crate::errors::ErrorCode;
use crate::state::{GlobalState, Pubkey, UserState};

verus! {

/// Hard ceiling on the size of one click batch, independent of rate limiting.
pub const MAX_BATCH: u64 = 10000;

/// Largest batch a non-first submission may carry inside the rate window.
pub const MAX_CLICKS_PER_MINUTE: u64 = 1000;

/// Length of the rate window in seconds.
pub const RATE_WINDOW_SECONDS: i64 = 60;

/// The records and scalars `initialize` acts on: only the caller's identity,
/// which becomes the new record's authority. The host guarantees the
/// singleton storage location is not yet occupied.
pub struct Initialize {
    pub authority: Pubkey,
}

/// The records and scalars `create_user` acts on: the existing global record
/// and the caller's identity. The host guarantees no `UserState` exists yet
/// for that identity.
pub struct CreateUser {
    pub global_state: GlobalState,
    pub user: Pubkey,
}

/// The records and scalars `submit_clicks` acts on: the caller's own record,
/// the global record, and the caller's identity. The host resolves
/// `user_state` from `user`, so the two identities match.
pub struct SubmitClicks {
    pub user_state: UserState,
    pub global_state: GlobalState,
    pub user: Pubkey,
}

/// Whether a submission at time `now` falls inside the rate window that
/// opened at the user's previous accepted submission. `now` may lie before
/// the recorded timestamp under a non-monotonic host clock; a negative
/// elapsed time still counts as recent.
pub open spec fn within_rate_window(last_click_timestamp: i64, now: i64) -> bool {
    now - last_click_timestamp < RATE_WINDOW_SECONDS
}

/// Whether the rate limit rejects a batch of `count` clicks at time `now`:
/// the submission is recent, it is not the user's first (their counter is
/// still zero until one is accepted), and the batch exceeds the per-minute
/// allowance.
pub open spec fn rate_limit_applies(user: UserState, count: u64, now: i64) -> bool {
    &&& within_rate_window(user.last_click_timestamp, now)
    &&& user.user_clicks > 0
    &&& count > MAX_CLICKS_PER_MINUTE
}

/// The outcome `submit_clicks` owes for a given prior state and arguments:
/// the first validation failure in order, `Overflow` if either counter
/// would wrap, and `None` (success) otherwise.
pub open spec fn submit_outcome(
    user: UserState,
    global: GlobalState,
    count: u64,
    now: i64,
) -> Option<ErrorCode> {
    if count == 0 {
        Some(ErrorCode::InvalidClickCount)
    } else if count > MAX_BATCH {
        Some(ErrorCode::TooManyClicks)
    } else if rate_limit_applies(user, count, now) {
        Some(ErrorCode::RateLimited)
    } else if user.user_clicks + count > u64::MAX || global.total_clicks + count > u64::MAX {
        Some(ErrorCode::Overflow)
    } else {
        None
    }
}

/// A zero-click batch is rejected as `InvalidClickCount` whatever the prior
/// state and whatever the clock says.
pub proof fn lemma_zero_count_always_rejected(user: UserState, global: GlobalState, now: i64)
    ensures
        submit_outcome(user, global, 0, now) == Some(ErrorCode::InvalidClickCount),
{
}

/// A batch above the hard ceiling is rejected as `TooManyClicks` whatever
/// the prior state and whatever the clock says.
pub proof fn lemma_oversized_batch_always_rejected(
    user: UserState,
    global: GlobalState,
    count: u64,
    now: i64,
)
    requires
        count > MAX_BATCH,
    ensures
        submit_outcome(user, global, count, now) == Some(ErrorCode::TooManyClicks),
{
}

/// A user's first-ever submission is exempt from rate limiting: while their
/// counter is still zero, any batch within the hard ceiling succeeds however
/// recent the record's creation time, provided the global aggregate has room.
pub proof fn lemma_first_submission_exempt(
    user: UserState,
    global: GlobalState,
    count: u64,
    now: i64,
)
    requires
        user.user_clicks == 0,
        0 < count <= MAX_BATCH,
        global.total_clicks + count <= u64::MAX,
    ensures
        submit_outcome(user, global, count, now) is None,
{
}

/// Creates the global record: zeroed counters, the caller recorded as its
/// authority. Duplicate creation is rejected by the host's storage layer
/// before this logic runs, so the operation itself cannot fail.
pub fn initialize(ctx: &Initialize) -> (g: GlobalState)
    ensures
        g.total_clicks == 0,
        g.total_users == 0,
        g.authority == ctx.authority,
{
    GlobalState { total_clicks: 0, total_users: 0, authority: ctx.authority }
}

/// Creates a fresh user record for the caller and counts it in the global
/// record, as one unit: on `Overflow` nothing is mutated and no record is
/// created. Duplicate creation for an identity is rejected by the host's
/// storage layer before this logic runs. `now` is the host clock's current
/// time in seconds since epoch.
pub fn create_user(ctx: &mut CreateUser, now: i64) -> (r: Result<UserState, ErrorCode>)
    ensures
        final(ctx).user == old(ctx).user,
        match r {
            Ok(u) => {
                &&& old(ctx).global_state.total_users < u64::MAX
                &&& u.user == old(ctx).user
                &&& u.user_clicks == 0
                &&& u.last_click_timestamp == now
                &&& final(ctx).global_state.total_users == old(
                    ctx,
                ).global_state.total_users + 1
                &&& final(ctx).global_state.total_clicks == old(ctx).global_state.total_clicks
                &&& final(ctx).global_state.authority == old(ctx).global_state.authority
            },
            Err(e) => {
                &&& e == ErrorCode::Overflow
                &&& old(ctx).global_state.total_users == u64::MAX
                &&& *final(ctx) == *old(ctx)
            },
        },
{
    match ctx.global_state.total_users.checked_add(1) {
        Some(n) => {
            ctx.global_state.total_users = n;
            Ok(UserState { user: ctx.user, user_clicks: 0, last_click_timestamp: now })
        },
        None => Err(ErrorCode::Overflow),
    }
}

/// Validates a batch of `count` clicks against `submit_outcome` and, when it
/// owes success, applies all three effects as one unit: the user's counter
/// and the global counter each grow by `count`, and the user's timestamp
/// moves to `now`. On any rejection every record is left exactly as it was.
///
/// The host's addressing layer resolves the user record from the caller's
/// identity and refuses a mismatch before this logic runs, which the
/// precondition records.
pub fn submit_clicks(ctx: &mut SubmitClicks, count: u64, now: i64) -> (r: Result<
    (),
    ErrorCode,
>)
    requires
        old(ctx).user_state.user == old(ctx).user,
    ensures
        final(ctx).user == old(ctx).user,
        final(ctx).user_state.user == old(ctx).user_state.user,
        final(ctx).global_state.total_users == old(ctx).global_state.total_users,
        final(ctx).global_state.authority == old(ctx).global_state.authority,
        match r {
            Ok(()) => {
                &&& submit_outcome(old(ctx).user_state, old(ctx).global_state, count, now)
                    is None
                &&& final(ctx).user_state.user_clicks == old(ctx).user_state.user_clicks
                    + count
                &&& final(ctx).user_state.last_click_timestamp == now
                &&& final(ctx).global_state.total_clicks == old(
                    ctx,
                ).global_state.total_clicks + count
            },
            Err(e) => {
                &&& submit_outcome(old(ctx).user_state, old(ctx).global_state, count, now)
                    == Some(e)
                &&& *final(ctx) == *old(ctx)
            },
        },
{
    if count == 0 {
        return Err(ErrorCode::InvalidClickCount);
    }
    if count > MAX_BATCH {
        return Err(ErrorCode::TooManyClicks);
    }
    // The widening keeps the elapsed-time arithmetic exact even when the
    // host clock has jumped by close to the full i64 range.
    let elapsed: i128 = now as i128 - ctx.user_state.last_click_timestamp as i128;
    if elapsed < RATE_WINDOW_SECONDS as i128 && ctx.user_state.user_clicks > 0 && count
        > MAX_CLICKS_PER_MINUTE {
        return Err(ErrorCode::RateLimited);
    }
    // Both sums are checked before either record is touched, so a detected
    // overflow discards the whole call's mutations.
    let new_user_clicks = match ctx.user_state.user_clicks.checked_add(count) {
        Some(n) => n,
        None => {
            return Err(ErrorCode::Overflow);
        },
    };
    let new_total_clicks = match ctx.global_state.total_clicks.checked_add(count) {
        Some(n) => n,
        None => {
            return Err(ErrorCode::Overflow);
        },
    };
    ctx.user_state.user_clicks = new_user_clicks;
    ctx.user_state.last_click_timestamp = now;
    ctx.global_state.total_clicks = new_total_clicks;
    Ok(())
}

} // verus!
