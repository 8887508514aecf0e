//! The cross-record ledger invariant: the global click aggregate equals the
//! sum of the per-user counters over every user record in existence.

use vstd::prelude::*;

use crate::ops::submit_outcome;
use crate::state::{GlobalState, UserState};

verus! {

/// Sum of the per-user click counters, as a mathematical integer.
pub open spec fn sum_user_clicks(users: Seq<UserState>) -> int
    decreases users.len(),
{
    if users.len() == 0 {
        0
    } else {
        sum_user_clicks(users.drop_last()) + users.last().user_clicks
    }
}

/// The ledger invariant: the global aggregate equals the per-user sum.
pub open spec fn ledger_consistent(global: GlobalState, users: Seq<UserState>) -> bool {
    global.total_clicks == sum_user_clicks(users)
}

/// A freshly initialized global record is consistent with the empty set of
/// user records.
pub proof fn lemma_initialize_consistent(global: GlobalState)
    requires
        global.total_clicks == 0,
    ensures
        ledger_consistent(global, Seq::<UserState>::empty()),
{
}

/// Replacing one user record changes the sum by exactly the difference in
/// that record's counter.
proof fn lemma_sum_update(users: Seq<UserState>, i: int, u: UserState)
    requires
        0 <= i < users.len(),
    ensures
        sum_user_clicks(users.update(i, u)) == sum_user_clicks(users) - users[i].user_clicks
            + u.user_clicks,
    decreases users.len(),
{
    if i == users.len() - 1 {
        assert(users.update(i, u).drop_last() =~= users.drop_last());
    } else {
        lemma_sum_update(users.drop_last(), i, u);
        assert(users.update(i, u).drop_last() =~= users.drop_last().update(i, u));
        assert(users.update(i, u).last() == users.last());
    }
}

/// A successful `create_user` preserves the ledger invariant: the new user
/// record starts at zero clicks and the global click aggregate is untouched.
pub proof fn lemma_create_user_preserves_ledger(
    global: GlobalState,
    global2: GlobalState,
    users: Seq<UserState>,
    new_user: UserState,
)
    requires
        ledger_consistent(global, users),
        new_user.user_clicks == 0,
        global2.total_clicks == global.total_clicks,
    ensures
        ledger_consistent(global2, users.push(new_user)),
{
    assert(users.push(new_user).drop_last() =~= users);
}

/// One successful `create_user`, as seen at the records: a fresh zero-click
/// record appended, the user count up by one, everything else untouched.
pub open spec fn create_user_step(
    g1: GlobalState,
    us1: Seq<UserState>,
    g2: GlobalState,
    us2: Seq<UserState>,
    new_user: UserState,
) -> bool {
    &&& new_user.user_clicks == 0
    &&& g1.total_users < u64::MAX
    &&& us2 == us1.push(new_user)
    &&& g2 == (GlobalState { total_users: (g1.total_users + 1) as u64, ..g1 })
}

/// One successful `submit_clicks` by the user at position `i`, as seen at
/// the records: that user's counter and the global aggregate grow by the
/// accepted batch, the user's timestamp moves to `now`, everything else is
/// untouched.
pub open spec fn submit_clicks_step(
    g1: GlobalState,
    us1: Seq<UserState>,
    g2: GlobalState,
    us2: Seq<UserState>,
    i: int,
    count: u64,
    now: i64,
) -> bool {
    &&& 0 <= i < us1.len()
    &&& submit_outcome(us1[i], g1, count, now) is None
    &&& us2 == us1.update(
        i,
        UserState {
            user_clicks: (us1[i].user_clicks + count) as u64,
            last_click_timestamp: now,
            ..us1[i]
        },
    )
    &&& g2 == (GlobalState { total_clicks: (g1.total_clicks + count) as u64, ..g1 })
}

/// Every state change one operation can make to the records: a successful
/// `create_user`, a successful `submit_clicks`, or a rejected call, which
/// changes nothing.
pub open spec fn ledger_step(
    g1: GlobalState,
    us1: Seq<UserState>,
    g2: GlobalState,
    us2: Seq<UserState>,
) -> bool {
    ||| exists|new_user: UserState| create_user_step(g1, us1, g2, us2, new_user)
    ||| exists|i: int, count: u64, now: i64| submit_clicks_step(g1, us1, g2, us2, i, count, now)
    ||| (g2 == g1 && us2 == us1)
}

/// The states a valid sequence of `n` operations can leave the records in,
/// starting from a freshly initialized global record and no user records.
pub open spec fn reachable_in(g: GlobalState, users: Seq<UserState>, n: nat) -> bool
    decreases n,
{
    if n == 0 {
        &&& g.total_clicks == 0
        &&& g.total_users == 0
        &&& users == Seq::<UserState>::empty()
    } else {
        exists|g1: GlobalState, us1: Seq<UserState>|
            {
                &&& reachable_in(g1, us1, (n - 1) as nat)
                &&& ledger_step(g1, us1, g, users)
            }
    }
}

/// A successful `submit_clicks` preserves the ledger invariant: the caller's
/// record and the global aggregate grow by the same accepted batch.
pub proof fn lemma_submit_clicks_preserves_ledger(
    global: GlobalState,
    global2: GlobalState,
    users: Seq<UserState>,
    i: int,
    updated: UserState,
    count: u64,
)
    requires
        ledger_consistent(global, users),
        0 <= i < users.len(),
        updated.user_clicks == users[i].user_clicks + count,
        global2.total_clicks == global.total_clicks + count,
    ensures
        ledger_consistent(global2, users.update(i, updated)),
{
    lemma_sum_update(users, i, updated);
}

/// Every single step — a successful `create_user`, a successful
/// `submit_clicks`, or a rejected call — preserves the ledger invariant.
pub proof fn lemma_step_preserves_ledger(
    g1: GlobalState,
    us1: Seq<UserState>,
    g2: GlobalState,
    us2: Seq<UserState>,
)
    requires
        ledger_consistent(g1, us1),
        ledger_step(g1, us1, g2, us2),
    ensures
        ledger_consistent(g2, us2),
{
    if exists|new_user: UserState| create_user_step(g1, us1, g2, us2, new_user) {
        let new_user = choose|new_user: UserState| create_user_step(g1, us1, g2, us2, new_user);
        lemma_create_user_preserves_ledger(g1, g2, us1, new_user);
    } else if exists|i: int, count: u64, now: i64|
        submit_clicks_step(g1, us1, g2, us2, i, count, now) {
        let (i, count, now) = choose|i: int, count: u64, now: i64|
            submit_clicks_step(g1, us1, g2, us2, i, count, now);
        let updated = UserState {
            user_clicks: (us1[i].user_clicks + count) as u64,
            last_click_timestamp: now,
            ..us1[i]
        };
        lemma_submit_clicks_preserves_ledger(g1, g2, us1, i, updated, count);
    }
}

/// For every valid sequence of operations, the global click aggregate equals
/// the sum of the per-user counters at every observation point between
/// calls.
pub proof fn lemma_reachable_ledger_consistent(g: GlobalState, users: Seq<UserState>, n: nat)
    requires
        reachable_in(g, users, n),
    ensures
        ledger_consistent(g, users),
    decreases n,
{
    if n == 0 {
    } else {
        let (g1, us1) = choose|g1: GlobalState, us1: Seq<UserState>|
            {
                &&& reachable_in(g1, us1, (n - 1) as nat)
                &&& ledger_step(g1, us1, g, users)
            };
        lemma_reachable_ledger_consistent(g1, us1, (n - 1) as nat);
        lemma_step_preserves_ledger(g1, us1, g, users);
    }
}

/// For every valid sequence of operations, the global user count equals the
/// number of user records in existence: `create_user` is the only step that
/// adds a record, and it counts each one exactly once.
pub proof fn lemma_reachable_user_count(g: GlobalState, users: Seq<UserState>, n: nat)
    requires
        reachable_in(g, users, n),
    ensures
        g.total_users == users.len(),
    decreases n,
{
    if n == 0 {
    } else {
        let (g1, us1) = choose|g1: GlobalState, us1: Seq<UserState>|
            {
                &&& reachable_in(g1, us1, (n - 1) as nat)
                &&& ledger_step(g1, us1, g, users)
            };
        lemma_reachable_user_count(g1, us1, (n - 1) as nat);
    }
}

} // verus!
