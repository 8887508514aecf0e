use clicker::errors::ErrorCode;
use clicker::ops::{create_user, initialize, submit_clicks, CreateUser, Initialize, SubmitClicks};
use clicker::state::{GlobalState, Pubkey, UserState};

fn key(b: u8) -> Pubkey {
    [b; 32]
}

fn fresh_global(authority: Pubkey) -> GlobalState {
    initialize(&Initialize { authority })
}

#[test]
fn initialize_zeroes_counters_and_records_authority() {
    let g = fresh_global(key(9));
    assert_eq!(g.total_clicks, 0);
    assert_eq!(g.total_users, 0);
    assert_eq!(g.authority, key(9));
}

#[test]
fn create_user_increments_total_users_and_keeps_total_clicks() {
    let mut ctx = CreateUser {
        global_state: GlobalState { total_clicks: 77, total_users: 4, authority: key(1) },
        user: key(2),
    };
    let r = create_user(&mut ctx, 1_000);
    let u = r.expect("creation must succeed below the counter maximum");
    assert_eq!(u.user, key(2));
    assert_eq!(u.user_clicks, 0);
    assert_eq!(u.last_click_timestamp, 1_000);
    assert_eq!(ctx.global_state.total_users, 5);
    assert_eq!(ctx.global_state.total_clicks, 77);
    assert_eq!(ctx.global_state.authority, key(1));
}

#[test]
fn create_user_at_counter_maximum_fails_overflow_unchanged() {
    let before = GlobalState { total_clicks: 3, total_users: u64::MAX, authority: key(1) };
    let mut ctx = CreateUser { global_state: before, user: key(2) };
    let r = create_user(&mut ctx, 50);
    assert_eq!(r, Err(ErrorCode::Overflow));
    assert_eq!(ctx.global_state, before);
    assert_eq!(ctx.user, key(2));
}

#[test]
fn submit_zero_always_fails_invalid_click_count() {
    let before_g = GlobalState { total_clicks: 10, total_users: 1, authority: key(1) };
    let before_u = UserState { user: key(2), user_clicks: 10, last_click_timestamp: 500 };
    let mut ctx = SubmitClicks { user_state: before_u, global_state: before_g, user: key(2) };
    let r = submit_clicks(&mut ctx, 0, 10_000);
    assert_eq!(r, Err(ErrorCode::InvalidClickCount));
    assert_eq!(ctx.user_state, before_u);
    assert_eq!(ctx.global_state, before_g);
}

#[test]
fn submit_10001_always_fails_too_many_clicks() {
    let before_g = GlobalState { total_clicks: 0, total_users: 1, authority: key(1) };
    let before_u = UserState { user: key(2), user_clicks: 0, last_click_timestamp: 0 };
    let mut ctx = SubmitClicks { user_state: before_u, global_state: before_g, user: key(2) };
    let r = submit_clicks(&mut ctx, 10_001, 1_000_000);
    assert_eq!(r, Err(ErrorCode::TooManyClicks));
    assert_eq!(ctx.user_state, before_u);
    assert_eq!(ctx.global_state, before_g);
}

#[test]
fn submit_10000_at_ceiling_succeeds_outside_window() {
    let g = GlobalState { total_clicks: 500, total_users: 1, authority: key(1) };
    let u = UserState { user: key(2), user_clicks: 500, last_click_timestamp: 0 };
    let mut ctx = SubmitClicks { user_state: u, global_state: g, user: key(2) };
    let r = submit_clicks(&mut ctx, 10_000, 60);
    assert_eq!(r, Ok(()));
    assert_eq!(ctx.user_state.user_clicks, 10_500);
    assert_eq!(ctx.global_state.total_clicks, 10_500);
    assert_eq!(ctx.user_state.last_click_timestamp, 60);
}

#[test]
fn first_submission_of_5000_right_after_creation_succeeds() {
    let mut cu = CreateUser { global_state: fresh_global(key(1)), user: key(2) };
    let u = create_user(&mut cu, 300).expect("creation must succeed");
    let mut ctx = SubmitClicks { user_state: u, global_state: cu.global_state, user: key(2) };
    let r = submit_clicks(&mut ctx, 5_000, 300);
    assert_eq!(r, Ok(()));
    assert_eq!(ctx.user_state.user_clicks, 5_000);
    assert_eq!(ctx.global_state.total_clicks, 5_000);
}

#[test]
fn recent_1500_is_rate_limited_but_1000_is_allowed() {
    let g = GlobalState { total_clicks: 200, total_users: 1, authority: key(1) };
    let u = UserState { user: key(2), user_clicks: 200, last_click_timestamp: 1_000 };
    let mut ctx = SubmitClicks { user_state: u, global_state: g, user: key(2) };

    let r = submit_clicks(&mut ctx, 1_500, 1_010);
    assert_eq!(r, Err(ErrorCode::RateLimited));
    assert_eq!(ctx.user_state, u);
    assert_eq!(ctx.global_state, g);

    let r = submit_clicks(&mut ctx, 1_000, 1_010);
    assert_eq!(r, Ok(()));
    assert_eq!(ctx.user_state.user_clicks, 1_200);
    assert_eq!(ctx.global_state.total_clicks, 1_200);
    assert_eq!(ctx.user_state.last_click_timestamp, 1_010);
}

#[test]
fn window_expired_after_120_seconds_allows_5000() {
    let g = GlobalState { total_clicks: 50, total_users: 1, authority: key(1) };
    let u = UserState { user: key(2), user_clicks: 50, last_click_timestamp: 1_000 };
    let mut ctx = SubmitClicks { user_state: u, global_state: g, user: key(2) };
    let r = submit_clicks(&mut ctx, 5_000, 1_120);
    assert_eq!(r, Ok(()));
    assert_eq!(ctx.user_state.user_clicks, 5_050);
    assert_eq!(ctx.global_state.total_clicks, 5_050);
}

#[test]
fn elapsed_exactly_60_seconds_is_outside_the_window() {
    let g = GlobalState { total_clicks: 1, total_users: 1, authority: key(1) };
    let u = UserState { user: key(2), user_clicks: 1, last_click_timestamp: 1_000 };
    let mut ctx = SubmitClicks { user_state: u, global_state: g, user: key(2) };
    let r = submit_clicks(&mut ctx, 2_000, 1_060);
    assert_eq!(r, Ok(()));
    assert_eq!(ctx.user_state.user_clicks, 2_001);
}

#[test]
fn backwards_clock_counts_as_recent() {
    let g = GlobalState { total_clicks: 1, total_users: 1, authority: key(1) };
    let u = UserState { user: key(2), user_clicks: 1, last_click_timestamp: 1_000 };
    let mut ctx = SubmitClicks { user_state: u, global_state: g, user: key(2) };
    let r = submit_clicks(&mut ctx, 1_001, 900);
    assert_eq!(r, Err(ErrorCode::RateLimited));
    assert_eq!(ctx.user_state, u);
    assert_eq!(ctx.global_state, g);
}

#[test]
fn user_counter_near_maximum_fails_overflow_and_rolls_back() {
    let g = GlobalState { total_clicks: 90, total_users: 1, authority: key(1) };
    let u = UserState { user: key(2), user_clicks: u64::MAX - 5, last_click_timestamp: 0 };
    let mut ctx = SubmitClicks { user_state: u, global_state: g, user: key(2) };
    let r = submit_clicks(&mut ctx, 10, 100);
    assert_eq!(r, Err(ErrorCode::Overflow));
    assert_eq!(ctx.user_state, u);
    assert_eq!(ctx.global_state, g);
}

#[test]
fn global_counter_near_maximum_fails_overflow_and_rolls_back_both_records() {
    let g = GlobalState { total_clicks: u64::MAX - 5, total_users: 1, authority: key(1) };
    let u = UserState { user: key(2), user_clicks: 40, last_click_timestamp: 0 };
    let mut ctx = SubmitClicks { user_state: u, global_state: g, user: key(2) };
    let r = submit_clicks(&mut ctx, 10, 100);
    assert_eq!(r, Err(ErrorCode::Overflow));
    assert_eq!(ctx.user_state, u);
    assert_eq!(ctx.global_state, g);
}

#[test]
fn total_clicks_equals_sum_of_user_clicks_over_a_sequence() {
    let mut global = fresh_global(key(0));
    let mut users: Vec<UserState> = Vec::new();

    for b in 1..=3u8 {
        let mut cu = CreateUser { global_state: global, user: key(b) };
        let u = create_user(&mut cu, 0).expect("creation must succeed");
        global = cu.global_state;
        users.push(u);
    }
    assert_eq!(global.total_users, 3);

    let batches: [(usize, u64, i64); 5] =
        [(0, 700, 10), (1, 10_000, 20), (0, 900, 30), (2, 1, 40), (1, 999, 50)];
    for (i, count, now) in batches {
        let mut ctx = SubmitClicks { user_state: users[i], global_state: global, user: key((i + 1) as u8) };
        submit_clicks(&mut ctx, count, now).expect("submission must succeed");
        users[i] = ctx.user_state;
        global = ctx.global_state;
    }

    let sum: u64 = users.iter().map(|u| u.user_clicks).sum();
    assert_eq!(global.total_clicks, sum);
    assert_eq!(global.total_clicks, 700 + 10_000 + 900 + 1 + 999);
}
