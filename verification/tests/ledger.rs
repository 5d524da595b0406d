use bandwidth_bazaar::errors::ErrorCode;
use bandwidth_bazaar::ledger;
use bandwidth_bazaar::state::GlobalState;
use bandwidth_bazaar::state::Pubkey;
use bandwidth_bazaar::state::UserAccount;

fn key(n: u128) -> Pubkey {
    Pubkey { hi: n, lo: n + 1 }
}

fn active_user(owner: Pubkey) -> UserAccount {
    UserAccount::new(owner, 10)
}

fn default_global() -> GlobalState {
    GlobalState::init(key(0))
}

#[test]
fn contribute_happy_path() {
    let mut u = active_user(key(1));
    let mut g = default_global();
    let r = ledger::contribute(&mut u, &mut g, key(1), 3, 0, 77);
    assert_eq!(r, Ok(3_000_000));
    assert_eq!(u.total_bandwidth_mb, 3072);
    assert_eq!(u.tokens_earned, 3_000_000);
    assert_eq!(u.tokens_claimed, 0);
    assert_eq!(u.last_contribution_time, 77);
    assert_eq!(g.total_bandwidth_mb, 3072);
    assert_eq!(g.total_tokens_minted, 3_000_000);
    assert_eq!(g.total_users, 0);
}

#[test]
fn contribute_unauthorized() {
    let mut u = active_user(key(1));
    let mut g = default_global();
    let before = u;
    let r = ledger::contribute(&mut u, &mut g, key(2), 1, 0, 77);
    assert_eq!(r, Err(ErrorCode::Unauthorized));
    assert_eq!(u, before);
    assert_eq!(g, default_global());
}

#[test]
fn contribute_authorization_checked_before_activity() {
    let mut u = active_user(key(1));
    u.is_active = false;
    let mut g = default_global();
    let r = ledger::contribute(&mut u, &mut g, key(2), 1, 0, 77);
    assert_eq!(r, Err(ErrorCode::Unauthorized));
}

#[test]
fn contribute_inactive_checked_before_bandwidth() {
    let mut u = active_user(key(1));
    u.is_active = false;
    let mut g = default_global();
    let r = ledger::contribute(&mut u, &mut g, key(1), 0, 0, 77);
    assert_eq!(r, Err(ErrorCode::UserInactive));
}

#[test]
fn contribute_volume_overflow() {
    let mut u = active_user(key(1));
    let mut g = default_global();
    let before = u;
    let r = ledger::contribute(&mut u, &mut g, key(1), u64::MAX, 0, 77);
    assert_eq!(r, Err(ErrorCode::Overflow));
    assert_eq!(u, before);
    assert_eq!(g, default_global());
}

#[test]
fn contribute_minted_overflow() {
    let mut u = active_user(key(1));
    let mut g = default_global();
    g.tokens_per_gb = u64::MAX;
    // 2 GB at u64::MAX tokens per GB mints twice u64::MAX: over the range
    let r = ledger::contribute(&mut u, &mut g, key(1), 2, 0, 77);
    assert_eq!(r, Err(ErrorCode::Overflow));
    assert_eq!(u.tokens_earned, 0);
}

#[test]
fn contribute_counter_overflow() {
    let mut u = active_user(key(1));
    u.total_bandwidth_mb = u64::MAX;
    let mut g = default_global();
    let before = u;
    let r = ledger::contribute(&mut u, &mut g, key(1), 0, 1, 77);
    assert_eq!(r, Err(ErrorCode::Overflow));
    assert_eq!(u, before);
    assert_eq!(g, default_global());
}

#[test]
fn claim_happy_path() {
    let mut u = active_user(key(1));
    u.tokens_earned = 2_000_000;
    let g = default_global();
    let r = ledger::claim(&mut u, &g, key(1), 2_000_000);
    assert_eq!(r, Ok(1_900_000));
    assert_eq!(u.tokens_claimed, 2_000_000);
    assert_eq!(u.tokens_earned, 2_000_000);
}

#[test]
fn claim_unauthorized() {
    let mut u = active_user(key(1));
    u.tokens_earned = 2_000_000;
    let g = default_global();
    let before = u;
    let r = ledger::claim(&mut u, &g, key(2), 1_000_000);
    assert_eq!(r, Err(ErrorCode::Unauthorized));
    assert_eq!(u, before);
}

#[test]
fn claim_inactive() {
    let mut u = active_user(key(1));
    u.tokens_earned = 2_000_000;
    u.is_active = false;
    let g = default_global();
    let r = ledger::claim(&mut u, &g, key(1), 1_000_000);
    assert_eq!(r, Err(ErrorCode::UserInactive));
    assert_eq!(u.tokens_claimed, 0);
}

#[test]
fn claim_settlement_overflow() {
    let mut u = active_user(key(1));
    u.tokens_earned = u64::MAX;
    let mut g = default_global();
    g.usdc_per_token = u64::MAX;
    let before = u;
    let r = ledger::claim(&mut u, &g, key(1), u64::MAX);
    assert_eq!(r, Err(ErrorCode::Overflow));
    assert_eq!(u, before);
}

#[test]
fn claim_beyond_earned() {
    let mut u = active_user(key(1));
    u.tokens_earned = 500;
    u.tokens_claimed = 400;
    let g = default_global();
    let r = ledger::claim(&mut u, &g, key(1), 101);
    assert_eq!(r, Err(ErrorCode::InsufficientBalance));
    assert_eq!(u.tokens_claimed, 400);
}

#[test]
fn claim_exactly_earned_succeeds() {
    let mut u = active_user(key(1));
    u.tokens_earned = 2_000_000;
    u.tokens_claimed = 1_000_000;
    let g = default_global();
    let r = ledger::claim(&mut u, &g, key(1), 1_000_000);
    assert_eq!(r, Ok(950_000));
    assert_eq!(u.tokens_claimed, 2_000_000);
}

#[test]
fn claim_settlement_rounds_down() {
    let mut u = active_user(key(1));
    u.tokens_earned = 1_000_000;
    let g = default_global();
    // 3 * 950_000 / 1_000_000 = 2.85, floored to 2
    let r = ledger::claim(&mut u, &g, key(1), 3);
    assert_eq!(r, Ok(2));
    assert_eq!(u.tokens_claimed, 3);
}
