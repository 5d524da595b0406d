use vstd::prelude::*;

verus! {

/// Fee parameter set at initialization, in basis points (15.00%).
pub const DEFAULT_PLATFORM_FEE_BPS: u16 = 1500;

/// Reward-issuance rate set at initialization: tokens minted per full
/// gigabyte contributed.
pub const DEFAULT_TOKENS_PER_GB: u64 = 1_000_000;

/// Redemption rate set at initialization: settlement-currency units per
/// token, scaled by [`USDC_SCALE`] (0.95 settlement units per token).
pub const DEFAULT_USDC_PER_TOKEN: u64 = 950_000;

/// Reputation assigned to a freshly registered user.
pub const DEFAULT_REPUTATION: u16 = 100;

/// Upper bound of the basis-point range (100%).
pub const MAX_FEE_BPS: u16 = 10_000;

/// Megabytes per gigabyte.
pub const MB_PER_GB: u64 = 1024;

/// Fixed-point scale of the `usdc_per_token` rate.
pub const USDC_SCALE: u64 = 1_000_000;

/// A 32-byte participant identity, held as two 128-bit halves so that
/// equality is plain field equality.
#[derive(Clone, Copy, Debug, PartialEq, Eq, Structural)]
pub struct Pubkey {
    pub hi: u128,
    pub lo: u128,
}

/// The singleton aggregate record: running totals across all users and the
/// rate/fee configuration, created once at initialization.
#[derive(Clone, Copy, Debug, PartialEq, Eq, Structural)]
pub struct GlobalState {
    /// Identity that initialized the system; never reassigned.
    pub authority: Pubkey,
    /// Sum of all contributed volume across all users, in megabytes.
    pub total_bandwidth_mb: u64,
    /// Count of registered users.
    pub total_users: u64,
    /// Sum of all tokens ever credited to any user.
    pub total_tokens_minted: u64,
    /// Fee parameter in basis points (0..=10000); reserved, read by no
    /// transition in scope.
    pub platform_fee_bps: u16,
    /// Tokens minted per full gigabyte contributed.
    pub tokens_per_gb: u64,
    /// Settlement units per token, scaled by [`USDC_SCALE`].
    pub usdc_per_token: u64,
}

impl GlobalState {
    /// The fee parameter stays within the basis-point range.
    pub open spec fn wf(self) -> bool {
        self.platform_fee_bps <= MAX_FEE_BPS
    }

    /// The aggregate as initialization creates it: zeroed totals, default
    /// rates, the caller as authority.
    pub open spec fn spec_init(authority: Pubkey) -> GlobalState {
        GlobalState {
            authority,
            total_bandwidth_mb: 0,
            total_users: 0,
            total_tokens_minted: 0,
            platform_fee_bps: DEFAULT_PLATFORM_FEE_BPS,
            tokens_per_gb: DEFAULT_TOKENS_PER_GB,
            usdc_per_token: DEFAULT_USDC_PER_TOKEN,
        }
    }

    /// Build the freshly initialized aggregate for `authority`.
    pub fn init(authority: Pubkey) -> (g: GlobalState)
        ensures
            g == GlobalState::spec_init(authority),
            g.wf(),
    {
        GlobalState {
            authority,
            total_bandwidth_mb: 0,
            total_users: 0,
            total_tokens_minted: 0,
            platform_fee_bps: DEFAULT_PLATFORM_FEE_BPS,
            tokens_per_gb: DEFAULT_TOKENS_PER_GB,
            usdc_per_token: DEFAULT_USDC_PER_TOKEN,
        }
    }
}

/// One participant's record: cumulative counters, audit timestamps, and the
/// activity gate.
#[derive(Clone, Copy, Debug, PartialEq, Eq, Structural)]
pub struct UserAccount {
    /// Identity this record belongs to; immutable after creation.
    pub owner: Pubkey,
    /// Cumulative volume this user has reported, in megabytes.
    pub total_bandwidth_mb: u64,
    /// Cumulative tokens credited; never decreases.
    pub tokens_earned: u64,
    /// Cumulative tokens redeemed; never decreases, never exceeds
    /// `tokens_earned`.
    pub tokens_claimed: u64,
    /// When the record was created.
    pub registration_time: i64,
    /// When the user last contributed (zero until the first contribution).
    pub last_contribution_time: i64,
    /// Whether contribute/claim may mutate this record.
    pub is_active: bool,
    /// Auxiliary score; set at registration, not mutated in scope.
    pub reputation_score: u16,
}

impl UserAccount {
    /// A user never has more tokens claimed than earned.
    pub open spec fn wf(self) -> bool {
        self.tokens_claimed <= self.tokens_earned
    }

    /// The record as registration creates it: zeroed counters, active, the
    /// default reputation.
    pub open spec fn spec_new(owner: Pubkey, now: i64) -> UserAccount {
        UserAccount {
            owner,
            total_bandwidth_mb: 0,
            tokens_earned: 0,
            tokens_claimed: 0,
            registration_time: now,
            last_contribution_time: 0,
            is_active: true,
            reputation_score: DEFAULT_REPUTATION,
        }
    }

    /// Build a fresh record for `owner`, registered at time `now`.
    pub fn new(owner: Pubkey, now: i64) -> (u: UserAccount)
        ensures
            u == UserAccount::spec_new(owner, now),
            u.wf(),
    {
        UserAccount {
            owner,
            total_bandwidth_mb: 0,
            tokens_earned: 0,
            tokens_claimed: 0,
            registration_time: now,
            last_contribution_time: 0,
            is_active: true,
            reputation_score: DEFAULT_REPUTATION,
        }
    }
}

} // verus!
