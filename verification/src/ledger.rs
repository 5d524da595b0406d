use vstd::prelude::*;

use crate::errors::ErrorCode;
use crate::state::GlobalState;
use crate::state::Pubkey;
use crate::state::UserAccount;
use crate::state::MB_PER_GB;
use crate::state::USDC_SCALE;

verus! {

/// Total reported volume in megabytes: a mixed gigabyte/megabyte report
/// normalized to a single megabyte quantity.
pub open spec fn spec_total_mb(bandwidth_gb: u64, bandwidth_mb: u64) -> int {
    bandwidth_gb * MB_PER_GB + bandwidth_mb
}

/// Tokens minted for `total_mb` megabytes at a rate of `tokens_per_gb`
/// tokens per full gigabyte: fixed-point, rounding down.
pub open spec fn spec_tokens_minted(total_mb: int, tokens_per_gb: u64) -> int {
    total_mb * tokens_per_gb / (MB_PER_GB as int)
}

/// Settlement-currency units owed for redeeming `bw_amount` tokens at
/// `usdc_per_token` (scaled by [`USDC_SCALE`]): fixed-point, rounding down.
pub open spec fn spec_settlement(bw_amount: u64, usdc_per_token: u64) -> int {
    bw_amount * usdc_per_token / (USDC_SCALE as int)
}

/// The outcome contribute owes for the given record, aggregate and inputs:
/// the checks in order — authorization, activity gate, non-zero volume —
/// then the minted amount, unless some counter would overflow.
pub open spec fn contribute_result(
    user: UserAccount,
    global: GlobalState,
    caller: Pubkey,
    bandwidth_gb: u64,
    bandwidth_mb: u64,
) -> Result<u64, ErrorCode> {
    let total_mb = spec_total_mb(bandwidth_gb, bandwidth_mb);
    let minted = spec_tokens_minted(total_mb, global.tokens_per_gb);
    if user.owner != caller {
        Err(ErrorCode::Unauthorized)
    } else if !user.is_active {
        Err(ErrorCode::UserInactive)
    } else if bandwidth_gb == 0 && bandwidth_mb == 0 {
        Err(ErrorCode::InvalidBandwidth)
    } else if total_mb > u64::MAX || minted > u64::MAX
        || user.total_bandwidth_mb + total_mb > u64::MAX
        || user.tokens_earned + minted > u64::MAX
        || global.total_bandwidth_mb + total_mb > u64::MAX
        || global.total_tokens_minted + minted > u64::MAX {
        Err(ErrorCode::Overflow)
    } else {
        Ok(minted as u64)
    }
}

/// The user record after a successful contribution of `total_mb` megabytes
/// that minted `minted` tokens at time `now`.
pub open spec fn contribute_user_after(
    user: UserAccount,
    total_mb: u64,
    minted: u64,
    now: i64,
) -> UserAccount {
    UserAccount {
        total_bandwidth_mb: (user.total_bandwidth_mb + total_mb) as u64,
        tokens_earned: (user.tokens_earned + minted) as u64,
        last_contribution_time: now,
        ..user
    }
}

/// The aggregate after a successful contribution of `total_mb` megabytes
/// that minted `minted` tokens.
pub open spec fn contribute_global_after(
    global: GlobalState,
    total_mb: u64,
    minted: u64,
) -> GlobalState {
    GlobalState {
        total_bandwidth_mb: (global.total_bandwidth_mb + total_mb) as u64,
        total_tokens_minted: (global.total_tokens_minted + minted) as u64,
        ..global
    }
}

/// Report contributed volume: validate, normalize the gigabyte/megabyte
/// report to megabytes, mint tokens at the aggregate's rate, and apply all
/// increments as one unit. Every increment is overflow-checked; on any
/// failure both records are left exactly as they were.
pub fn contribute(
    user: &mut UserAccount,
    global: &mut GlobalState,
    caller: Pubkey,
    bandwidth_gb: u64,
    bandwidth_mb: u64,
    now: i64,
) -> (r: Result<u64, ErrorCode>)
    ensures
        r == contribute_result(*old(user), *old(global), caller, bandwidth_gb, bandwidth_mb),
        match r {
            Ok(minted) => {
                let total_mb = spec_total_mb(bandwidth_gb, bandwidth_mb) as u64;
                &&& *final(user) == contribute_user_after(*old(user), total_mb, minted, now)
                &&& *final(global) == contribute_global_after(*old(global), total_mb, minted)
            },
            Err(_) => *final(user) == *old(user) && *final(global) == *old(global),
        },
        old(user).wf() ==> final(user).wf(),
{
    if user.owner != caller {
        return Err(ErrorCode::Unauthorized);
    }
    if !user.is_active {
        return Err(ErrorCode::UserInactive);
    }
    if bandwidth_gb == 0 && bandwidth_mb == 0 {
        return Err(ErrorCode::InvalidBandwidth);
    }

    let gb_as_mb = match bandwidth_gb.checked_mul(MB_PER_GB) {
        Some(p) => p,
        None => {
            return Err(ErrorCode::Overflow);
        },
    };
    let total_mb = match gb_as_mb.checked_add(bandwidth_mb) {
        Some(t) => t,
        None => {
            return Err(ErrorCode::Overflow);
        },
    };

    proof {
        vstd::arithmetic::mul::lemma_mul_upper_bound(
            total_mb as int,
            u64::MAX as int,
            global.tokens_per_gb as int,
            u64::MAX as int,
        );
    }
    let minted_wide: u128 = (total_mb as u128) * (global.tokens_per_gb as u128) / (MB_PER_GB
        as u128);
    proof {
        assert(minted_wide == spec_tokens_minted(total_mb as int, global.tokens_per_gb));
    }
    if minted_wide > u64::MAX as u128 {
        return Err(ErrorCode::Overflow);
    }
    let minted: u64 = minted_wide as u64;

    let new_user_mb = match user.total_bandwidth_mb.checked_add(total_mb) {
        Some(v) => v,
        None => {
            return Err(ErrorCode::Overflow);
        },
    };
    let new_user_earned = match user.tokens_earned.checked_add(minted) {
        Some(v) => v,
        None => {
            return Err(ErrorCode::Overflow);
        },
    };
    let new_global_mb = match global.total_bandwidth_mb.checked_add(total_mb) {
        Some(v) => v,
        None => {
            return Err(ErrorCode::Overflow);
        },
    };
    let new_global_minted = match global.total_tokens_minted.checked_add(minted) {
        Some(v) => v,
        None => {
            return Err(ErrorCode::Overflow);
        },
    };

    user.total_bandwidth_mb = new_user_mb;
    user.tokens_earned = new_user_earned;
    user.last_contribution_time = now;
    global.total_bandwidth_mb = new_global_mb;
    global.total_tokens_minted = new_global_minted;
    Ok(minted)
}

/// The outcome claim owes for the given record, aggregate and amount: the
/// checks in order — authorization, activity gate, non-zero amount, the
/// earned-balance guard — then the settlement amount, unless it overflows
/// or rounds to zero.
pub open spec fn claim_result(
    user: UserAccount,
    global: GlobalState,
    caller: Pubkey,
    bw_amount: u64,
) -> Result<u64, ErrorCode> {
    let settlement = spec_settlement(bw_amount, global.usdc_per_token);
    if user.owner != caller {
        Err(ErrorCode::Unauthorized)
    } else if !user.is_active {
        Err(ErrorCode::UserInactive)
    } else if bw_amount == 0 {
        Err(ErrorCode::InvalidAmount)
    } else if user.tokens_claimed + bw_amount > user.tokens_earned {
        Err(ErrorCode::InsufficientBalance)
    } else if settlement > u64::MAX {
        Err(ErrorCode::Overflow)
    } else if settlement == 0 {
        Err(ErrorCode::InvalidAmount)
    } else {
        Ok(settlement as u64)
    }
}

/// The user record after a successful claim of `bw_amount` tokens.
pub open spec fn claim_user_after(user: UserAccount, bw_amount: u64) -> UserAccount {
    UserAccount { tokens_claimed: (user.tokens_claimed + bw_amount) as u64, ..user }
}

/// Redeem earned tokens: validate, refuse a claim beyond the earned
/// balance, convert the amount to settlement units at the aggregate's rate,
/// and record the claim. The settlement amount is computed in 128-bit
/// arithmetic; the aggregate is read, never mutated. On any failure the
/// record is left exactly as it was.
pub fn claim(
    user: &mut UserAccount,
    global: &GlobalState,
    caller: Pubkey,
    bw_amount: u64,
) -> (r: Result<u64, ErrorCode>)
    ensures
        r == claim_result(*old(user), *global, caller, bw_amount),
        match r {
            Ok(_) => *final(user) == claim_user_after(*old(user), bw_amount) && final(user).wf(),
            Err(_) => *final(user) == *old(user),
        },
{
    if user.owner != caller {
        return Err(ErrorCode::Unauthorized);
    }
    if !user.is_active {
        return Err(ErrorCode::UserInactive);
    }
    if bw_amount == 0 {
        return Err(ErrorCode::InvalidAmount);
    }
    let new_claimed = match user.tokens_claimed.checked_add(bw_amount) {
        Some(v) => v,
        None => {
            return Err(ErrorCode::InsufficientBalance);
        },
    };
    if new_claimed > user.tokens_earned {
        return Err(ErrorCode::InsufficientBalance);
    }

    proof {
        vstd::arithmetic::mul::lemma_mul_upper_bound(
            bw_amount as int,
            u64::MAX as int,
            global.usdc_per_token as int,
            u64::MAX as int,
        );
    }
    let settlement_wide: u128 = (bw_amount as u128) * (global.usdc_per_token as u128) / (
    USDC_SCALE as u128);
    proof {
        assert(settlement_wide == spec_settlement(bw_amount, global.usdc_per_token));
    }
    if settlement_wide > u64::MAX as u128 {
        return Err(ErrorCode::Overflow);
    }
    let settlement: u64 = settlement_wide as u64;
    if settlement == 0 {
        return Err(ErrorCode::InvalidAmount);
    }

    user.tokens_claimed = new_claimed;
    Ok(settlement)
}

} // verus!
