use vstd::prelude::*;

use crate::errors::ErrorCode;
use crate::ledger::claim_result;
use crate::ledger::contribute_result;
use crate::registry::sum_bandwidth;
use crate::registry::sum_earned;
use crate::registry::Registry;
use crate::state::GlobalState;
use crate::state::Pubkey;
use crate::state::UserAccount;

verus! {

/// Conservation of totals: in a well-formed, initialized registry — which
/// every sequence of operations starting from `Registry::new` preserves —
/// the aggregate's bandwidth total equals the sum of every user's
/// bandwidth, and its minted-token total equals the sum of every user's
/// earned tokens.
pub proof fn lemma_aggregate_conservation(r: Registry)
    requires
        r.wf(),
        r.global is Some,
    ensures
        r.global->0.total_bandwidth_mb == sum_bandwidth(r.users@),
        r.global->0.total_tokens_minted == sum_earned(r.users@),
        r.global->0.total_users == r.users@.len(),
{
}

/// No user ever has more tokens claimed than earned: the bound holds for
/// every record of a well-formed registry, and every operation preserves
/// well-formedness.
pub proof fn lemma_claimed_never_exceeds_earned(r: Registry)
    requires
        r.wf(),
    ensures
        forall|i: int|
            0 <= i < r.users@.len() ==> r.users@[i].tokens_claimed <= r.users@[i].tokens_earned,
{
}

/// A zero-volume report is always rejected as `InvalidBandwidth` when the
/// caller owns an active record; the contribute contract then leaves both
/// records unchanged.
pub proof fn lemma_zero_bandwidth_rejected(user: UserAccount, global: GlobalState, caller: Pubkey)
    requires
        user.owner == caller,
        user.is_active,
    ensures
        contribute_result(user, global, caller, 0, 0) == Err::<u64, ErrorCode>(
            ErrorCode::InvalidBandwidth,
        ),
{
}

/// A zero-amount claim is always rejected as `InvalidAmount` when the
/// caller owns an active record; the claim contract then leaves the record
/// unchanged.
pub proof fn lemma_zero_claim_rejected(user: UserAccount, global: GlobalState, caller: Pubkey)
    requires
        user.owner == caller,
        user.is_active,
    ensures
        claim_result(user, global, caller, 0) == Err::<u64, ErrorCode>(ErrorCode::InvalidAmount),
{
}

/// Registering an identity that already has a record always fails with
/// `AlreadyExists`; the register contract then leaves the registry — its
/// user count included — unchanged.
pub proof fn lemma_register_duplicate_rejected(r: Registry, caller: Pubkey)
    requires
        r.wf(),
        r.has_user(caller),
    ensures
        r.spec_register(caller) == Err::<(), ErrorCode>(ErrorCode::AlreadyExists),
{
    let i = r.user_index(caller);
    assert(0 <= i < r.users@.len() && r.users@[i].owner == caller);
}

/// Contribute and claim on an inactive record always fail with
/// `UserInactive`, whatever the reported amounts; the contracts then leave
/// every record unchanged.
pub proof fn lemma_inactive_rejected(
    user: UserAccount,
    global: GlobalState,
    caller: Pubkey,
    bandwidth_gb: u64,
    bandwidth_mb: u64,
    bw_amount: u64,
)
    requires
        user.owner == caller,
        !user.is_active,
    ensures
        contribute_result(user, global, caller, bandwidth_gb, bandwidth_mb) == Err::<u64, ErrorCode>(
            ErrorCode::UserInactive,
        ),
        claim_result(user, global, caller, bw_amount) == Err::<u64, ErrorCode>(
            ErrorCode::UserInactive,
        ),
{
}

/// A second initialization always fails with `AlreadyExists`; the
/// initialize contract then leaves the first aggregate's values unchanged.
pub proof fn lemma_reinitialize_rejected(r: Registry, authority: Pubkey)
    requires
        r.global is Some,
    ensures
        r.spec_initialize(authority) == Err::<(), ErrorCode>(ErrorCode::AlreadyExists),
{
}

} // verus!
