use vstd::prelude::*;

use crate::errors::ErrorCode;
use crate::state::GlobalState;
use crate::state::Pubkey;
use crate::state::UserAccount;

verus! {

/// The sum of `f` over a sequence of user records.
pub open spec fn sum_of(s: Seq<UserAccount>, f: spec_fn(UserAccount) -> int) -> int
    decreases s.len(),
{
    if s.len() == 0 {
        0
    } else {
        sum_of(s.drop_last(), f) + f(s.last())
    }
}

/// The sum of all contributed volume over a sequence of user records.
pub open spec fn sum_bandwidth(s: Seq<UserAccount>) -> int {
    sum_of(s, |u: UserAccount| u.total_bandwidth_mb as int)
}

/// The sum of all earned tokens over a sequence of user records.
pub open spec fn sum_earned(s: Seq<UserAccount>) -> int {
    sum_of(s, |u: UserAccount| u.tokens_earned as int)
}

/// Appending a record adds its summand to the sum.
pub proof fn lemma_sum_push(s: Seq<UserAccount>, f: spec_fn(UserAccount) -> int, v: UserAccount)
    ensures
        sum_of(s.push(v), f) == sum_of(s, f) + f(v),
{
    assert(s.push(v).drop_last() =~= s);
    assert(s.push(v).last() == v);
}

/// Replacing the record at `i` moves the sum by the difference of the
/// summands.
pub proof fn lemma_sum_update(
    s: Seq<UserAccount>,
    f: spec_fn(UserAccount) -> int,
    i: int,
    v: UserAccount,
)
    requires
        0 <= i < s.len(),
    ensures
        sum_of(s.update(i, v), f) == sum_of(s, f) - f(s[i]) + f(v),
    decreases s.len(),
{
    if i == s.len() - 1 {
        assert(s.update(i, v).drop_last() =~= s.drop_last());
        assert(s.update(i, v).last() == v);
    } else {
        lemma_sum_update(s.drop_last(), f, i, v);
        assert(s.update(i, v).drop_last() =~= s.drop_last().update(i, v));
        assert(s.update(i, v).last() == s.last());
        assert(s.drop_last()[i] == s[i]);
    }
}

/// The registry: the single aggregate record (absent until initialization)
/// and the per-user records, resolved by owner identity.
#[derive(Debug)]
pub struct Registry {
    /// The singleton aggregate; `None` until `initialize` runs.
    pub global: Option<GlobalState>,
    /// One record per registered participant.
    pub users: Vec<UserAccount>,
}

impl Registry {
    /// No two records share an owner: identity resolves at most one record.
    pub open spec fn owners_unique(self) -> bool {
        forall|i: int, j: int|
            0 <= i < j < self.users@.len() ==> self.users@[i].owner != self.users@[j].owner
    }

    /// Every record keeps its own invariant (claimed never exceeds earned).
    pub open spec fn users_wf(self) -> bool {
        forall|i: int| 0 <= i < self.users@.len() ==> self.users@[i].wf()
    }

    /// The aggregate's totals agree with the user records: the user count
    /// is the number of records, and the bandwidth and minted-token totals
    /// are the sums over all records. Before initialization no records
    /// exist.
    pub open spec fn aggregate_consistent(self) -> bool {
        match self.global {
            Some(g) => {
                &&& g.wf()
                &&& g.total_users == self.users@.len()
                &&& g.total_bandwidth_mb == sum_bandwidth(self.users@)
                &&& g.total_tokens_minted == sum_earned(self.users@)
            },
            None => self.users@.len() == 0,
        }
    }

    /// Well-formedness: unique owners, well-formed records, and an
    /// aggregate consistent with them.
    pub open spec fn wf(self) -> bool {
        self.owners_unique() && self.users_wf() && self.aggregate_consistent()
    }

    /// Whether a record exists for identity `id`.
    pub open spec fn has_user(self, id: Pubkey) -> bool {
        exists|i: int| 0 <= i < self.users@.len() && self.users@[i].owner == id
    }

    /// The index of the record owned by `id` (meaningful when `has_user`
    /// holds; unique when owners are unique).
    pub open spec fn user_index(self, id: Pubkey) -> int {
        choose|i: int| 0 <= i < self.users@.len() && self.users@[i].owner == id
    }

    /// The record owned by `id` (meaningful when `has_user` holds).
    pub open spec fn user_of(self, id: Pubkey) -> UserAccount {
        self.users@[self.user_index(id)]
    }

    /// An empty, uninitialized registry.
    pub fn new() -> (r: Registry)
        ensures
            r.wf(),
            r.global is None,
            r.users@.len() == 0,
    {
        Registry { global: None, users: Vec::new() }
    }

    /// The outcome initialize owes: creation of the aggregate, refused once
    /// one exists.
    pub open spec fn spec_initialize(self, authority: Pubkey) -> Result<(), ErrorCode> {
        if self.global is Some {
            Err(ErrorCode::AlreadyExists)
        } else {
            Ok(())
        }
    }

    /// Create the singleton aggregate exactly once: zeroed totals, default
    /// rates, `authority` as its authority. A second initialization fails
    /// with `AlreadyExists` and changes nothing.
    pub fn initialize(&mut self, authority: Pubkey) -> (r: Result<(), ErrorCode>)
        requires
            old(self).wf(),
        ensures
            final(self).wf(),
            r == old(self).spec_initialize(authority),
            match r {
                Ok(_) => final(self).global == Some(GlobalState::spec_init(authority))
                    && final(self).users@ == old(self).users@,
                Err(_) => *final(self) == *old(self),
            },
    {
        match self.global {
            Some(_) => Err(ErrorCode::AlreadyExists),
            None => {
                self.global = Some(GlobalState::init(authority));
                Ok(())
            },
        }
    }

    /// With unique owners, any index whose record is owned by `id` is the
    /// index that `user_index` denotes.
    pub proof fn lemma_user_index_is(self, id: Pubkey, i: int)
        requires
            self.owners_unique(),
            0 <= i < self.users@.len(),
            self.users@[i].owner == id,
        ensures
            self.has_user(id),
            self.user_index(id) == i,
    {
        assert(self.has_user(id));
        let c = self.user_index(id);
        assert(0 <= c < self.users@.len() && self.users@[c].owner == id);
        if c < i {
            assert(self.users@[c].owner != self.users@[i].owner);
        } else if i < c {
            assert(self.users@[i].owner != self.users@[c].owner);
        }
    }

    /// The outcome register_user owes: a fresh record bound to the caller's
    /// identity, refused before initialization, for an identity that
    /// already has a record, or when the user count cannot grow.
    pub open spec fn spec_register(self, caller: Pubkey) -> Result<(), ErrorCode> {
        match self.global {
            None => Err(ErrorCode::NotFound),
            Some(g) => if self.has_user(caller) {
                Err(ErrorCode::AlreadyExists)
            } else if g.total_users == u64::MAX {
                Err(ErrorCode::Overflow)
            } else {
                Ok(())
            },
        }
    }

    /// Register the caller: create a record with zeroed counters,
    /// `registration_time = now`, active, the default reputation, and count
    /// it in the aggregate. Fails with `AlreadyExists`, and changes
    /// nothing, if the identity already has a record.
    pub fn register_user(&mut self, caller: Pubkey, now: i64) -> (r: Result<(), ErrorCode>)
        requires
            old(self).wf(),
        ensures
            final(self).wf(),
            r == old(self).spec_register(caller),
            match r {
                Ok(_) => {
                    let g = old(self).global->0;
                    &&& final(self).users@ == old(self).users@.push(
                        UserAccount::spec_new(caller, now),
                    )
                    &&& final(self).global == Some(
                        (GlobalState { total_users: (g.total_users + 1) as u64, ..g }),
                    )
                },
                Err(_) => *final(self) == *old(self),
            },
    {
        let g = match self.global {
            Some(g) => g,
            None => {
                return Err(ErrorCode::NotFound);
            },
        };
        match self.find_user(caller) {
            Some(_) => Err(ErrorCode::AlreadyExists),
            None => {
                let new_total_users = match g.total_users.checked_add(1) {
                    Some(v) => v,
                    None => {
                        return Err(ErrorCode::Overflow);
                    },
                };
                let record = UserAccount::new(caller, now);
                proof {
                    lemma_sum_push(
                        self.users@,
                        |u: UserAccount| u.total_bandwidth_mb as int,
                        record,
                    );
                    lemma_sum_push(self.users@, |u: UserAccount| u.tokens_earned as int, record);
                }
                self.users.push(record);
                self.global = Some(GlobalState { total_users: new_total_users, ..g });
                Ok(())
            },
        }
    }

    /// The outcome contribute owes at the registry: resolve the caller's
    /// record — absent aggregate or record is `NotFound` — then the ledger
    /// engine's outcome on it.
    pub open spec fn spec_contribute(
        self,
        caller: Pubkey,
        bandwidth_gb: u64,
        bandwidth_mb: u64,
    ) -> Result<u64, ErrorCode> {
        match self.global {
            None => Err(ErrorCode::NotFound),
            Some(g) => if !self.has_user(caller) {
                Err(ErrorCode::NotFound)
            } else {
                crate::ledger::contribute_result(
                    self.user_of(caller),
                    g,
                    caller,
                    bandwidth_gb,
                    bandwidth_mb,
                )
            },
        }
    }

    /// Report contributed volume for the caller's record: resolve it, then
    /// apply the ledger engine's contribute transition to the record and
    /// the aggregate as one unit. Returns the tokens minted; on any failure
    /// the registry is left exactly as it was.
    pub fn contribute_bandwidth(
        &mut self,
        caller: Pubkey,
        bandwidth_gb: u64,
        bandwidth_mb: u64,
        now: i64,
    ) -> (r: Result<u64, ErrorCode>)
        requires
            old(self).wf(),
        ensures
            final(self).wf(),
            r == old(self).spec_contribute(caller, bandwidth_gb, bandwidth_mb),
            match r {
                Ok(minted) => {
                    let i = old(self).user_index(caller);
                    let total_mb = crate::ledger::spec_total_mb(bandwidth_gb, bandwidth_mb) as u64;
                    &&& final(self).users@ == old(self).users@.update(
                        i,
                        crate::ledger::contribute_user_after(
                            old(self).users@[i],
                            total_mb,
                            minted,
                            now,
                        ),
                    )
                    &&& final(self).global == Some(
                        crate::ledger::contribute_global_after(
                            old(self).global->0,
                            total_mb,
                            minted,
                        ),
                    )
                },
                Err(_) => *final(self) == *old(self),
            },
    {
        let g0 = match self.global {
            Some(g) => g,
            None => {
                return Err(ErrorCode::NotFound);
            },
        };
        let idx = match self.find_user(caller) {
            Some(i) => i,
            None => {
                return Err(ErrorCode::NotFound);
            },
        };
        proof {
            self.lemma_user_index_is(caller, idx as int);
        }
        let mut u = self.users[idx];
        let mut g = g0;
        match crate::ledger::contribute(&mut u, &mut g, caller, bandwidth_gb, bandwidth_mb, now) {
            Ok(minted) => {
                proof {
                    lemma_sum_update(
                        self.users@,
                        |x: UserAccount| x.total_bandwidth_mb as int,
                        idx as int,
                        u,
                    );
                    lemma_sum_update(
                        self.users@,
                        |x: UserAccount| x.tokens_earned as int,
                        idx as int,
                        u,
                    );
                }
                self.users[idx] = u;
                self.global = Some(g);
                Ok(minted)
            },
            Err(e) => Err(e),
        }
    }

    /// The outcome claim owes at the registry: resolve the caller's record
    /// — absent aggregate or record is `NotFound` — then the ledger
    /// engine's outcome on it.
    pub open spec fn spec_claim(self, caller: Pubkey, bw_amount: u64) -> Result<u64, ErrorCode> {
        match self.global {
            None => Err(ErrorCode::NotFound),
            Some(g) => if !self.has_user(caller) {
                Err(ErrorCode::NotFound)
            } else {
                crate::ledger::claim_result(self.user_of(caller), g, caller, bw_amount)
            },
        }
    }

    /// Redeem earned tokens for the caller's record: resolve it, then apply
    /// the ledger engine's claim transition. Returns the settlement amount
    /// owed; the aggregate is read, never mutated; on any failure the
    /// registry is left exactly as it was.
    pub fn claim_rewards(&mut self, caller: Pubkey, bw_amount: u64) -> (r: Result<u64, ErrorCode>)
        requires
            old(self).wf(),
        ensures
            final(self).wf(),
            r == old(self).spec_claim(caller, bw_amount),
            match r {
                Ok(_) => {
                    let i = old(self).user_index(caller);
                    &&& final(self).users@ == old(self).users@.update(
                        i,
                        crate::ledger::claim_user_after(old(self).users@[i], bw_amount),
                    )
                    &&& final(self).global == old(self).global
                },
                Err(_) => *final(self) == *old(self),
            },
    {
        let g = match self.global {
            Some(g) => g,
            None => {
                return Err(ErrorCode::NotFound);
            },
        };
        let idx = match self.find_user(caller) {
            Some(i) => i,
            None => {
                return Err(ErrorCode::NotFound);
            },
        };
        proof {
            self.lemma_user_index_is(caller, idx as int);
        }
        let mut u = self.users[idx];
        match crate::ledger::claim(&mut u, &g, caller, bw_amount) {
            Ok(settlement) => {
                proof {
                    lemma_sum_update(
                        self.users@,
                        |x: UserAccount| x.total_bandwidth_mb as int,
                        idx as int,
                        u,
                    );
                    lemma_sum_update(
                        self.users@,
                        |x: UserAccount| x.tokens_earned as int,
                        idx as int,
                        u,
                    );
                }
                self.users[idx] = u;
                Ok(settlement)
            },
            Err(e) => Err(e),
        }
    }

    /// Find the index of the record owned by `id`, if any.
    fn find_user(&self, id: Pubkey) -> (r: Option<usize>)
        ensures
            match r {
                Some(i) => i < self.users@.len() && self.users@[i as int].owner == id,
                None => !self.has_user(id),
            },
    {
        let n = self.users.len();
        let mut k: usize = 0;
        while k < n
            invariant
                n == self.users@.len(),
                k <= n,
                forall|j: int| 0 <= j < k ==> self.users@[j].owner != id,
            decreases n - k,
        {
            if self.users[k].owner == id {
                return Some(k);
            }
            k = k + 1;
        }
        None
    }
}

} // verus!
