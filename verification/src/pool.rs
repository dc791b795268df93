//! The buffer pool state machine: authorization, the custody-record
//! lifecycle, the total-value-locked invariant and the deterministic
//! auto-replenishment sampling rule.
//!
//! The execution environment invokes the operations strictly serially, so
//! each operation is a single synchronous transition of one `BufferPoolContract`
//! value. Every operation either commits all of its effects or, on any
//! failure, leaves the pool exactly as it found it.

use crate::errors::Error;
use crate::events::Notification;
use crate::storage::CustodyRecord;
use crate::storage::Identity;
use crate::storage::PoolConfig;
use std::collections::HashMap;
use vstd::prelude::*;

verus! {

broadcast use vstd::std_specs::hash::group_hash_axioms;

/// Is `p` a well-formed basis-point value, within 0 to 10000 inclusive?
pub open spec fn valid_percentage(p: i64) -> bool {
    0 <= p <= 10000
}

/// The deterministic auto-deposit sampling rule: with a positive
/// replenishment percentage, a token is selected for custody exactly when
/// its id is a multiple of `10000 / percentage` (integer division). A
/// percentage of zero selects nothing, so the rule never divides by zero.
/// The decision depends on the percentage and the token id alone, so any
/// observer can recompute it from public inputs.
pub open spec fn selects(percentage: i64, token_id: u32) -> bool {
    &&& 0 < percentage <= 10000
    &&& (token_id as int) % (10000int / (percentage as int)) == 0
}

/// Do two pool states carry the same configuration? Relates the
/// initialization flag, the three role identities and the replenishment
/// percentage; it says nothing of records or notifications.
pub open spec fn same_config(pre: BufferPoolContract, post: BufferPoolContract) -> bool {
    &&& post.is_initialized() == pre.is_initialized()
    &&& post.admin() == pre.admin()
    &&& post.governance() == pre.governance()
    &&& post.carbon_asset_contract() == pre.carbon_asset_contract()
    &&& post.replenishment_percentage() == pre.replenishment_percentage()
}

/// The buffer pool: the singleton configuration (absent until
/// `initialize`), the running total of custodied tokens, the custody
/// records keyed by token id, and the outbound append-only notification
/// log.
pub struct BufferPoolContract {
    config: Option<PoolConfig>,
    total_value_locked: i128,
    records: HashMap<u32, CustodyRecord>,
    notifications: Vec<Notification>,
}

impl BufferPoolContract {
    /// Whether `initialize` has committed. This transition is one-way: no
    /// operation ever removes the configuration.
    pub closed spec fn is_initialized(self) -> bool {
        self.config is Some
    }

    /// The identity allowed to perform manual deposits.
    pub closed spec fn admin(self) -> Identity {
        self.config->Some_0.admin
    }

    /// The identity allowed to approve withdrawals and change policy.
    pub closed spec fn governance(self) -> Identity {
        self.config->Some_0.governance
    }

    /// The sole issuing process allowed to trigger auto-deposit.
    pub closed spec fn carbon_asset_contract(self) -> Identity {
        self.config->Some_0.carbon_asset_contract
    }

    /// The current replenishment rate in basis points.
    pub closed spec fn replenishment_percentage(self) -> i64 {
        self.config->Some_0.replenishment_percentage
    }

    /// The running count of custodied tokens.
    pub closed spec fn tvl(self) -> int {
        self.total_value_locked as int
    }

    /// The live custody records, as a map from token id to record.
    pub closed spec fn records(self) -> Map<u32, CustodyRecord> {
        self.records@
    }

    /// The notifications emitted so far, oldest first.
    pub closed spec fn notifications(self) -> Seq<Notification> {
        self.notifications@
    }

    /// Well-formedness: the total value locked always equals the number of
    /// live custody records, each record is stored under its own token id,
    /// the configured percentage stays within 0 to 10000, and before
    /// initialization the pool is empty and silent.
    pub closed spec fn wf(self) -> bool {
        &&& self.total_value_locked == self.records@.len()
        &&& self.records@.len() <= usize::MAX
        &&& forall|t: u32| self.records@.contains_key(t) ==> (#[trigger] self.records@[t]).token_id == t
        &&& self.is_initialized() ==> valid_percentage(self.replenishment_percentage())
        &&& !self.is_initialized() ==> self.records@ == Map::<u32, CustodyRecord>::empty()
            && self.notifications@ == Seq::<Notification>::empty()
    }

    /// A fresh, uninitialized pool: no configuration, no records, no
    /// notifications, and a total value locked of zero.
    pub fn new() -> (r: BufferPoolContract)
        ensures
            r.wf(),
            !r.is_initialized(),
            r.tvl() == 0,
            r.records() == Map::<u32, CustodyRecord>::empty(),
            r.notifications() == Seq::<Notification>::empty(),
    {
        BufferPoolContract {
            config: None,
            total_value_locked: 0,
            records: HashMap::new(),
            notifications: Vec::new(),
        }
    }

    /// Creates the singleton configuration. Succeeds exactly once: a pool
    /// that is already initialized rejects every further call with
    /// `AlreadyExists`, and a percentage outside 0 to 10000 is rejected
    /// with `InvalidPercentage`. On success the given identities and
    /// percentage are persisted and the total value locked is zero. A
    /// failed call leaves the pool unchanged.
    pub fn initialize(
        &mut self,
        admin: Identity,
        governance: Identity,
        carbon_asset_contract: Identity,
        initial_percentage: i64,
    ) -> (r: Result<(), Error>)
        requires
            old(self).wf(),
        ensures
            final(self).wf(),
            old(self).is_initialized() ==> r == Err::<(), Error>(Error::AlreadyExists)
                && *final(self) == *old(self),
            !old(self).is_initialized() && !valid_percentage(initial_percentage) ==> r
                == Err::<(), Error>(Error::InvalidPercentage) && *final(self) == *old(self),
            !old(self).is_initialized() && valid_percentage(initial_percentage) ==> {
                &&& r == Ok::<(), Error>(())
                &&& final(self).is_initialized()
                &&& final(self).admin() == admin
                &&& final(self).governance() == governance
                &&& final(self).carbon_asset_contract() == carbon_asset_contract
                &&& final(self).replenishment_percentage() == initial_percentage
                &&& final(self).tvl() == 0
                &&& final(self).records() == Map::<u32, CustodyRecord>::empty()
                &&& final(self).notifications() == Seq::<Notification>::empty()
            },
    {
        if self.config.is_some() {
            return Err(Error::AlreadyExists);
        }
        if initial_percentage < 0 || initial_percentage > 10000 {
            return Err(Error::InvalidPercentage);
        }
        self.config = Some(
            PoolConfig {
                admin,
                governance,
                carbon_asset_contract,
                replenishment_percentage: initial_percentage,
            },
        );
        self.total_value_locked = 0;
        Ok(())
    }

    /// May `caller` perform a manual deposit? Only the admin and the
    /// issuing carbon asset contract may.
    pub open spec fn may_deposit(self, caller: Identity) -> bool {
        caller == self.admin() || caller == self.carbon_asset_contract()
    }

    /// Takes `token_id` into custody on behalf of `caller`. The caller
    /// must hold the admin or issuer role and the invocation must carry a
    /// valid authentication proof for that identity
    /// (`caller_authenticated`); otherwise the call fails with
    /// `Unauthorized`. A token already in custody is rejected with
    /// `AlreadyExists`. On success a custody record stamped with the
    /// ledger time `now` is created, the total value locked grows by one,
    /// and a deposit notification is appended. A failed call leaves the
    /// pool unchanged.
    pub fn deposit(
        &mut self,
        caller: Identity,
        caller_authenticated: bool,
        token_id: u32,
        project_id: String,
        now: u64,
    ) -> (r: Result<(), Error>)
        requires
            old(self).wf(),
            old(self).is_initialized(),
        ensures
            final(self).wf(),
            !(old(self).may_deposit(caller) && caller_authenticated) ==> r
                == Err::<(), Error>(Error::Unauthorized) && *final(self) == *old(self),
            old(self).may_deposit(caller) && caller_authenticated && old(
                self,
            ).records().contains_key(token_id) ==> r == Err::<(), Error>(Error::AlreadyExists)
                && *final(self) == *old(self),
            old(self).may_deposit(caller) && caller_authenticated && !old(
                self,
            ).records().contains_key(token_id) ==> {
                &&& r == Ok::<(), Error>(())
                &&& final(self).records() == old(self).records().insert(
                    token_id,
                    (CustodyRecord {
                        token_id,
                        deposited_at: now,
                        depositor: caller,
                        project_id: project_id,
                    }),
                )
                &&& final(self).tvl() == old(self).tvl() + 1
                &&& final(self).notifications() == old(self).notifications().push(
                    (Notification::Deposit { token_id, depositor: caller, project_id: project_id }),
                )
                &&& same_config(*old(self), *final(self))
            },
    {
        let cfg = self.config.as_ref().unwrap();
        if !(caller == cfg.admin || caller == cfg.carbon_asset_contract) {
            return Err(Error::Unauthorized);
        }
        if !caller_authenticated {
            return Err(Error::Unauthorized);
        }
        if self.records.contains_key(&token_id) {
            return Err(Error::AlreadyExists);
        }
        let record = CustodyRecord {
            token_id,
            deposited_at: now,
            depositor: caller,
            project_id: project_id.clone(),
        };
        self.records.insert(token_id, record);
        let count = self.records.len();
        self.total_value_locked = count as i128;
        self.notifications.push(Notification::Deposit { token_id, depositor: caller, project_id });
        Ok(())
    }

    /// Releases `token_id` from custody to replace the invalidated unit
    /// `target_invalidated_token`. Only the stored governance identity,
    /// with a valid authentication proof, may withdraw; otherwise the call
    /// fails with `Unauthorized`. A token with no custody record is
    /// rejected with `TokenNotFound`. On success the record is deleted,
    /// the total value locked shrinks by one, and a withdrawal
    /// notification is appended. The pool does not itself check that the
    /// target token really was invalidated; that is the governance
    /// caller's responsibility. A failed call leaves the pool unchanged.
    pub fn withdraw_to_replace(
        &mut self,
        governance_caller: Identity,
        caller_authenticated: bool,
        token_id: u32,
        target_invalidated_token: u32,
    ) -> (r: Result<(), Error>)
        requires
            old(self).wf(),
            old(self).is_initialized(),
        ensures
            final(self).wf(),
            !(governance_caller == old(self).governance() && caller_authenticated) ==> r
                == Err::<(), Error>(Error::Unauthorized) && *final(self) == *old(self),
            governance_caller == old(self).governance() && caller_authenticated && !old(
                self,
            ).records().contains_key(token_id) ==> r == Err::<(), Error>(Error::TokenNotFound)
                && *final(self) == *old(self),
            governance_caller == old(self).governance() && caller_authenticated && old(
                self,
            ).records().contains_key(token_id) ==> {
                &&& r == Ok::<(), Error>(())
                &&& final(self).records() == old(self).records().remove(token_id)
                &&& final(self).tvl() == old(self).tvl() - 1
                &&& final(self).notifications() == old(self).notifications().push(
                    (Notification::Withdraw {
                        token_id,
                        target_invalidated_token,
                        governance_caller,
                    }),
                )
                &&& same_config(*old(self), *final(self))
            },
    {
        let cfg = self.config.as_ref().unwrap();
        if governance_caller != cfg.governance {
            return Err(Error::Unauthorized);
        }
        if !caller_authenticated {
            return Err(Error::Unauthorized);
        }
        if !self.records.contains_key(&token_id) {
            return Err(Error::TokenNotFound);
        }
        self.records.remove(&token_id);
        let count = self.records.len();
        self.total_value_locked = count as i128;
        self.notifications.push(
            Notification::Withdraw { token_id, target_invalidated_token, governance_caller },
        );
        Ok(())
    }

    /// Offered one newly minted token, decides deterministically whether
    /// to retain it in custody. Only the stored carbon asset contract,
    /// with a valid authentication proof, may call this; otherwise the
    /// call fails with `Unauthorized`. The selection rule is
    /// [`selects`]: a function of the current percentage and the token id
    /// alone, so repeated evaluation under the same configuration always
    /// yields the same decision, and a percentage of zero never selects.
    /// A token that is not selected leaves the pool unchanged and returns
    /// `false`. A selected token that is already in custody is rejected
    /// with `AlreadyExists`. A selected fresh token is recorded exactly as
    /// a manual deposit would record it (with the caller as depositor and
    /// ledger time `now`), grows the total value locked by one, appends an
    /// auto-deposit notification and returns `true`. `total_minted` is
    /// carried for observers and plays no part in the decision.
    pub fn auto_deposit(
        &mut self,
        carbon_contract_caller: Identity,
        caller_authenticated: bool,
        token_id: u32,
        project_id: String,
        _total_minted: u32,
        now: u64,
    ) -> (r: Result<bool, Error>)
        requires
            old(self).wf(),
            old(self).is_initialized(),
        ensures
            final(self).wf(),
            !(carbon_contract_caller == old(self).carbon_asset_contract() && caller_authenticated)
                ==> r == Err::<bool, Error>(Error::Unauthorized) && *final(self) == *old(self),
            carbon_contract_caller == old(self).carbon_asset_contract() && caller_authenticated
                && !selects(old(self).replenishment_percentage(), token_id) ==> r
                == Ok::<bool, Error>(false) && *final(self) == *old(self),
            carbon_contract_caller == old(self).carbon_asset_contract() && caller_authenticated
                && selects(old(self).replenishment_percentage(), token_id) && old(
                self,
            ).records().contains_key(token_id) ==> r == Err::<bool, Error>(Error::AlreadyExists)
                && *final(self) == *old(self),
            carbon_contract_caller == old(self).carbon_asset_contract() && caller_authenticated
                && selects(old(self).replenishment_percentage(), token_id) && !old(
                self,
            ).records().contains_key(token_id) ==> {
                &&& r == Ok::<bool, Error>(true)
                &&& final(self).records() == old(self).records().insert(
                    token_id,
                    (CustodyRecord {
                        token_id,
                        deposited_at: now,
                        depositor: carbon_contract_caller,
                        project_id: project_id,
                    }),
                )
                &&& final(self).tvl() == old(self).tvl() + 1
                &&& final(self).notifications() == old(self).notifications().push(
                    (Notification::AutoDeposit { token_id, project_id: project_id }),
                )
                &&& same_config(*old(self), *final(self))
            },
    {
        let cfg = self.config.as_ref().unwrap();
        if carbon_contract_caller != cfg.carbon_asset_contract {
            return Err(Error::Unauthorized);
        }
        if !caller_authenticated {
            return Err(Error::Unauthorized);
        }
        let percentage = cfg.replenishment_percentage;
        if percentage == 0 {
            // A replenishment rate of zero retains nothing; skipping the
            // modulo computation keeps the rule total.
            return Ok(false);
        }
        proof {
            let p = percentage as int;
            assert(1 <= 10000int / p <= 10000) by (nonlinear_arith)
                requires
                    1 <= p <= 10000,
            ;
        }
        let modulo = (10000u64 / (percentage as u64)) as u32;
        if token_id % modulo != 0 {
            return Ok(false);
        }
        if self.records.contains_key(&token_id) {
            return Err(Error::AlreadyExists);
        }
        let record = CustodyRecord {
            token_id,
            deposited_at: now,
            depositor: carbon_contract_caller,
            project_id: project_id.clone(),
        };
        self.records.insert(token_id, record);
        let count = self.records.len();
        self.total_value_locked = count as i128;
        self.notifications.push(Notification::AutoDeposit { token_id, project_id });
        Ok(true)
    }

    /// Hands the governance role to `new_governance`. Only the current
    /// governance identity, with a valid authentication proof, may do
    /// this; otherwise the call fails with `Unauthorized` and leaves the
    /// pool unchanged. On success only the stored governance identity
    /// changes; no record of the prior identity is retained.
    pub fn set_governance_address(
        &mut self,
        current_governance: Identity,
        caller_authenticated: bool,
        new_governance: Identity,
    ) -> (r: Result<(), Error>)
        requires
            old(self).wf(),
            old(self).is_initialized(),
        ensures
            final(self).wf(),
            !(current_governance == old(self).governance() && caller_authenticated) ==> r
                == Err::<(), Error>(Error::Unauthorized) && *final(self) == *old(self),
            current_governance == old(self).governance() && caller_authenticated ==> {
                &&& r == Ok::<(), Error>(())
                &&& final(self).is_initialized()
                &&& final(self).governance() == new_governance
                &&& final(self).admin() == old(self).admin()
                &&& final(self).carbon_asset_contract() == old(self).carbon_asset_contract()
                &&& final(self).replenishment_percentage() == old(self).replenishment_percentage()
                &&& final(self).tvl() == old(self).tvl()
                &&& final(self).records() == old(self).records()
                &&& final(self).notifications() == old(self).notifications()
            },
    {
        let cfg = self.config.as_ref().unwrap();
        if current_governance != cfg.governance {
            return Err(Error::Unauthorized);
        }
        if !caller_authenticated {
            return Err(Error::Unauthorized);
        }
        self.config = Some(
            PoolConfig {
                admin: cfg.admin,
                governance: new_governance,
                carbon_asset_contract: cfg.carbon_asset_contract,
                replenishment_percentage: cfg.replenishment_percentage,
            },
        );
        Ok(())
    }

    /// Sets the replenishment rate. Only the stored governance identity,
    /// with a valid authentication proof, may change policy; otherwise the
    /// call fails with `Unauthorized`. A percentage outside 0 to 10000 is
    /// rejected with `InvalidPercentage`. On success only the stored
    /// percentage changes. A failed call leaves the pool unchanged.
    pub fn set_replenishment_rate(
        &mut self,
        governance: Identity,
        caller_authenticated: bool,
        new_percentage: i64,
    ) -> (r: Result<(), Error>)
        requires
            old(self).wf(),
            old(self).is_initialized(),
        ensures
            final(self).wf(),
            !(governance == old(self).governance() && caller_authenticated) ==> r
                == Err::<(), Error>(Error::Unauthorized) && *final(self) == *old(self),
            governance == old(self).governance() && caller_authenticated && !valid_percentage(
                new_percentage,
            ) ==> r == Err::<(), Error>(Error::InvalidPercentage) && *final(self) == *old(self),
            governance == old(self).governance() && caller_authenticated && valid_percentage(
                new_percentage,
            ) ==> {
                &&& r == Ok::<(), Error>(())
                &&& final(self).is_initialized()
                &&& final(self).replenishment_percentage() == new_percentage
                &&& final(self).admin() == old(self).admin()
                &&& final(self).governance() == old(self).governance()
                &&& final(self).carbon_asset_contract() == old(self).carbon_asset_contract()
                &&& final(self).tvl() == old(self).tvl()
                &&& final(self).records() == old(self).records()
                &&& final(self).notifications() == old(self).notifications()
            },
    {
        let cfg = self.config.as_ref().unwrap();
        if governance != cfg.governance {
            return Err(Error::Unauthorized);
        }
        if !caller_authenticated {
            return Err(Error::Unauthorized);
        }
        if new_percentage < 0 || new_percentage > 10000 {
            return Err(Error::InvalidPercentage);
        }
        self.config = Some(
            PoolConfig {
                admin: cfg.admin,
                governance: cfg.governance,
                carbon_asset_contract: cfg.carbon_asset_contract,
                replenishment_percentage: new_percentage,
            },
        );
        Ok(())
    }

    /// The running count of custodied tokens.
    pub fn get_total_value_locked(&self) -> (r: i128)
        ensures
            r == self.tvl(),
    {
        self.total_value_locked
    }

    /// The custody record held for `token_id`, or `None` if the token is
    /// not in the pool.
    pub fn get_custody_record(&self, token_id: u32) -> (r: Option<CustodyRecord>)
        ensures
            match r {
                Some(rec) => self.records().contains_key(token_id) && rec
                    == self.records()[token_id],
                None => !self.records().contains_key(token_id),
            },
    {
        match self.records.get(&token_id) {
            Some(rec) => Some(rec.clone()),
            None => None,
        }
    }

    /// Whether a custody record currently exists for `token_id`.
    pub fn is_token_in_pool(&self, token_id: u32) -> (r: bool)
        ensures
            r == self.records().contains_key(token_id),
    {
        self.records.contains_key(&token_id)
    }

    /// The append-only notification log, oldest first. The pool only ever
    /// pushes onto this log; delivery to observers is the caller's
    /// concern and never affects pool state.
    pub fn notification_log(&self) -> (r: &Vec<Notification>)
        ensures
            r@ == self.notifications(),
    {
        &self.notifications
    }
}

/// The total-value-locked invariant: in every well-formed pool, the total
/// value locked equals the number of live custody records. Every operation
/// of the pool both requires and re-establishes well-formedness, so the
/// equality holds after each committed call.
pub proof fn lemma_tvl_counts_records(pool: BufferPoolContract)
    requires
        pool.wf(),
    ensures
        pool.tvl() == pool.records().len(),
        pool.tvl() >= 0,
{
}

/// Every stored custody record is keyed by its own token id: in a
/// well-formed pool, looking a token up never yields a record for a
/// different token.
pub proof fn lemma_records_keyed_by_token(pool: BufferPoolContract, token_id: u32)
    requires
        pool.wf(),
        pool.records().contains_key(token_id),
    ensures
        pool.records()[token_id].token_id == token_id,
{
}

/// The auto-deposit decision is deterministic: it is a function of the
/// replenishment percentage and the token id alone, so two pools
/// configured with the same percentage select exactly the same tokens,
/// however their records, notifications or other roles differ.
pub proof fn lemma_selection_deterministic(
    p1: BufferPoolContract,
    p2: BufferPoolContract,
    token_id: u32,
)
    requires
        p1.replenishment_percentage() == p2.replenishment_percentage(),
    ensures
        selects(p1.replenishment_percentage(), token_id) == selects(
            p2.replenishment_percentage(),
            token_id,
        ),
{
}

/// A replenishment percentage of zero never selects: under it,
/// auto-deposit deterministically declines every token instead of faulting
/// on the modulo computation.
pub proof fn lemma_zero_percentage_never_selects(token_id: u32)
    ensures
        !selects(0, token_id),
{
}

} // verus!
