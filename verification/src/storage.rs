//! The persisted data of the buffer pool: identities, custody records and
//! the singleton pool configuration.

use vstd::prelude::*;

verus! {

/// An identity known to the execution environment. The pool only ever
/// compares identities for equality; the host ledger assigns each account
/// a distinct key, so equal keys mean the same identity.
#[derive(Clone, Copy, Debug, Hash, PartialEq, Eq, Structural)]
pub struct Identity {
    pub key: u64,
}

/// Durable proof that one token is currently held by the pool: the token,
/// when it was deposited, who deposited it and the originating project.
/// Records are immutable between creation and deletion.
pub struct CustodyRecord {
    /// Unique key of the custodied token.
    pub token_id: u32,
    /// Ledger time at which the deposit committed.
    pub deposited_at: u64,
    /// The identity that performed the deposit.
    pub depositor: Identity,
    /// Free-form identifier of the originating project.
    pub project_id: String,
}

impl Clone for CustodyRecord {
    fn clone(&self) -> (r: Self)
        ensures
            r == *self,
    {
        CustodyRecord {
            token_id: self.token_id,
            deposited_at: self.deposited_at,
            depositor: self.depositor,
            project_id: self.project_id.clone(),
        }
    }
}

/// The singleton configuration of the pool, created exactly once by
/// `initialize`. `admin` and `carbon_asset_contract` are immutable after
/// initialization; `governance` may be replaced, but only by itself, and
/// the replenishment percentage only by governance.
pub struct PoolConfig {
    /// Identity allowed to perform manual deposits.
    pub admin: Identity,
    /// Identity allowed to approve withdrawals and change policy.
    pub governance: Identity,
    /// The sole issuing process allowed to trigger auto-deposit and,
    /// alongside the admin, manual deposit.
    pub carbon_asset_contract: Identity,
    /// Target retention rate in basis points, within 0 to 10000 inclusive.
    pub replenishment_percentage: i64,
}

} // verus!
