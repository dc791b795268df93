//! Notifications the pool hands to off-chain observers.

use crate::storage::Identity;
use vstd::prelude::*;

verus! {

/// A structured notification appended by a successfully committed
/// operation. Notifications are observational only: they are written after
/// the state transition and never influence subsequent pool behaviour.
pub enum Notification {
    /// A manual deposit committed.
    Deposit { token_id: u32, depositor: Identity, project_id: String },
    /// A withdrawal committed, releasing one custodied unit to replace an
    /// invalidated one.
    Withdraw { token_id: u32, target_invalidated_token: u32, governance_caller: Identity },
    /// An auto-deposit selected the token and took it into custody.
    AutoDeposit { token_id: u32, project_id: String },
}

} // verus!
