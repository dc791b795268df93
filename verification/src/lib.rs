//! A custody buffer pool for uniquely identified tokens.
//!
//! The pool holds tokens in escrow on behalf of an issuing process. It
//! tracks how many tokens are currently held (the total value locked),
//! enforces a role-based authorization model, and retains a deterministic
//! sample of newly minted tokens through its auto-deposit rule. All state
//! transitions are verified against the contracts in [`pool`].

pub mod errors;
pub mod events;
pub mod pool;
pub mod storage;

pub use errors::ContractError;
pub use errors::Error;
pub use events::Notification;
pub use pool::BufferPoolContract;
pub use storage::CustodyRecord;
pub use storage::Identity;
pub use storage::PoolConfig;
