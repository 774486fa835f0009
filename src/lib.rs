//! Confidential key hand-off for unique collectibles: the transfer state
//! machine, its equality-proof verifiers (direct and delegated), and the
//! record validation they rest on.

pub mod bytes;
pub mod configure;
pub mod crypto;
pub mod delegated;
pub mod equality;
pub mod error;
pub mod instruction;
pub mod layout;
pub mod royalties;
pub mod state;
pub mod transfer;
