//! On-chain state machine of a pooled, recurring-trade protocol.
//!
//! Users deposit funds into a shared pool, register recurring swap streams,
//! and an executor periodically triggers trades. The library holds the
//! verified core: the fixed binary layout of every persisted record, the
//! address-derivation policy that binds each record to its storage slot, the
//! linked-list ledger of users and streams, and the instruction dispatcher.
//! Runtime plumbing (account access, cross-program calls) lives outside.

pub mod error;
pub mod keys;
pub mod state;
pub mod instruction;
pub mod accounts;
pub mod cpi;
pub mod processor;
pub mod laws;
