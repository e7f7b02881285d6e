//! Smart-contract execution layer of a ledger node.
//!
//! Account holders publish short Lua scripts ("contracts") addressed by a
//! public key; other transactions invoke named entry points of a contract,
//! which mutate the contract's key/value state and may move balance out of
//! the contract's own account through a single host capability.

pub mod assoc;
pub mod blockchain;
pub mod crypto;
pub mod currency;
pub mod lvm;
pub mod storage;
