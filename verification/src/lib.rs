//! Node core of a blockchain client: hashing and address primitives, the
//! versioned consensus-parameter table, genesis bookkeeping, the canonical
//! MessagePack encoding, and the state machine of a priority-aware
//! dedicated task executor.

pub mod basics;
pub mod block;
pub mod consensus;
pub mod crypto;
pub mod execpool;
pub mod genesis;
pub mod local_config;
pub mod msgp;
pub mod node;
pub mod payset;
pub mod protocol;
pub mod vecmap;
