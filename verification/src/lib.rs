//! A minimal peer-to-peer ledger node core: a hash-linked chain of
//! text-payload blocks, a validator that appends candidate blocks,
//! a request/response synchronization protocol, and the decision
//! logic of the node's event loop.

pub mod chain;
pub mod digest;
pub mod encoding;
pub mod events;
pub mod protocol;
