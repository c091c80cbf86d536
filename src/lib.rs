//! Transport and replication core of a distributed consensus framework:
//! binary RPC framing and dispatch, a connection pool, a replicated value
//! state machine and the membership protocol of a node.

pub mod ident;
pub mod wire;
pub mod server;
pub mod pool;
pub mod value;
pub mod member;
