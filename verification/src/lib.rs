//! Blockchain synchronization and consensus establishment for a peer-to-peer
//! node: a per-peer request/response multiplexer, a one-shot response cell,
//! a message fan-out table, and the quorum state machine that decides when
//! local consensus is established.

pub mod agent;
pub mod bls;
pub mod block;
pub mod consensus;
pub mod distributor;
pub mod hashes;
pub mod id_map;
pub mod messages;
pub mod response;
pub mod subscription;
pub mod sync;
pub mod transaction;
pub mod vrf;
