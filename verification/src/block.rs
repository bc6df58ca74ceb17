//! The slice of a block this subsystem reads. Block contents and their
//! validation belong to the chain engine; here a block is relayed and
//! correlated by its identifying hash, and a block on the wire is a set of
//! up to three optional components.

use vstd::prelude::*;
use crate::hashes::Blake2bHash;

verus! {

/// A chain block as this subsystem sees it: an identity to relay and
/// request by.
#[derive(Clone, Copy, Debug)]
pub struct Block {
    pub hash: Blake2bHash,
}

/// The partial block data a peer may send in answer to a block request:
/// any subset of header, justification and extrinsics, each an opaque run
/// of wire bytes.
#[derive(Clone, Debug)]
pub struct BlockComponents {
    pub header: Option<Vec<u8>>,
    pub justification: Option<Vec<u8>>,
    pub extrinsics: Option<Vec<u8>>,
}

} // verus!
