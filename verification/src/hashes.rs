//! The 32-byte Blake2b digest used as a chain-position hash (a "locator"),
//! and the one place where the outside hash implementation is called.

use vstd::prelude::*;

verus! {

/// What the Blake2b hash function (32-byte output) returns for an input.
/// The digest depends on the input bytes alone; its definition is the
/// outside implementation's.
pub uninterp spec fn blake2b_of(input: Seq<u8>) -> Seq<u8>;

/// Relies on blake2's `Blake2b` with 32-byte output: the digest is a pure
/// function of the input bytes.
#[verifier::external_body]
pub(crate) fn blake2b_digest(input: &Vec<u8>) -> (r: [u8; 32])
    ensures
        r@ == blake2b_of(input@),
{
    let mut hasher = <blake2::Blake2b<blake2::digest::consts::U32> as blake2::Digest>::new();
    blake2::Digest::update(&mut hasher, input.as_slice());
    let out = blake2::Digest::finalize(hasher);
    out.into()
}

/// A 32-byte Blake2b digest: the identity of a block or transaction, and
/// the chain-position hash carried in block requests.
#[derive(Clone, Copy, Debug)]
pub struct Blake2bHash {
    bytes: [u8; 32],
}

impl View for Blake2bHash {
    type V = Seq<u8>;

    closed spec fn view(&self) -> Seq<u8> {
        self.bytes@
    }
}

impl Blake2bHash {
    pub fn new(bytes: [u8; 32]) -> (r: Blake2bHash)
        ensures
            r@ == bytes@,
            r@.len() == 32,
    {
        Blake2bHash { bytes }
    }

    /// Hash arbitrary bytes down to a digest.
    pub fn compute(input: &Vec<u8>) -> (r: Blake2bHash)
        ensures
            r@ == blake2b_of(input@),
    {
        Blake2bHash { bytes: blake2b_digest(input) }
    }

    pub fn as_bytes(&self) -> (r: &[u8])
        ensures
            r@ == self@,
            r@.len() == 32,
    {
        self.bytes.as_slice()
    }
}

impl PartialEq for Blake2bHash {
    fn eq(&self, other: &Blake2bHash) -> (r: bool) {
        let mut i: usize = 0;
        while i < 32
            invariant
                i <= 32,
                forall|j: int| 0 <= j < i ==> self.bytes@[j] == other.bytes@[j],
            decreases 32 - i,
        {
            if self.bytes[i] != other.bytes[i] {
                return false;
            }
            i += 1;
        }
        proof {
            assert(self.bytes@ =~= other.bytes@);
        }
        true
    }
}

impl Eq for Blake2bHash {
}

impl vstd::std_specs::cmp::PartialEqSpecImpl for Blake2bHash {
    open spec fn obeys_eq_spec() -> bool {
        true
    }

    open spec fn eq_spec(&self, other: &Blake2bHash) -> bool {
        self@ == other@
    }
}

} // verus!
