//! The verifiable-random-function seed and the deterministic random stream
//! drawn from it: each draw hashes the use case, the round, a counter and
//! the seed's signature, so every node derives the same stream from the
//! same seed. Signing the next seed and verifying a seed are signature
//! operations and belong to the cryptography engine.

use vstd::prelude::*;
use crate::bls::CompressedSignature;
use crate::hashes::{blake2b_of, Blake2bHash};

verus! {

/// Why a seed was rejected: its signature did not verify against the
/// previous seed, or it could not even be read as a signature.
#[derive(Clone, Copy, Debug, PartialEq, Eq, Structural)]
pub enum VrfError {
    Forged,
    InvalidSignature,
}

/// What a random draw is for. Each use case salts the stream differently,
/// so draws for one purpose say nothing about draws for another.
#[derive(Clone, Copy, Debug, PartialEq, Eq, Structural, Hash)]
pub enum VrfUseCase {
    Seed,
    ValidatorSelection,
    SlotSelection,
    RewardDistribution,
}

/// The byte that salts the hash stream for a use case.
pub open spec fn use_case_code_spec(use_case: VrfUseCase) -> u8 {
    match use_case {
        VrfUseCase::Seed => 1,
        VrfUseCase::ValidatorSelection => 2,
        VrfUseCase::SlotSelection => 3,
        VrfUseCase::RewardDistribution => 4,
    }
}

fn use_case_code(use_case: VrfUseCase) -> (r: u8)
    ensures
        r == use_case_code_spec(use_case),
{
    match use_case {
        VrfUseCase::Seed => 1,
        VrfUseCase::ValidatorSelection => 2,
        VrfUseCase::SlotSelection => 3,
        VrfUseCase::RewardDistribution => 4,
    }
}

/// A value's big-endian bytes, most significant first.
pub open spec fn be_bytes_u32(x: u32) -> Seq<u8> {
    seq![
        (x / 0x1000000) as u8,
        ((x / 0x10000) % 0x100) as u8,
        ((x / 0x100) % 0x100) as u8,
        (x % 0x100) as u8,
    ]
}

/// A value's big-endian bytes, most significant first.
pub open spec fn be_bytes_u64(x: u64) -> Seq<u8> {
    seq![
        (x / 0x100000000000000) as u8,
        ((x / 0x1000000000000) % 0x100) as u8,
        ((x / 0x10000000000) % 0x100) as u8,
        ((x / 0x100000000) % 0x100) as u8,
        ((x / 0x1000000) % 0x100) as u8,
        ((x / 0x10000) % 0x100) as u8,
        ((x / 0x100) % 0x100) as u8,
        (x % 0x100) as u8,
    ]
}

fn push_be_u32(out: &mut Vec<u8>, x: u32)
    ensures
        final(out)@ == old(out)@ + be_bytes_u32(x),
{
    out.push((x / 0x1000000) as u8);
    out.push(((x / 0x10000) % 0x100) as u8);
    out.push(((x / 0x100) % 0x100) as u8);
    out.push((x % 0x100) as u8);
    proof {
        assert(out@ =~= old(out)@ + be_bytes_u32(x));
    }
}

fn push_be_u64(out: &mut Vec<u8>, x: u64)
    ensures
        final(out)@ == old(out)@ + be_bytes_u64(x),
{
    out.push((x / 0x100000000000000) as u8);
    out.push(((x / 0x1000000000000) % 0x100) as u8);
    out.push(((x / 0x10000000000) % 0x100) as u8);
    out.push(((x / 0x100000000) % 0x100) as u8);
    out.push(((x / 0x1000000) % 0x100) as u8);
    out.push(((x / 0x10000) % 0x100) as u8);
    out.push(((x / 0x100) % 0x100) as u8);
    out.push((x % 0x100) as u8);
    proof {
        assert(out@ =~= old(out)@ + be_bytes_u64(x));
    }
}

/// The value of a run of eight big-endian bytes.
pub open spec fn be_u64_of(bytes: Seq<u8>) -> int
    recommends
        bytes.len() >= 8,
{
    bytes[0] * 0x100000000000000 + bytes[1] * 0x1000000000000 + bytes[2] * 0x10000000000 + bytes[3]
        * 0x100000000 + bytes[4] * 0x1000000 + bytes[5] * 0x10000 + bytes[6] * 0x100 + bytes[7]
}

/// What one draw of the random stream hashes: the use-case byte, the round
/// and the counter in big-endian form, then the seed signature's bytes.
pub open spec fn vrf_hash_input(
    use_case: VrfUseCase,
    round: u32,
    counter: u64,
    signature: Seq<u8>,
) -> Seq<u8> {
    seq![use_case_code_spec(use_case)] + be_bytes_u32(round) + be_bytes_u64(counter) + signature
}

/// A seed of the randomness beacon: the previous block producer's signature
/// over the previous seed.
#[derive(Clone, Copy, Debug, PartialEq, Eq)]
pub struct VrfSeed {
    pub signature: CompressedSignature,
}

impl VrfSeed {
    /// The digest that the producer of the next seed signs, and that a
    /// verifier checks the next seed's signature against: the seed use-case
    /// prefix followed by this seed's signature. Producing and checking the
    /// signature itself is the cryptography engine's work.
    pub fn next_seed_digest(&self) -> (r: Blake2bHash)
        ensures
            r@ == blake2b_of(
                seq![use_case_code_spec(VrfUseCase::Seed)] + self.signature@,
            ),
    {
        let mut input: Vec<u8> = Vec::new();
        input.push(use_case_code(VrfUseCase::Seed));
        let signature_bytes = self.signature.as_bytes();
        let ghost prefix = input@;
        let mut i: usize = 0;
        while i < signature_bytes.len()
            invariant
                i <= signature_bytes@.len(),
                input@ == prefix + signature_bytes@.take(i as int),
            decreases signature_bytes@.len() - i,
        {
            input.push(signature_bytes[i]);
            proof {
                assert(input@ =~= prefix + signature_bytes@.take(i + 1));
            }
            i += 1;
        }
        proof {
            assert(signature_bytes@.take(signature_bytes@.len() as int) =~= signature_bytes@);
            assert(input@ =~= seq![use_case_code_spec(VrfUseCase::Seed)] + self.signature@);
        }
        Blake2bHash::compute(&input)
    }

    /// The deterministic random stream this seed yields for one use case
    /// and round.
    pub fn rng(&self, use_case: VrfUseCase, round: u32) -> (r: VrfRng)
        ensures
            r.signature == self.signature,
            r.use_case == use_case,
            r.round == round,
            r.counter == 0,
    {
        VrfRng::new(&self.signature, use_case, round)
    }
}

impl From<CompressedSignature> for VrfSeed {
    fn from(signature: CompressedSignature) -> (r: VrfSeed) {
        VrfSeed { signature }
    }
}

impl vstd::std_specs::convert::FromSpecImpl<CompressedSignature> for VrfSeed {
    open spec fn obeys_from_spec() -> bool {
        true
    }

    open spec fn from_spec(signature: CompressedSignature) -> VrfSeed {
        VrfSeed { signature }
    }
}

/// The random stream drawn from a seed: each draw hashes the use case, the
/// round, the draw counter and the seed's signature, then advances the
/// counter.
pub struct VrfRng {
    pub signature: CompressedSignature,
    pub use_case: VrfUseCase,
    pub round: u32,
    pub counter: u64,
}

impl VrfRng {
    pub fn new(signature: &CompressedSignature, use_case: VrfUseCase, round: u32) -> (r: VrfRng)
        ensures
            r.signature == *signature,
            r.use_case == use_case,
            r.round == round,
            r.counter == 0,
    {
        VrfRng { signature: *signature, use_case, round, counter: 0 }
    }

    /// The next hash of the stream: the digest of this draw's input, with
    /// the counter advanced for the draw after it.
    pub fn next_hash(&mut self) -> (r: Blake2bHash)
        requires
            old(self).counter < u64::MAX,
        ensures
            r@ == blake2b_of(
                vrf_hash_input(
                    old(self).use_case,
                    old(self).round,
                    old(self).counter,
                    old(self).signature@,
                ),
            ),
            final(self).counter == old(self).counter + 1,
            final(self).signature == old(self).signature,
            final(self).use_case == old(self).use_case,
            final(self).round == old(self).round,
    {
        // Hash the use-case prefix, round, counter and signature.
        let mut input: Vec<u8> = Vec::new();
        input.push(use_case_code(self.use_case));
        push_be_u32(&mut input, self.round);
        push_be_u64(&mut input, self.counter);
        let signature_bytes = self.signature.as_bytes();
        let mut i: usize = 0;
        let ghost before_signature = input@;
        while i < signature_bytes.len()
            invariant
                i <= signature_bytes@.len(),
                input@ == before_signature + signature_bytes@.take(i as int),
            decreases signature_bytes@.len() - i,
        {
            input.push(signature_bytes[i]);
            proof {
                assert(input@ =~= before_signature + signature_bytes@.take(i + 1));
            }
            i += 1;
        }
        proof {
            assert(signature_bytes@.take(signature_bytes@.len() as int) =~= signature_bytes@);
            assert(input@ =~= vrf_hash_input(
                self.use_case,
                self.round,
                self.counter,
                self.signature@,
            ));
        }

        // Advance the counter.
        self.counter = self.counter + 1;

        Blake2bHash::compute(&input)
    }

    /// The next value of the stream: the first eight bytes of the next
    /// hash, read big-endian.
    pub fn next_u64(&mut self) -> (r: u64)
        requires
            old(self).counter < u64::MAX,
        ensures
            r == be_u64_of(
                blake2b_of(
                    vrf_hash_input(
                        old(self).use_case,
                        old(self).round,
                        old(self).counter,
                        old(self).signature@,
                    ),
                ),
            ),
            final(self).counter == old(self).counter + 1,
            final(self).signature == old(self).signature,
            final(self).use_case == old(self).use_case,
            final(self).round == old(self).round,
    {
        let hash = self.next_hash();
        let bytes = hash.as_bytes();
        let r = (bytes[0] as u64) * 0x100000000000000 + (bytes[1] as u64) * 0x1000000000000 + (
        bytes[2] as u64) * 0x10000000000 + (bytes[3] as u64) * 0x100000000 + (bytes[4] as u64)
            * 0x1000000 + (bytes[5] as u64) * 0x10000 + (bytes[6] as u64) * 0x100 + (
        bytes[7] as u64);
        r
    }
}

} // verus!
