//! Compressed BLS key and signature material, held as the bytes it is on
//! the wire. Point decompression and signature checks belong to the
//! cryptography engine; this subsystem only carries, compares and prints
//! the compressed forms.

use vstd::prelude::*;

verus! {

/// The lowercase hexadecimal digit of a value below sixteen.
pub open spec fn hex_digit(n: u8) -> char
    recommends
        n < 16,
{
    if n == 0 {
        '0'
    } else if n == 1 {
        '1'
    } else if n == 2 {
        '2'
    } else if n == 3 {
        '3'
    } else if n == 4 {
        '4'
    } else if n == 5 {
        '5'
    } else if n == 6 {
        '6'
    } else if n == 7 {
        '7'
    } else if n == 8 {
        '8'
    } else if n == 9 {
        '9'
    } else if n == 10 {
        'a'
    } else if n == 11 {
        'b'
    } else if n == 12 {
        'c'
    } else if n == 13 {
        'd'
    } else if n == 14 {
        'e'
    } else {
        'f'
    }
}

/// The lowercase hexadecimal rendering of a run of bytes: two digits per
/// byte, high nibble first.
pub open spec fn hex_of(bytes: Seq<u8>) -> Seq<char>
    decreases bytes.len(),
{
    if bytes.len() == 0 {
        Seq::empty()
    } else {
        hex_of(bytes.drop_last()).push(hex_digit((bytes.last() / 16) as u8)).push(
            hex_digit((bytes.last() % 16) as u8),
        )
    }
}

/// Relies on hex::encode: each input byte becomes two lowercase
/// hexadecimal digits, high nibble first.
#[verifier::external_body]
fn hex_encode(bytes: &[u8]) -> (r: String)
    ensures
        r@ == hex_of(bytes@),
{
    hex::encode(bytes)
}

/// A BLS public key in compressed form: its 96 wire bytes.
#[derive(Clone, Copy)]
pub struct CompressedPublicKey {
    pub(crate) public_key: [u8; 96],
}

impl View for CompressedPublicKey {
    type V = Seq<u8>;

    closed spec fn view(&self) -> Seq<u8> {
        self.public_key@
    }
}

impl CompressedPublicKey {
    pub const SIZE: usize = 96;

    pub fn new(public_key: [u8; 96]) -> (r: CompressedPublicKey)
        ensures
            r@ == public_key@,
    {
        CompressedPublicKey { public_key }
    }

    pub fn as_bytes(&self) -> (r: &[u8])
        ensures
            r@ == self@,
            r@.len() == 96,
    {
        self.public_key.as_slice()
    }

    /// The key's bytes as lowercase hexadecimal.
    pub fn to_hex(&self) -> (r: String)
        ensures
            r@ == hex_of(self@),
    {
        hex_encode(self.public_key.as_slice())
    }
}

impl PartialEq for CompressedPublicKey {
    fn eq(&self, other: &CompressedPublicKey) -> (r: bool) {
        let mut i: usize = 0;
        while i < 96
            invariant
                i <= 96,
                forall|j: int| 0 <= j < i ==> self.public_key@[j] == other.public_key@[j],
            decreases 96 - i,
        {
            if self.public_key[i] != other.public_key[i] {
                return false;
            }
            i += 1;
        }
        proof {
            assert(self.public_key@ =~= other.public_key@);
        }
        true
    }
}

impl Eq for CompressedPublicKey {
}

impl vstd::std_specs::cmp::PartialEqSpecImpl for CompressedPublicKey {
    open spec fn obeys_eq_spec() -> bool {
        true
    }

    open spec fn eq_spec(&self, other: &CompressedPublicKey) -> bool {
        self@ == other@
    }
}

/// A BLS signature in compressed form: its 48 wire bytes.
#[derive(Clone, Copy, Debug)]
pub struct CompressedSignature {
    pub(crate) signature: [u8; 48],
}

impl View for CompressedSignature {
    type V = Seq<u8>;

    closed spec fn view(&self) -> Seq<u8> {
        self.signature@
    }
}

impl CompressedSignature {
    pub const SIZE: usize = 48;

    pub fn new(signature: [u8; 48]) -> (r: CompressedSignature)
        ensures
            r@ == signature@,
    {
        CompressedSignature { signature }
    }

    pub fn as_bytes(&self) -> (r: &[u8])
        ensures
            r@ == self@,
            r@.len() == 48,
    {
        self.signature.as_slice()
    }

    /// The signature's bytes as lowercase hexadecimal.
    pub fn to_hex(&self) -> (r: String)
        ensures
            r@ == hex_of(self@),
    {
        hex_encode(self.signature.as_slice())
    }
}

impl PartialEq for CompressedSignature {
    fn eq(&self, other: &CompressedSignature) -> (r: bool) {
        let mut i: usize = 0;
        while i < 48
            invariant
                i <= 48,
                forall|j: int| 0 <= j < i ==> self.signature@[j] == other.signature@[j],
            decreases 48 - i,
        {
            if self.signature[i] != other.signature[i] {
                return false;
            }
            i += 1;
        }
        proof {
            assert(self.signature@ =~= other.signature@);
        }
        true
    }
}

impl Eq for CompressedSignature {
}

impl vstd::std_specs::cmp::PartialEqSpecImpl for CompressedSignature {
    open spec fn obeys_eq_spec() -> bool {
        true
    }

    open spec fn eq_spec(&self, other: &CompressedSignature) -> bool {
        self@ == other@
    }
}

} // verus!
