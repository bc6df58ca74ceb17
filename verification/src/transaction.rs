//! The slice of a transaction this subsystem reads when deciding whether to
//! announce it to a peer: its sender, its fee, and its size on the wire.
//! Building, validating and encoding transactions belong elsewhere.

use vstd::prelude::*;

verus! {

/// A 20-byte account address, compared byte for byte.
#[derive(Clone, Copy, Debug)]
pub struct Address {
    bytes: [u8; 20],
}

impl View for Address {
    type V = Seq<u8>;

    closed spec fn view(&self) -> Seq<u8> {
        self.bytes@
    }
}

impl Address {
    pub fn new(bytes: [u8; 20]) -> (r: Address)
        ensures
            r@ == bytes@,
    {
        Address { bytes }
    }
}

impl PartialEq for Address {
    fn eq(&self, other: &Address) -> (r: bool) {
        let mut i: usize = 0;
        while i < 20
            invariant
                i <= 20,
                forall|j: int| 0 <= j < i ==> self.bytes@[j] == other.bytes@[j],
            decreases 20 - i,
        {
            if self.bytes[i] != other.bytes[i] {
                return false;
            }
            i += 1;
        }
        proof {
            assert(self.bytes@ =~= other.bytes@);
        }
        true
    }
}

impl Eq for Address {
}

impl vstd::std_specs::cmp::PartialEqSpecImpl for Address {
    open spec fn obeys_eq_spec() -> bool {
        true
    }

    open spec fn eq_spec(&self, other: &Address) -> bool {
        self@ == other@
    }
}

/// An amount of currency, counted in indivisible units.
#[derive(Clone, Copy, Debug, PartialEq, Eq, Structural)]
pub struct Coin(pub u64);

impl Coin {
    /// The product, unless it overflows the unit count.
    pub fn checked_mul(self, times: u64) -> (r: Option<Coin>)
        ensures
            match r {
                Some(c) => self.0 * times <= u64::MAX && c.0 == self.0 * times,
                None => self.0 * times > u64::MAX,
            },
    {
        match self.0.checked_mul(times) {
            Some(units) => Some(Coin(units)),
            None => None,
        }
    }
}

/// A transaction as the announcement logic sees it. `serialized_size` is
/// its wire size, carried with the value because encoding itself lives
/// outside this subsystem.
#[derive(Clone, Copy, Debug)]
pub struct Transaction {
    pub sender: Address,
    pub fee: Coin,
    pub serialized_size: u64,
}

} // verus!
