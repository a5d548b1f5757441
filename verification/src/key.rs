use vstd::prelude::*;

verus! {

broadcast use vstd::array::group_array_axioms;

/// A 32-byte account address.
#[derive(Clone, Copy, Debug)]
pub struct Pubkey {
    pub bytes: [u8; 32],
}

impl View for Pubkey {
    type V = Seq<u8>;

    open spec fn view(&self) -> Seq<u8> {
        self.bytes@
    }
}

impl Pubkey {
    /// An address made of the given bytes.
    pub fn new_from_array(bytes: [u8; 32]) -> (k: Pubkey)
        ensures
            k.bytes == bytes,
            k@ == bytes@,
    {
        Pubkey { bytes }
    }

    /// The address's bytes.
    pub fn to_bytes(&self) -> (b: [u8; 32])
        ensures
            b == self.bytes,
    {
        self.bytes
    }

    /// Byte-wise comparison of two addresses.
    pub fn key_eq(&self, other: &Pubkey) -> (r: bool)
        ensures
            r == (self@ == other@),
            r == (*self == *other),
    {
        let mut i: usize = 0;
        while i < 32
            invariant
                i <= 32,
                forall|j: int| 0 <= j < i ==> self.bytes[j] == other.bytes[j],
            decreases 32 - i,
        {
            if self.bytes[i] != other.bytes[i] {
                assert(self@[i as int] != other@[i as int]);
                return false;
            }
            i = i + 1;
        }
        assert(self.bytes =~= other.bytes);
        assert(self@ =~= other@);
        true
    }
}

impl PartialEq for Pubkey {
    fn eq(&self, other: &Pubkey) -> (r: bool) {
        self.key_eq(other)
    }
}

impl Eq for Pubkey {}

impl vstd::std_specs::cmp::PartialEqSpecImpl for Pubkey {
    open spec fn obeys_eq_spec() -> bool {
        true
    }

    open spec fn eq_spec(&self, other: &Pubkey) -> bool {
        self@ == other@
    }
}

impl Default for Pubkey {
    fn default() -> (k: Pubkey)
        ensures
            k@ == Seq::new(32, |i: int| 0u8),
    {
        let k = Pubkey { bytes: [0u8; 32] };
        assert(k@ =~= Seq::new(32, |i: int| 0u8));
        k
    }
}

/// The bytes of the address that stands in for a referral when none is given.
pub open spec fn default_referral_bytes() -> Seq<u8> {
    seq![
        43u8, 215, 230, 25, 15, 11, 194, 229, 9, 95, 200, 131, 184, 36, 163, 159,
        217, 115, 67, 116, 90, 159, 108, 37, 47, 8, 251, 48, 183, 99, 177, 76,
    ]
}

/// The platform's own referral address, `3x9USDofKPb6rREu2dWe9rcvT4QMHQS1PrJ13WuZ1QL3`,
/// recorded on a contract when a party brings no referrer.
pub fn default_referral() -> (k: Pubkey)
    ensures
        k@ == default_referral_bytes(),
{
    let k = Pubkey {
        bytes: [
            43, 215, 230, 25, 15, 11, 194, 229, 9, 95, 200, 131, 184, 36, 163, 159,
            217, 115, 67, 116, 90, 159, 108, 37, 47, 8, 251, 48, 183, 99, 177, 76,
        ],
    };
    assert(k@ =~= default_referral_bytes());
    k
}

} // verus!
