//! Fixed-size byte values: digests, addresses and bloom filters.

use vstd::prelude::*;

verus! {

/// A 32-byte digest.
#[derive(Clone, Copy, Debug, PartialEq, Eq)]
pub struct B256(pub [u8; 32]);

/// A 20-byte account address.
#[derive(Clone, Copy, Debug, PartialEq, Eq)]
pub struct Address(pub [u8; 20]);

/// A 2048-bit bloom filter over log addresses and topics.
#[derive(Clone, Copy, Debug, PartialEq, Eq)]
pub struct Bloom(pub [u8; 256]);

/// A pair of the value that was computed and the value that was declared.
#[derive(Clone, Copy, Debug, PartialEq, Eq)]
pub struct GotExpected<T> {
    pub got: T,
    pub expected: T,
}

impl View for B256 {
    type V = Seq<u8>;

    open spec fn view(&self) -> Seq<u8> {
        self.0@
    }
}

impl View for Address {
    type V = Seq<u8>;

    open spec fn view(&self) -> Seq<u8> {
        self.0@
    }
}

impl View for Bloom {
    type V = Seq<u8>;

    open spec fn view(&self) -> Seq<u8> {
        self.0@
    }
}

/// The bloom filter with no bit set.
pub open spec fn zero_bloom() -> Seq<u8> {
    Seq::new(256, |i: int| 0u8)
}

/// The bytewise OR of two bloom filters.
pub open spec fn bloom_or(a: Seq<u8>, b: Seq<u8>) -> Seq<u8> {
    Seq::new(256, |i: int| a[i] | b[i])
}

impl B256 {
    /// The digest of 32 zero bytes.
    pub fn zero() -> (r: B256)
        ensures
            r@ == Seq::new(32, |i: int| 0u8),
    {
        let r = B256([0u8; 32]);
        assert(r@ =~= Seq::new(32, |i: int| 0u8));
        r
    }

    /// Whether two digests hold the same bytes.
    pub fn same_as(&self, other: &B256) -> (r: bool)
        ensures
            r == (self@ == other@),
            r == (*self == *other),
    {
        let mut i: usize = 0;
        while i < 32
            invariant
                i <= 32,
                forall|j: int| 0 <= j < i ==> self.0[j] == other.0[j],
            decreases 32 - i,
        {
            if self.0[i] != other.0[i] {
                assert(self@[i as int] != other@[i as int]);
                return false;
            }
            i = i + 1;
        }
        assert(self.0 =~= other.0);
        true
    }
}

impl Bloom {
    /// The bloom filter with no bit set.
    pub fn zero() -> (r: Bloom)
        ensures
            r@ == zero_bloom(),
    {
        let r = Bloom([0u8; 256]);
        assert(r@ =~= zero_bloom());
        r
    }

    /// Whether two bloom filters hold the same bits.
    pub fn same_as(&self, other: &Bloom) -> (r: bool)
        ensures
            r == (self@ == other@),
            r == (*self == *other),
    {
        let mut i: usize = 0;
        while i < 256
            invariant
                i <= 256,
                forall|j: int| 0 <= j < i ==> self.0[j] == other.0[j],
            decreases 256 - i,
        {
            if self.0[i] != other.0[i] {
                assert(self@[i as int] != other@[i as int]);
                return false;
            }
            i = i + 1;
        }
        assert(self.0 =~= other.0);
        true
    }

    /// The filter that holds every bit of `self` and every bit of `other`.
    pub fn bit_or(&self, other: &Bloom) -> (r: Bloom)
        ensures
            r@ == bloom_or(self@, other@),
    {
        let mut out: [u8; 256] = [0u8; 256];
        let mut i: usize = 0;
        while i < 256
            invariant
                i <= 256,
                forall|j: int| 0 <= j < i ==> out[j] == self.0[j] | other.0[j],
            decreases 256 - i,
        {
            out[i] = self.0[i] | other.0[i];
            i = i + 1;
        }
        let r = Bloom(out);
        assert(r@ =~= bloom_or(self@, other@));
        r
    }
}

} // verus!
