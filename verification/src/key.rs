//! Identities and location identifiers: 32-byte keys.

use vstd::prelude::*;

verus! {

/// A 32-byte identity: a wallet, a program, an asset class or the location of
/// a record.
#[derive(Clone, Copy, Debug, PartialEq, Eq, Hash)]
pub struct Key {
    pub bytes: [u8; 32],
}

impl View for Key {
    type V = Seq<u8>;

    open spec fn view(&self) -> Seq<u8> {
        self.bytes@
    }
}

/// Two keys with the same bytes are the same key.
pub proof fn lemma_key_view_injective(a: Key, b: Key)
    requires
        a@ == b@,
    ensures
        a == b,
{
    assert(a.bytes =~= b.bytes);
}

impl Key {
    /// The key made of the given bytes.
    pub fn new(bytes: [u8; 32]) -> (k: Key)
        ensures
            k.bytes == bytes,
            k@ == bytes@,
    {
        Key { bytes }
    }

    /// The key whose bytes are all zero, as found in a freshly created record.
    pub fn zero() -> (k: Key)
        ensures
            k@ == Seq::new(32, |i: int| 0u8),
    {
        let k = Key { bytes: [0u8; 32] };
        assert(k@ =~= Seq::new(32, |i: int| 0u8));
        k
    }

    /// Whether both keys hold the same bytes.
    pub fn same(&self, other: &Key) -> (r: bool)
        ensures
            r == (self@ == other@),
            r == (*self == *other),
    {
        let mut i: usize = 0;
        while i < 32
            invariant
                i <= 32,
                forall|j: int| 0 <= j < i ==> self.bytes[j] == other.bytes[j],
            decreases 32 - i,
        {
            if self.bytes[i] != other.bytes[i] {
                assert(self@[i as int] != other@[i as int]);
                return false;
            }
            i += 1;
        }
        assert(self@ =~= other@);
        proof {
            lemma_key_view_injective(*self, *other);
        }
        true
    }

    /// The key's bytes as a vector.
    pub fn to_vec(&self) -> (v: Vec<u8>)
        ensures
            v@ == self@,
    {
        let mut v: Vec<u8> = Vec::new();
        let mut i: usize = 0;
        while i < 32
            invariant
                i <= 32,
                v@.len() == i,
                forall|j: int| 0 <= j < i ==> v@[j] == self.bytes[j],
            decreases 32 - i,
        {
            v.push(self.bytes[i]);
            i += 1;
        }
        assert(v@ =~= self@);
        v
    }
}

} // verus!
