use vstd::prelude::*;

verus! {

/// Number of bytes in a symmetric key.
pub const KEY_SIZE: usize = 16;

/// A 16-byte symmetric key. Immutable value type; equality is byte-wise.
#[derive(Clone, Copy, Debug)]
pub struct Key {
    pub bytes: [u8; 16],
}

impl View for Key {
    type V = Seq<u8>;

    open spec fn view(&self) -> Seq<u8> {
        self.bytes@
    }
}

impl Key {
    /// Build a key from its 16 bytes.
    pub fn from_bytes(bytes: [u8; 16]) -> (r: Key)
        ensures
            r == (Key { bytes }),
            r@ == bytes@,
    {
        Key { bytes }
    }

    /// Byte-wise equality of two keys.
    pub fn same(&self, other: &Key) -> (r: bool)
        ensures
            r == (self@ == other@),
    {
        let mut i: usize = 0;
        while i < 16
            invariant
                i <= 16,
                forall|j: int| 0 <= j < i ==> self.bytes@[j] == other.bytes@[j],
            decreases 16 - i,
        {
            if self.bytes[i] != other.bytes[i] {
                assert(self@ != other@);
                return false;
            }
            i += 1;
        }
        proof {
            assert(self@ =~= other@);
        }
        true
    }
}

impl PartialEq for Key {
    fn eq(&self, other: &Key) -> (r: bool) {
        self.same(other)
    }
}

impl vstd::std_specs::cmp::PartialEqSpecImpl for Key {
    open spec fn obeys_eq_spec() -> bool {
        true
    }

    open spec fn eq_spec(&self, other: &Key) -> bool {
        self@ == other@
    }
}

} // verus!
