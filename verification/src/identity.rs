use crate::mixing::{le_u64, spec_le_u64};
use vstd::prelude::*;

verus! {

/// The identity of a player: the 32 bytes of the key whose signature the
/// caller has checked before handing it over.
#[derive(Clone, Copy, Debug, Eq)]
pub struct PlayerKey {
    pub bytes: [u8; 32],
}

impl View for PlayerKey {
    type V = Seq<u8>;

    /// The key as the sequence of its 32 bytes.
    open spec fn view(&self) -> Seq<u8> {
        self.bytes@
    }
}

impl PartialEq for PlayerKey {
    fn eq(&self, other: &PlayerKey) -> (r: bool) {
        let mut i: usize = 0;
        while i < 32
            invariant
                i <= 32,
                forall|j: int| 0 <= j < i ==> self@[j] == other@[j],
            decreases 32 - i,
        {
            if self.bytes[i] != other.bytes[i] {
                return false;
            }
            i += 1;
        }
        assert(self@ =~= other@);
        true
    }
}

impl vstd::std_specs::cmp::PartialEqSpecImpl for PlayerKey {
    open spec fn obeys_eq_spec() -> bool {
        true
    }

    open spec fn eq_spec(&self, other: &PlayerKey) -> bool {
        self@ == other@
    }
}

impl PlayerKey {
    /// Whether `self` comes strictly before `other` when the two keys are
    /// read as 32-byte strings, first byte most significant.
    pub open spec fn spec_precedes(self, other: PlayerKey) -> bool {
        exists|i: int|
            0 <= i < 32 && #[trigger] self@[i] < other@[i] && forall|j: int|
                0 <= j < i ==> self@[j] == other@[j]
    }

    /// The eight bytes from `at` on, read as a little-endian number.
    pub open spec fn spec_word(self, at: int) -> u64 {
        spec_le_u64(self@, at)
    }

    /// The four little-endian words of the key, combined by exclusive or.
    pub open spec fn spec_folded(self) -> u64 {
        self.spec_word(0) ^ self.spec_word(8) ^ self.spec_word(16) ^ self.spec_word(24)
    }

    /// Wraps 32 bytes as a key.
    pub fn new(bytes: [u8; 32]) -> (key: PlayerKey)
        ensures
            key.bytes == bytes,
            key@ == bytes@,
    {
        PlayerKey { bytes }
    }

    /// The 32 bytes of the key.
    pub fn to_bytes(&self) -> (bytes: [u8; 32])
        ensures
            bytes == self.bytes,
            bytes@ == self@,
    {
        self.bytes
    }

    /// Reads the eight bytes from `at` on as a little-endian number.
    pub fn word(&self, at: usize) -> (w: u64)
        requires
            at <= 24,
        ensures
            w == self.spec_word(at as int),
    {
        le_u64(&self.bytes, at)
    }

    /// Combines the four little-endian words of the key by exclusive or.
    pub fn folded(&self) -> (w: u64)
        ensures
            w == self.spec_folded(),
    {
        self.word(0) ^ self.word(8) ^ self.word(16) ^ self.word(24)
    }

    /// Tells whether the two keys are the same key: whether their bytes
    /// agree.
    pub fn same_as(&self, other: &PlayerKey) -> (r: bool)
        ensures
            r == (*self == *other),
            r == (self@ == other@),
    {
        let r = *self == *other;
        proof {
            if r {
                assert(self.bytes =~= other.bytes);
            }
        }
        r
    }

    /// Tells whether `self` orders strictly before `other`, byte by byte.
    pub fn precedes(&self, other: &PlayerKey) -> (r: bool)
        ensures
            r == self.spec_precedes(*other),
    {
        let mut i: usize = 0;
        while i < 32
            invariant
                i <= 32,
                forall|j: int| 0 <= j < i ==> self@[j] == other@[j],
            decreases 32 - i,
        {
            if self.bytes[i] < other.bytes[i] {
                assert(self@[i as int] < other@[i as int]);
                return true;
            }
            if self.bytes[i] > other.bytes[i] {
                assert(self@[i as int] > other@[i as int]);
                return false;
            }
            assert(self@[i as int] == other@[i as int]);
            i += 1;
        }
        false
    }
}

/// No key precedes itself, and of two different keys exactly one precedes
/// the other.
pub proof fn lemma_key_order_is_total(a: PlayerKey, b: PlayerKey)
    ensures
        !a.spec_precedes(a),
        a != b ==> (a.spec_precedes(b) <==> !b.spec_precedes(a)),
        a == b ==> !a.spec_precedes(b),
{
    if a != b {
        if forall|j: int| 0 <= j < 32 ==> a@[j] == b@[j] {
            assert(a@ =~= b@);
            assert(a.bytes =~= b.bytes);
        }
        let k = choose|k: int| 0 <= k < 32 && a@[k] != b@[k];
        lemma_first_difference(a, b, k);
    }
}

proof fn lemma_first_difference(a: PlayerKey, b: PlayerKey, k: int)
    requires
        0 <= k < 32,
        a@[k] != b@[k],
    ensures
        a.spec_precedes(b) <==> !b.spec_precedes(a),
    decreases k,
{
    if exists|j: int| 0 <= j < k && a@[j] != b@[j] {
        let j = choose|j: int| 0 <= j < k && a@[j] != b@[j];
        lemma_first_difference(a, b, j);
    } else {
        if a@[k] < b@[k] {
            assert(a.spec_precedes(b));
        } else {
            assert(b@[k] < a@[k]);
            assert(b.spec_precedes(a));
        }
    }
}

} // verus!
