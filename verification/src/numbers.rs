//! Little-endian interpretation of byte sequences.
//!
//! Every multi-byte scalar in a 3dm archive is stored least significant
//! byte first. The spec functions here give those bytes their numeric
//! meaning; the decoding functions on [`crate::reader::Reader`] are proved
//! against them.

use vstd::prelude::*;

verus! {

/// Numeric value of a little-endian byte sequence (least significant first).
pub open spec fn le_bytes(s: Seq<u8>) -> int
    decreases s.len(),
{
    if s.len() == 0 {
        0
    } else {
        s[0] + 256 * le_bytes(s.subrange(1, s.len() as int))
    }
}

/// Value of a 4-byte little-endian field reinterpreted as a signed 32-bit
/// two's-complement integer.
pub open spec fn le_i32(s: Seq<u8>) -> int {
    if le_bytes(s) < 0x8000_0000 {
        le_bytes(s)
    } else {
        le_bytes(s) - 0x1_0000_0000
    }
}

/// Value of an 8-byte little-endian field reinterpreted as a signed 64-bit
/// two's-complement integer.
pub open spec fn le_i64(s: Seq<u8>) -> int {
    if le_bytes(s) < 0x8000_0000_0000_0000 {
        le_bytes(s)
    } else {
        le_bytes(s) - 0x1_0000_0000_0000_0000
    }
}

pub proof fn lemma_le_bytes_1(s: Seq<u8>)
    requires
        s.len() == 1,
    ensures
        le_bytes(s) == s[0],
{
    assert(s.subrange(1, 1).len() == 0);
    assert(le_bytes(s.subrange(1, 1)) == 0);
}

pub proof fn lemma_le_bytes_2(s: Seq<u8>)
    requires
        s.len() == 2,
    ensures
        le_bytes(s) == s[0] + 0x100 * s[1],
{
    let t = s.subrange(1, 2);
    assert(t[0] == s[1]);
    lemma_le_bytes_1(t);
}

pub proof fn lemma_le_bytes_4(s: Seq<u8>)
    requires
        s.len() == 4,
    ensures
        le_bytes(s) == s[0] + 0x100 * s[1] + 0x1_0000 * s[2] + 0x100_0000 * s[3],
{
    let t = s.subrange(1, 4);
    let u = t.subrange(1, 3);
    assert(u =~= s.subrange(2, 4));
    lemma_le_bytes_2(u);
    assert(le_bytes(t) == t[0] + 256 * le_bytes(u));
    assert(t[0] == s[1] && u[0] == s[2] && u[1] == s[3]);
}

/// Compares two byte vectors for equal contents.
pub fn bytes_eq(a: &Vec<u8>, b: &Vec<u8>) -> (r: bool)
    ensures
        r == (a@ == b@),
{
    if a.len() != b.len() {
        assert(a@ != b@) by {
            assert(a@.len() != b@.len());
        }
        return false;
    }
    let n = a.len();
    let mut i: usize = 0;
    while i < n
        invariant
            i <= n,
            n == a@.len(),
            n == b@.len(),
            forall|j: int| 0 <= j < i ==> a@[j] == b@[j],
        decreases n - i,
    {
        if a[i] != b[i] {
            return false;
        }
        i = i + 1;
    }
    assert(a@ =~= b@);
    true
}

pub proof fn lemma_le_bytes_8(s: Seq<u8>)
    requires
        s.len() == 8,
    ensures
        le_bytes(s) == s[0] + 0x100 * s[1] + 0x1_0000 * s[2] + 0x100_0000 * s[3]
            + 0x1_0000_0000 * s[4] + 0x100_0000_0000 * s[5] + 0x1_0000_0000_0000 * s[6]
            + 0x100_0000_0000_0000 * s[7],
{
    let t = s.subrange(1, 8);
    let u = t.subrange(1, 7);
    let v = u.subrange(1, 6);
    let w = v.subrange(1, 5);
    assert(u =~= s.subrange(2, 8));
    assert(v =~= s.subrange(3, 8));
    assert(w =~= s.subrange(4, 8));
    lemma_le_bytes_4(w);
    assert(le_bytes(v) == v[0] + 256 * le_bytes(w));
    assert(le_bytes(u) == u[0] + 256 * le_bytes(v));
    assert(le_bytes(t) == t[0] + 256 * le_bytes(u));
    assert(t[0] == s[1] && u[0] == s[2] && v[0] == s[3]);
    assert(w[0] == s[4] && w[1] == s[5] && w[2] == s[6] && w[3] == s[7]);
}

} // verus!
