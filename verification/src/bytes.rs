//! Little-endian integers and NUL-terminated names inside byte sequences.

use vstd::prelude::*;
use vstd::slice::slice_subrange;

verus! {

/// The unsigned 16-bit value stored little-endian at `off`.
pub open spec fn le_u16(s: Seq<u8>, off: int) -> int {
    s[off] as int + 0x100 * (s[off + 1] as int)
}

/// The unsigned 32-bit value stored little-endian at `off`.
pub open spec fn le_u32(s: Seq<u8>, off: int) -> int {
    le_u16(s, off) + 0x1_0000 * le_u16(s, off + 2)
}

/// The unsigned 64-bit value stored little-endian at `off`.
pub open spec fn le_u64(s: Seq<u8>, off: int) -> int {
    le_u32(s, off) + 0x1_0000_0000 * le_u32(s, off + 4)
}

/// The two's-complement reading of a 32-bit pattern.
pub open spec fn signed32(v: int) -> int {
    if v < 0x8000_0000 {
        v
    } else {
        v - 0x1_0000_0000
    }
}

/// The two's-complement reading of a 64-bit pattern.
pub open spec fn signed64(v: int) -> int {
    if v < 0x8000_0000_0000_0000 {
        v
    } else {
        v - 0x1_0000_0000_0000_0000
    }
}

pub fn read_u16(s: &[u8], off: usize) -> (r: u16)
    requires
        off + 2 <= s@.len(),
    ensures
        r == le_u16(s@, off as int),
{
    let b0: u16 = s[off] as u16;
    let b1: u16 = s[off + 1] as u16;
    b0 + 0x100 * b1
}

pub fn read_u32(s: &[u8], off: usize) -> (r: u32)
    requires
        off + 4 <= s@.len(),
    ensures
        r == le_u32(s@, off as int),
{
    let n: usize = s.len();
    assert(off + 4 <= n);
    let lo: u32 = read_u16(s, off) as u32;
    let hi: u32 = read_u16(s, off + 2) as u32;
    lo + 0x1_0000 * hi
}

pub fn read_u64(s: &[u8], off: usize) -> (r: u64)
    requires
        off + 8 <= s@.len(),
    ensures
        r == le_u64(s@, off as int),
{
    let n: usize = s.len();
    assert(off + 8 <= n);
    let lo: u64 = read_u32(s, off) as u64;
    let hi: u64 = read_u32(s, off + 4) as u64;
    lo + 0x1_0000_0000 * hi
}

/// Reinterprets a 32-bit pattern as a signed number.
pub fn to_i32(v: u32) -> (r: i32)
    ensures
        r == signed32(v as int),
{
    let r: i32 = v as i32;
    assert(v < 0x8000_0000u32 ==> (v as i32) as int == v as int) by (bit_vector);
    assert(v >= 0x8000_0000u32 ==> (v as i32) as int == v as int - 0x1_0000_0000) by (bit_vector);
    r
}

/// Reinterprets a 64-bit pattern as a signed number.
pub fn to_i64(v: u64) -> (r: i64)
    ensures
        r == signed64(v as int),
{
    let r: i64 = v as i64;
    assert(v < 0x8000_0000_0000_0000u64 ==> (v as i64) as int == v as int) by (bit_vector);
    assert(v >= 0x8000_0000_0000_0000u64 ==> (v as i64) as int == v as int
        - 0x1_0000_0000_0000_0000) by (bit_vector);
    r
}

/// The number of bytes from `from` up to the first NUL at or after it, or up
/// to the end of the sequence when no NUL follows.
pub open spec fn name_len(s: Seq<u8>, from: int) -> nat
    decreases s.len() - from,
{
    if from < 0 || from >= s.len() || s[from] == 0 {
        0
    } else {
        1 + name_len(s, from + 1)
    }
}

/// The name that starts at `from`: the bytes up to, and without, the first
/// NUL, or the rest of the sequence when it holds no NUL.
pub open spec fn name_at(s: Seq<u8>, from: int) -> Seq<u8> {
    s.subrange(from, from + name_len(s, from))
}

/// A name stays inside the sequence, holds no NUL, and ends at a NUL or at
/// the end of the sequence.
pub proof fn lemma_name_len(s: Seq<u8>, from: int)
    requires
        0 <= from <= s.len(),
    ensures
        from + name_len(s, from) <= s.len(),
        forall|k: int| from <= k < from + name_len(s, from) ==> s[k] != 0,
        from + name_len(s, from) < s.len() ==> s[from + name_len(s, from)] == 0,
    decreases s.len() - from,
{
    if from < s.len() && s[from] != 0 {
        lemma_name_len(s, from + 1);
    }
}

/// The name that starts at `from`, cut out of `s`.
pub fn name_slice<'a>(s: &'a [u8], from: usize) -> (r: &'a [u8])
    requires
        from <= s@.len(),
    ensures
        r@ == name_at(s@, from as int),
{
    let mut end: usize = from;
    while end < s.len() && s[end] != 0
        invariant
            from <= end <= s@.len(),
            name_len(s@, from as int) == (end - from) + name_len(s@, end as int),
        decreases s@.len() - end,
    {
        proof {
            lemma_name_step(s@, from as int, end as int);
        }
        end = end + 1;
    }
    slice_subrange(s, from, end)
}

proof fn lemma_name_step(s: Seq<u8>, from: int, end: int)
    requires
        0 <= from <= end < s.len(),
        s[end] != 0,
    ensures
        name_len(s, end) == 1 + name_len(s, end + 1),
{
}

/// Whether two byte strings hold the same bytes.
pub fn bytes_eq(a: &[u8], b: &[u8]) -> (r: bool)
    ensures
        r == (a@ == b@),
{
    if a.len() != b.len() {
        return false;
    }
    let mut i: usize = 0;
    while i < a.len()
        invariant
            a@.len() == b@.len(),
            i <= a@.len(),
            forall|k: int| 0 <= k < i ==> a@[k] == b@[k],
        decreases a@.len() - i,
    {
        if a[i] != b[i] {
            return false;
        }
        i = i + 1;
    }
    assert(a@ =~= b@);
    true
}

} // verus!
