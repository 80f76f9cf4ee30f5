//! Byte sequences: joining, comparing, and the big-endian form of a signed 64-bit number.
use vstd::prelude::*;
use vstd::slice::slice_to_vec;

verus! {

/// The two's complement of a signed 64-bit number, read as an unsigned number.
pub open spec fn twos_complement(x: i64) -> int {
    if x >= 0 {
        x as int
    } else {
        x + 0x1_0000_0000_0000_0000
    }
}

/// The signed number whose two's complement is `v`.
pub open spec fn from_twos_complement(v: int) -> int {
    if v < 0x8000_0000_0000_0000 {
        v
    } else {
        v - 0x1_0000_0000_0000_0000
    }
}

/// The number that four bytes denote, most significant byte first.
pub open spec fn be_value_4(s: Seq<u8>) -> int {
    s[0] * 0x100_0000 + s[1] * 0x1_0000 + s[2] * 0x100 + s[3]
}

/// The number that eight bytes denote, most significant byte first.
pub open spec fn be_value_8(s: Seq<u8>) -> int {
    be_value_4(s.subrange(0, 4)) * 0x1_0000_0000 + be_value_4(s.subrange(4, 8))
}

/// The four bytes of `v`, most significant byte first.
pub open spec fn be_bytes_4(v: int) -> Seq<u8> {
    seq![
        ((v / 0x100_0000) % 0x100) as u8,
        ((v / 0x1_0000) % 0x100) as u8,
        ((v / 0x100) % 0x100) as u8,
        (v % 0x100) as u8,
    ]
}

/// The eight bytes of a signed number in two's complement, most significant byte first.
pub open spec fn i64_be_bytes(x: i64) -> Seq<u8> {
    be_bytes_4(twos_complement(x) / 0x1_0000_0000) + be_bytes_4(
        twos_complement(x) % 0x1_0000_0000,
    )
}

/// The signed number that eight big-endian bytes denote.
pub open spec fn i64_from_be_bytes(s: Seq<u8>) -> int {
    from_twos_complement(be_value_8(s))
}

proof fn lemma_be_4(v: int)
    requires
        0 <= v < 0x1_0000_0000,
    ensures
        be_value_4(be_bytes_4(v)) == v,
{
}

/// Reading the eight big-endian bytes of a signed number gives the number back.
pub proof fn lemma_i64_be_round_trip(x: i64)
    ensures
        i64_be_bytes(x).len() == 8,
        i64_from_be_bytes(i64_be_bytes(x)) == x,
{
    let v = twos_complement(x);
    let hi = v / 0x1_0000_0000;
    let lo = v % 0x1_0000_0000;
    lemma_be_4(hi);
    lemma_be_4(lo);
    assert(i64_be_bytes(x).subrange(0, 4) =~= be_bytes_4(hi));
    assert(i64_be_bytes(x).subrange(4, 8) =~= be_bytes_4(lo));
}

proof fn lemma_be_4_back(s: Seq<u8>)
    requires
        s.len() == 4,
    ensures
        0 <= be_value_4(s) < 0x1_0000_0000,
        be_bytes_4(be_value_4(s)) == s,
{
    assert(be_bytes_4(be_value_4(s)) =~= s);
}

/// Eight bytes are the big-endian bytes of the signed number that they denote.
pub proof fn lemma_i64_be_back(s: Seq<u8>)
    requires
        s.len() == 8,
    ensures
        i64::MIN <= i64_from_be_bytes(s) <= i64::MAX,
        i64_be_bytes(i64_from_be_bytes(s) as i64) == s,
{
    let hi = be_value_4(s.subrange(0, 4));
    let lo = be_value_4(s.subrange(4, 8));
    lemma_be_4_back(s.subrange(0, 4));
    lemma_be_4_back(s.subrange(4, 8));
    let x = i64_from_be_bytes(s) as i64;
    assert(twos_complement(x) == hi * 0x1_0000_0000 + lo);
    assert(twos_complement(x) / 0x1_0000_0000 == hi);
    assert(twos_complement(x) % 0x1_0000_0000 == lo);
    assert(i64_be_bytes(x) =~= s);
}

fn push_be_4(out: &mut Vec<u8>, v: u32)
    ensures
        final(out)@ == old(out)@ + be_bytes_4(v as int),
{
    out.push((v / 0x100_0000) as u8);
    out.push(((v / 0x1_0000) % 0x100) as u8);
    out.push(((v / 0x100) % 0x100) as u8);
    out.push((v % 0x100) as u8);
    assert(out@ =~= old(out)@ + be_bytes_4(v as int));
}

/// Appends the eight big-endian bytes of `x`.
pub fn push_i64_be(out: &mut Vec<u8>, x: i64)
    ensures
        final(out)@ == old(out)@ + i64_be_bytes(x),
{
    let v: u64 = x as u64;
    assert(x >= 0 ==> v == x) by (bit_vector)
        requires
            v == x as u64,
    ;
    assert(x < 0 ==> v == x + 0x1_0000_0000_0000_0000) by (bit_vector)
        requires
            v == x as u64,
    ;
    push_be_4(out, (v / 0x1_0000_0000) as u32);
    push_be_4(out, (v % 0x1_0000_0000) as u32);
    assert(out@ =~= old(out)@ + i64_be_bytes(x));
}

fn read_be_4(s: &[u8], at: usize) -> (v: u32)
    requires
        at + 4 <= s@.len(),
    ensures
        v == be_value_4(s@.subrange(at as int, at + 4)),
{
    assert(at + 4 <= s.len());
    (s[at] as u32) * 0x100_0000 + (s[at + 1] as u32) * 0x1_0000 + (s[at + 2] as u32) * 0x100 + (
    s[at + 3] as u32)
}

/// Reads the eight big-endian bytes that start at `at`.
pub fn read_i64_be(s: &[u8], at: usize) -> (x: i64)
    requires
        at + 8 <= s@.len(),
    ensures
        x == i64_from_be_bytes(s@.subrange(at as int, at + 8)),
{
    assert(at + 8 <= s.len());
    let hi: u32 = read_be_4(s, at);
    let lo: u32 = read_be_4(s, at + 4);
    let v: u64 = (hi as u64) * 0x1_0000_0000 + (lo as u64);
    let x: i64 = v as i64;
    assert(v < 0x8000_0000_0000_0000 ==> x == v) by (bit_vector)
        requires
            x == v as i64,
    ;
    assert(v >= 0x8000_0000_0000_0000 ==> x == v - 0x1_0000_0000_0000_0000) by (bit_vector)
        requires
            x == v as i64,
    ;
    proof {
        let eight = s@.subrange(at as int, at + 8);
        assert(eight.subrange(0, 4) =~= s@.subrange(at as int, at + 4));
        assert(eight.subrange(4, 8) =~= s@.subrange(at + 4, at + 8));
    }
    x
}

/// Appends the bytes of `tail`.
pub fn push_all(out: &mut Vec<u8>, tail: &[u8])
    ensures
        final(out)@ == old(out)@ + tail@,
{
    out.extend_from_slice(tail);
    assert(out@ =~= old(out)@ + tail@);
}

/// A copy of the bytes.
pub fn copy(s: &[u8]) -> (r: Vec<u8>)
    ensures
        r@ == s@,
{
    slice_to_vec(s)
}

/// Whether two byte strings are the same.
pub fn same_bytes(a: &[u8], b: &[u8]) -> (r: bool)
    ensures
        r == (a@ == b@),
{
    if a.len() != b.len() {
        return false;
    }
    let mut i: usize = 0;
    while i < a.len()
        invariant
            i <= a@.len(),
            a@.len() == b@.len(),
            forall|j: int| 0 <= j < i ==> a@[j] == b@[j],
        decreases a@.len() - i,
    {
        if a[i] != b[i] {
            return false;
        }
        i += 1;
    }
    assert(a@ =~= b@);
    true
}

/// The eight bytes of a signed number are the digits of its two's complement in base 256, the most
/// significant first.
pub proof fn lemma_i64_be_digits(x: i64)
    ensures
        ({
            let s = i64_be_bytes(x);
            let value = s[0] * 0x100_0000_0000_0000 + s[1] * 0x1_0000_0000_0000 + s[2]
                * 0x100_0000_0000 + s[3] * 0x1_0000_0000 + s[4] * 0x100_0000 + s[5] * 0x1_0000
                + s[6] * 0x100 + s[7];
            &&& s.len() == 8
            &&& x >= 0 ==> value == x
            &&& x < 0 ==> value == x + 0x1_0000_0000_0000_0000
        }),
{
    let v = twos_complement(x);
    lemma_be_4(v / 0x1_0000_0000);
    lemma_be_4(v % 0x1_0000_0000);
}

} // verus!
