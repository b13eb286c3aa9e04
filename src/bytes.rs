use vstd::prelude::*;
use crate::address::Address;

verus! {

/// The eight big-endian bytes of a `u64`.
pub open spec fn be_bytes(x: u64) -> Seq<u8> {
    seq![
        (x >> 56u64) as u8, (x >> 48u64) as u8, (x >> 40u64) as u8, (x >> 32u64) as u8,
        (x >> 24u64) as u8, (x >> 16u64) as u8, (x >> 8u64) as u8, x as u8,
    ]
}

pub open spec fn be_combine(b0: u8, b1: u8, b2: u8, b3: u8, b4: u8, b5: u8, b6: u8, b7: u8) -> u64 {
    ((b0 as u64) << 56u64) | ((b1 as u64) << 48u64) | ((b2 as u64) << 40u64) | ((b3 as u64) << 32u64)
        | ((b4 as u64) << 24u64) | ((b5 as u64) << 16u64) | ((b6 as u64) << 8u64) | (b7 as u64)
}

/// The `u64` whose big-endian bytes are the first eight of `s`.
pub open spec fn be_value(s: Seq<u8>) -> u64 {
    be_combine(s[0], s[1], s[2], s[3], s[4], s[5], s[6], s[7])
}

/// Decoding the encoding of a `u64` gives it back.
pub proof fn lemma_be_value_of_bytes(x: u64)
    ensures
        be_value(be_bytes(x)) == x,
{
    let b = be_bytes(x);
    assert(be_combine((x >> 56u64) as u8, (x >> 48u64) as u8, (x >> 40u64) as u8, (x >> 32u64) as u8,
        (x >> 24u64) as u8, (x >> 16u64) as u8, (x >> 8u64) as u8, x as u8) == x) by (bit_vector);
}

/// Encoding the value of eight bytes gives them back.
pub proof fn lemma_be_bytes_of_value(s: Seq<u8>)
    requires
        s.len() == 8,
    ensures
        be_bytes(be_value(s)) == s,
{
    let (b0, b1, b2, b3, b4, b5, b6, b7) = (s[0], s[1], s[2], s[3], s[4], s[5], s[6], s[7]);
    let v = be_combine(b0, b1, b2, b3, b4, b5, b6, b7);
    assert((v >> 56u64) as u8 == b0 && (v >> 48u64) as u8 == b1 && (v >> 40u64) as u8 == b2
        && (v >> 32u64) as u8 == b3) by (bit_vector)
        requires
            v == ((b0 as u64) << 56u64) | ((b1 as u64) << 48u64) | ((b2 as u64) << 40u64) | ((b3 as u64) << 32u64)
                | ((b4 as u64) << 24u64) | ((b5 as u64) << 16u64) | ((b6 as u64) << 8u64) | (b7 as u64),
    ;
    assert((v >> 24u64) as u8 == b4 && (v >> 16u64) as u8 == b5 && (v >> 8u64) as u8 == b6
        && v as u8 == b7) by (bit_vector)
        requires
            v == ((b0 as u64) << 56u64) | ((b1 as u64) << 48u64) | ((b2 as u64) << 40u64) | ((b3 as u64) << 32u64)
                | ((b4 as u64) << 24u64) | ((b5 as u64) << 16u64) | ((b6 as u64) << 8u64) | (b7 as u64),
    ;
    assert(be_bytes(v) =~= s);
}

/// Reads the big-endian `u64` at `off`.
pub fn read_u64_be(s: &[u8], off: usize) -> (r: u64)
    requires
        off + 8 <= s@.len(),
    ensures
        r == be_value(s@.subrange(off as int, off + 8)),
{
    let r = ((s[off] as u64) << 56u64) | ((s[off + 1] as u64) << 48u64) | ((s[off + 2] as u64) << 40u64)
        | ((s[off + 3] as u64) << 32u64) | ((s[off + 4] as u64) << 24u64) | ((s[off + 5] as u64) << 16u64)
        | ((s[off + 6] as u64) << 8u64) | (s[off + 7] as u64);
    let ghost t = s@.subrange(off as int, off + 8);
    assert(t[0] == s@[off as int] && t[1] == s@[off + 1] && t[2] == s@[off + 2] && t[3] == s@[off + 3]);
    assert(t[4] == s@[off + 4] && t[5] == s@[off + 5] && t[6] == s@[off + 6] && t[7] == s@[off + 7]);
    r
}

/// Appends the big-endian bytes of `x`.
pub fn push_u64_be(v: &mut Vec<u8>, x: u64)
    ensures
        final(v)@ == old(v)@ + be_bytes(x),
{
    v.push((x >> 56u64) as u8);
    v.push((x >> 48u64) as u8);
    v.push((x >> 40u64) as u8);
    v.push((x >> 32u64) as u8);
    v.push((x >> 24u64) as u8);
    v.push((x >> 16u64) as u8);
    v.push((x >> 8u64) as u8);
    v.push(x as u8);
    assert(v@ =~= old(v)@ + be_bytes(x));
}

/// Appends the 32 bytes of an address.
pub fn push_address(v: &mut Vec<u8>, a: &Address)
    ensures
        final(v)@ == old(v)@ + a.bytes@,
{
    let mut i: usize = 0;
    while i < 32
        invariant
            i <= 32,
            a.bytes@.len() == 32,
            v@ == old(v)@ + a.bytes@.subrange(0, i as int),
        decreases 32 - i,
    {
        v.push(a.bytes[i]);
        i = i + 1;
        assert(a.bytes@.subrange(0, i as int) =~= a.bytes@.subrange(0, i - 1).push(a.bytes@[i - 1]));
    }
    assert(a.bytes@.subrange(0, 32) =~= a.bytes@);
}

/// Reads the address held in the 32 bytes at `off`.
pub fn read_address(s: &[u8], off: usize) -> (r: Address)
    requires
        off + 32 <= s@.len(),
    ensures
        r.bytes@ == s@.subrange(off as int, off + 32),
{
    let mut bytes = [0u8; 32];
    let mut i: usize = 0;
    while i < 32
        invariant
            i <= 32,
            off + 32 <= s.len(),
            bytes@.len() == 32,
            forall|j: int| 0 <= j < i ==> bytes@[j] == s@[off + j],
        decreases 32 - i,
    {
        bytes[i] = s[off + i];
        i = i + 1;
    }
    assert(bytes@ =~= s@.subrange(off as int, off + 32));
    Address { bytes }
}

} // verus!
