//! Fixed-width integers on the wire, and the two readers that consume one
//! from the front of a buffer.

use vstd::prelude::*;
use crate::error::HandshakeError;

verus! {

/// The value of four bytes read least significant byte first.
pub open spec fn u32_from_le(s: Seq<u8>) -> u32
    recommends
        s.len() == 4,
{
    (s[0] as int + 0x100 * (s[1] as int) + 0x1_0000 * (s[2] as int) + 0x100_0000 * (s[3]
        as int)) as u32
}

/// The value of eight bytes read least significant byte first.
pub open spec fn u64_from_le(s: Seq<u8>) -> u64
    recommends
        s.len() == 8,
{
    (u32_from_le(s.subrange(0, 4)) as int + 0x1_0000_0000 * (u32_from_le(
        s.subrange(4, 8),
    ) as int)) as u64
}

/// The four bytes of `v`, least significant byte first.
pub open spec fn u32_le_bytes(v: u32) -> Seq<u8> {
    seq![
        (v % 0x100) as u8,
        (v / 0x100 % 0x100) as u8,
        (v / 0x1_0000 % 0x100) as u8,
        (v / 0x100_0000) as u8,
    ]
}

/// The eight bytes of `v`, least significant byte first.
pub open spec fn u64_le_bytes(v: u64) -> Seq<u8> {
    u32_le_bytes((v % 0x1_0000_0000) as u32) + u32_le_bytes((v / 0x1_0000_0000) as u32)
}

/// The two bytes of `v`, most significant byte first.
pub open spec fn u16_be_bytes(v: u16) -> Seq<u8> {
    seq![(v / 0x100) as u8, (v % 0x100) as u8]
}

/// The value of two bytes read most significant byte first.
pub open spec fn u16_from_be(s: Seq<u8>) -> u16
    recommends
        s.len() == 2,
{
    (0x100 * (s[0] as int) + s[1] as int) as u16
}

/// The unsigned number with the same 32 bits as `v` in two's complement.
pub open spec fn i32_bits(v: i32) -> u32 {
    if v >= 0 {
        v as u32
    } else {
        (v + 0x1_0000_0000) as u32
    }
}

/// The signed number with the same 32 bits as `u` in two's complement.
pub open spec fn i32_of_bits(u: u32) -> i32 {
    if u < 0x8000_0000 {
        u as i32
    } else {
        (u - 0x1_0000_0000) as i32
    }
}

/// The unsigned number with the same 64 bits as `v` in two's complement.
pub open spec fn i64_bits(v: i64) -> u64 {
    if v >= 0 {
        v as u64
    } else {
        (v + 0x1_0000_0000_0000_0000) as u64
    }
}

/// The signed number with the same 64 bits as `u` in two's complement.
pub open spec fn i64_of_bits(u: u64) -> i64 {
    if u < 0x8000_0000_0000_0000 {
        u as i64
    } else {
        (u - 0x1_0000_0000_0000_0000) as i64
    }
}

/// The four bytes of a signed `v`, least significant byte first.
pub open spec fn i32_le_bytes(v: i32) -> Seq<u8> {
    u32_le_bytes(i32_bits(v))
}

/// The eight bytes of a signed `v`, least significant byte first.
pub open spec fn i64_le_bytes(v: i64) -> Seq<u8> {
    u64_le_bytes(i64_bits(v))
}

/// The signed value of four bytes read least significant byte first.
pub open spec fn i32_from_le(s: Seq<u8>) -> i32
    recommends
        s.len() == 4,
{
    i32_of_bits(u32_from_le(s))
}

/// The signed value of eight bytes read least significant byte first.
pub open spec fn i64_from_le(s: Seq<u8>) -> i64
    recommends
        s.len() == 8,
{
    i64_of_bits(u64_from_le(s))
}

/// What a buffer holds after its first `n` bytes were consumed in place: the
/// rest moved to the front, and the last `n` bytes left as they were.
pub open spec fn consumed(s: Seq<u8>, n: int) -> Seq<u8>
    recommends
        0 <= n <= s.len(),
{
    s.subrange(n, s.len() as int) + s.subrange(s.len() - n, s.len() as int)
}

/// Reads four bytes at `at`, least significant byte first.
pub fn read_u32_le(buf: &[u8], at: usize) -> (v: u32)
    requires
        at + 4 <= buf.len(),
    ensures
        v == u32_from_le(buf@.subrange(at as int, at + 4)),
{
    let b0: u32 = buf[at] as u32;
    let b1: u32 = buf[at + 1] as u32;
    let b2: u32 = buf[at + 2] as u32;
    let b3: u32 = buf[at + 3] as u32;
    b0 + 0x100 * b1 + 0x1_0000 * b2 + 0x100_0000 * b3
}

/// Reads eight bytes at `at`, least significant byte first.
pub fn read_u64_le(buf: &[u8], at: usize) -> (v: u64)
    requires
        at + 8 <= buf.len(),
    ensures
        v == u64_from_le(buf@.subrange(at as int, at + 8)),
{
    let low: u64 = read_u32_le(buf, at) as u64;
    let high: u64 = read_u32_le(buf, at + 4) as u64;
    proof {
        let s = buf@.subrange(at as int, at + 8);
        assert(s.subrange(0, 4) =~= buf@.subrange(at as int, at + 4));
        assert(s.subrange(4, 8) =~= buf@.subrange(at + 4, at + 8));
    }
    low + 0x1_0000_0000 * high
}

/// Reads a signed four-byte value at `at`, least significant byte first.
pub fn read_i32_le(buf: &[u8], at: usize) -> (v: i32)
    requires
        at + 4 <= buf.len(),
    ensures
        v == i32_from_le(buf@.subrange(at as int, at + 4)),
{
    let u: u32 = read_u32_le(buf, at);
    if u < 0x8000_0000 {
        u as i32
    } else {
        (u - 0x8000_0000) as i32 - 0x7fff_ffff - 1
    }
}

/// Reads a signed eight-byte value at `at`, least significant byte first.
pub fn read_i64_le(buf: &[u8], at: usize) -> (v: i64)
    requires
        at + 8 <= buf.len(),
    ensures
        v == i64_from_le(buf@.subrange(at as int, at + 8)),
{
    let u: u64 = read_u64_le(buf, at);
    if u < 0x8000_0000_0000_0000 {
        u as i64
    } else {
        (u - 0x8000_0000_0000_0000) as i64 - 0x7fff_ffff_ffff_ffff - 1
    }
}

/// Reads two bytes at `at`, most significant byte first.
pub fn read_u16_be(buf: &[u8], at: usize) -> (v: u16)
    requires
        at + 2 <= buf.len(),
    ensures
        v == u16_from_be(buf@.subrange(at as int, at + 2)),
{
    let high: u16 = buf[at] as u16;
    let low: u16 = buf[at + 1] as u16;
    0x100 * high + low
}

/// Appends `v` to `out`, least significant byte first.
pub fn push_u32_le(out: &mut Vec<u8>, v: u32)
    ensures
        final(out)@ == old(out)@ + u32_le_bytes(v),
{
    out.push((v % 0x100) as u8);
    out.push((v / 0x100 % 0x100) as u8);
    out.push((v / 0x1_0000 % 0x100) as u8);
    out.push((v / 0x100_0000) as u8);
    assert(out@ =~= old(out)@ + u32_le_bytes(v));
}

/// Appends `v` to `out`, least significant byte first.
pub fn push_u64_le(out: &mut Vec<u8>, v: u64)
    ensures
        final(out)@ == old(out)@ + u64_le_bytes(v),
{
    push_u32_le(out, (v % 0x1_0000_0000) as u32);
    push_u32_le(out, (v / 0x1_0000_0000) as u32);
    assert(out@ =~= old(out)@ + u64_le_bytes(v));
}

/// Appends `v` to `out`, most significant byte first.
pub fn push_u16_be(out: &mut Vec<u8>, v: u16)
    ensures
        final(out)@ == old(out)@ + u16_be_bytes(v),
{
    out.push((v / 0x100) as u8);
    out.push((v % 0x100) as u8);
    assert(out@ =~= old(out)@ + u16_be_bytes(v));
}

/// Appends a signed `v` to `out` in two's complement, least significant byte first.
pub fn push_i32_le(out: &mut Vec<u8>, v: i32)
    ensures
        final(out)@ == old(out)@ + i32_le_bytes(v),
{
    let bits: u32 = if v >= 0 {
        v as u32
    } else {
        ((v + 0x7fff_ffff + 1) as u32) + 0x8000_0000
    };
    push_u32_le(out, bits);
}

/// Appends a signed `v` to `out` in two's complement, least significant byte first.
pub fn push_i64_le(out: &mut Vec<u8>, v: i64)
    ensures
        final(out)@ == old(out)@ + i64_le_bytes(v),
{
    let bits: u64 = if v >= 0 {
        v as u64
    } else {
        ((v + 0x7fff_ffff_ffff_ffff + 1) as u64) + 0x8000_0000_0000_0000
    };
    push_u64_le(out, bits);
}

/// Appends every byte of `bytes` to `out`.
pub fn push_all(out: &mut Vec<u8>, bytes: &[u8])
    ensures
        final(out)@ == old(out)@ + bytes@,
{
    let mut i: usize = 0;
    while i < bytes.len()
        invariant
            i <= bytes.len(),
            out@ == old(out)@ + bytes@.subrange(0, i as int),
        decreases bytes.len() - i,
    {
        out.push(bytes[i]);
        i += 1;
        assert(out@ =~= old(out)@ + bytes@.subrange(0, i as int));
    }
    assert(bytes@.subrange(0, i as int) =~= bytes@);
}

/// A copy of the bytes of `buf` from `from` up to `to`.
pub fn copy_range(buf: &[u8], from: usize, to: usize) -> (out: Vec<u8>)
    requires
        from <= to <= buf.len(),
    ensures
        out@ == buf@.subrange(from as int, to as int),
{
    let mut out: Vec<u8> = Vec::new();
    let mut i: usize = from;
    while i < to
        invariant
            from <= i <= to <= buf.len(),
            out@ == buf@.subrange(from as int, i as int),
        decreases to - i,
    {
        out.push(buf[i]);
        i += 1;
        assert(out@ =~= buf@.subrange(from as int, i as int));
    }
    out
}

/// Copies `N` bytes of `data`, from `at` on, into an array.
pub fn array_from<const N: usize>(data: &[u8], at: usize) -> (out: [u8; N])
    requires
        at + N <= data.len(),
    ensures
        out@ == data@.subrange(at as int, at + N),
{
    let mut out: [u8; N] = [0u8; N];
    let mut i: usize = 0;
    while i < N
        invariant
            i <= N,
            at + N <= data.len(),
            forall|j: int| 0 <= j < i ==> out@[j] == data@[at + j],
        decreases N - i,
    {
        out[i] = data[at + i];
        i += 1;
    }
    assert(out@ =~= data@.subrange(at as int, at + N));
    out
}

/// Whether two byte strings are the same.
pub fn same_bytes(a: &[u8], b: &[u8]) -> (same: bool)
    ensures
        same == (a@ == b@),
{
    if a.len() != b.len() {
        return false;
    }
    let mut i: usize = 0;
    while i < a.len()
        invariant
            i <= a.len(),
            a.len() == b.len(),
            forall|j: int| 0 <= j < i ==> a@[j] == b@[j],
        decreases a.len() - i,
    {
        if a[i] != b[i] {
            return false;
        }
        i += 1;
    }
    assert(a@ =~= b@);
    true
}

/// Reading back the bytes of a `u32` gives the `u32`.
pub proof fn lemma_u32_le_round_trip(v: u32)
    ensures
        u32_le_bytes(v).len() == 4,
        u32_from_le(u32_le_bytes(v)) == v,
{
}

/// Writing the value of four bytes gives the four bytes.
pub proof fn lemma_u32_le_bytes_of_value(s: Seq<u8>)
    requires
        s.len() == 4,
    ensures
        u32_le_bytes(u32_from_le(s)) == s,
{
    let b0 = s[0] as int;
    let b1 = s[1] as int;
    let b2 = s[2] as int;
    let b3 = s[3] as int;
    let v = b0 + 0x100 * b1 + 0x1_0000 * b2 + 0x100_0000 * b3;
    let high1 = b1 + 0x100 * b2 + 0x1_0000 * b3;
    let high2 = b2 + 0x100 * b3;
    assert(v == b0 + 0x100 * high1);
    assert(v % 0x100 == b0 && v / 0x100 == high1);
    assert(high1 == b1 + 0x100 * high2);
    assert(high1 % 0x100 == b1 && high1 / 0x100 == high2);
    assert(v / 0x1_0000 == high2) by {
        assert(v == (b0 + 0x100 * b1) + 0x1_0000 * high2);
    }
    assert(high2 % 0x100 == b2 && high2 / 0x100 == b3);
    assert(v / 0x100_0000 == b3) by {
        assert(v == (b0 + 0x100 * b1 + 0x1_0000 * b2) + 0x100_0000 * b3);
    }
    assert(u32_from_le(s) == v);
    assert(u32_le_bytes(u32_from_le(s)) =~= s);
}

/// Reading back the bytes of a `u64` gives the `u64`.
pub proof fn lemma_u64_le_round_trip(v: u64)
    ensures
        u64_le_bytes(v).len() == 8,
        u64_from_le(u64_le_bytes(v)) == v,
{
    let low = (v % 0x1_0000_0000) as u32;
    let high = (v / 0x1_0000_0000) as u32;
    lemma_u32_le_round_trip(low);
    lemma_u32_le_round_trip(high);
    assert(u64_le_bytes(v).subrange(0, 4) =~= u32_le_bytes(low));
    assert(u64_le_bytes(v).subrange(4, 8) =~= u32_le_bytes(high));
}

/// Reading back the bytes of a signed value gives the value.
pub proof fn lemma_i32_le_round_trip(v: i32)
    ensures
        i32_le_bytes(v).len() == 4,
        i32_from_le(i32_le_bytes(v)) == v,
{
    lemma_u32_le_round_trip(i32_bits(v));
}

/// Reading back the bytes of a signed value gives the value.
pub proof fn lemma_i64_le_round_trip(v: i64)
    ensures
        i64_le_bytes(v).len() == 8,
        i64_from_le(i64_le_bytes(v)) == v,
{
    lemma_u64_le_round_trip(i64_bits(v));
}

/// Reading back the bytes of a port gives the port.
pub proof fn lemma_u16_be_round_trip(v: u16)
    ensures
        u16_be_bytes(v).len() == 2,
        u16_from_be(u16_be_bytes(v)) == v,
{
}

/// Moves everything after the first `n` bytes to the front of the buffer.
fn shift_left(data: &mut [u8], n: usize)
    requires
        n <= old(data)@.len(),
    ensures
        final(data)@ == consumed(old(data)@, n as int),
{
    let len: usize = data.len();
    let mut i: usize = 0;
    while i < len - n
        invariant
            n <= len,
            i <= len - n,
            data@.len() == len,
            old(data)@.len() == len,
            forall|j: int| 0 <= j < i ==> data@[j] == old(data)@[j + n],
            forall|j: int| i <= j < len ==> data@[j] == old(data)@[j],
        decreases len - n - i,
    {
        let b: u8 = data[i + n];
        data[i] = b;
        i += 1;
    }
    assert(data@ =~= consumed(old(data)@, n as int));
}

/// Consumes a little-endian `u32` from the front of `data`.
///
/// On success the rest of the buffer has moved to the front. With fewer than
/// four bytes nothing is touched.
pub fn get_u32_from_byte_array(data: &mut [u8]) -> (r: Result<u32, HandshakeError>)
    ensures
        old(data)@.len() < 4 ==> r == Err::<u32, HandshakeError>(HandshakeError::TruncatedInput)
            && final(data)@ == old(data)@,
        old(data)@.len() >= 4 ==> r == Ok::<u32, HandshakeError>(
            u32_from_le(old(data)@.subrange(0, 4)),
        ) && final(data)@ == consumed(old(data)@, 4),
{
    if data.len() < 4 {
        return Err(HandshakeError::TruncatedInput);
    }
    let value: u32 = read_u32_le(data, 0);
    shift_left(data, 4);
    Ok(value)
}

/// Consumes a little-endian `u64` from the front of `data`.
///
/// On success the rest of the buffer has moved to the front. With fewer than
/// eight bytes nothing is touched.
pub fn get_u64_from_byte_array(data: &mut [u8]) -> (r: Result<u64, HandshakeError>)
    ensures
        old(data)@.len() < 8 ==> r == Err::<u64, HandshakeError>(HandshakeError::TruncatedInput)
            && final(data)@ == old(data)@,
        old(data)@.len() >= 8 ==> r == Ok::<u64, HandshakeError>(
            u64_from_le(old(data)@.subrange(0, 8)),
        ) && final(data)@ == consumed(old(data)@, 8),
{
    if data.len() < 8 {
        return Err(HandshakeError::TruncatedInput);
    }
    let value: u64 = read_u64_le(data, 0);
    shift_left(data, 8);
    Ok(value)
}

} // verus!
