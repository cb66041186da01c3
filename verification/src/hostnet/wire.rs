//! Little-endian byte layouts exchanged with the guest.

use vstd::prelude::*;

verus! {

/// The two's-complement bit pattern of an `i32`.
pub open spec fn i32_bits(v: i32) -> nat {
    if v < 0 {
        (v + 0x1_0000_0000) as nat
    } else {
        v as nat
    }
}

/// The two's-complement bit pattern of an `i16`.
pub open spec fn i16_bits(v: i16) -> nat {
    if v < 0 {
        (v + 0x1_0000) as nat
    } else {
        v as nat
    }
}

/// The little-endian bytes of a 16-bit pattern.
pub open spec fn le16(u: nat) -> Seq<u8> {
    seq![(u % 256) as u8, ((u / 256) % 256) as u8]
}

/// The little-endian bytes of a 32-bit pattern.
pub open spec fn le32(u: nat) -> Seq<u8> {
    seq![
        (u % 256) as u8,
        ((u / 256) % 256) as u8,
        ((u / 65536) % 256) as u8,
        ((u / 16777216) % 256) as u8,
    ]
}

/// `v.to_le_bytes()` for an `i32`.
pub open spec fn le_i32(v: i32) -> Seq<u8> {
    le32(i32_bits(v))
}

/// `v.to_le_bytes()` for an `i16`.
pub open spec fn le_i16(v: i16) -> Seq<u8> {
    le16(i16_bits(v))
}

/// `i32::from_le_bytes` of four bytes.
pub open spec fn i32_from_le(b: Seq<u8>) -> int
    recommends
        b.len() == 4,
{
    let u = b[0] + 256 * b[1] + 65536 * b[2] + 16777216 * b[3];
    if u >= 0x8000_0000 {
        u - 0x1_0000_0000
    } else {
        u
    }
}

/// `i16::from_le_bytes` of two bytes.
pub open spec fn i16_from_le(b: Seq<u8>) -> int
    recommends
        b.len() == 2,
{
    let u = b[0] + 256 * b[1];
    if u >= 0x8000 {
        u - 0x1_0000
    } else {
        u
    }
}

/// A peer or local socket address, as the guest's address layout carries it.
#[derive(Clone, Copy)]
#[allow(inconsistent_fields)]
pub enum PeerAddr {
    V4 { octets: [u8; 4], port: u16 },
    V6 { octets: [u8; 16], port: u16 },
}

/// The packed form of an address: family (`i32`, 2 = IPv4, 10 = IPv6),
/// port (`u16`), address length (`u8`, 4 or 16), then the address bytes.
pub open spec fn packed_addr(a: PeerAddr) -> Seq<u8> {
    match a {
        PeerAddr::V4 { octets, port } => le_i32(2) + le16(port as nat) + seq![4u8] + octets@,
        PeerAddr::V6 { octets, port } => le_i32(10) + le16(port as nat) + seq![16u8] + octets@,
    }
}

/// Append the little-endian bytes of a 32-bit pattern.
fn push_u32_le(buf: &mut Vec<u8>, u: u32)
    ensures
        final(buf)@ == old(buf)@ + le32(u as nat),
{
    buf.push((u % 256) as u8);
    buf.push(((u / 256) % 256) as u8);
    buf.push(((u / 65536) % 256) as u8);
    buf.push(((u / 16777216) % 256) as u8);
    assert(final(buf)@ =~= old(buf)@ + le32(u as nat));
}

/// Append `v.to_le_bytes()`.
pub fn push_i32_le(buf: &mut Vec<u8>, v: i32)
    ensures
        final(buf)@ == old(buf)@ + le_i32(v),
{
    let u: u32 = if v < 0 {
        (v as i64 + 0x1_0000_0000i64) as u32
    } else {
        v as u32
    };
    push_u32_le(buf, u);
}

/// Append `v.to_le_bytes()` for a `u16`.
pub fn push_u16_le(buf: &mut Vec<u8>, v: u16)
    ensures
        final(buf)@ == old(buf)@ + le16(v as nat),
{
    buf.push((v % 256) as u8);
    buf.push(((v / 256) % 256) as u8);
    assert(final(buf)@ =~= old(buf)@ + le16(v as nat));
}

/// Append `v.to_le_bytes()` for an `i16`.
pub fn push_i16_le(buf: &mut Vec<u8>, v: i16)
    ensures
        final(buf)@ == old(buf)@ + le_i16(v),
{
    let u: u16 = if v < 0 {
        (v as i32 + 0x1_0000i32) as u16
    } else {
        v as u16
    };
    push_u16_le(buf, u);
}

/// Append every byte of `bytes`.
pub fn push_bytes(buf: &mut Vec<u8>, bytes: &[u8])
    ensures
        final(buf)@ == old(buf)@ + bytes@,
{
    let ghost start = buf@;
    let mut i: usize = 0;
    while i < bytes.len()
        invariant
            i <= bytes@.len(),
            buf@ == start + bytes@.take(i as int),
        decreases bytes@.len() - i,
    {
        buf.push(bytes[i]);
        i = i + 1;
        assert(buf@ =~= start + bytes@.take(i as int));
    }
    assert(bytes@.take(bytes@.len() as int) =~= bytes@);
}

/// The four-byte `-errno` (or other bare status) reply: `v.to_le_bytes()`.
pub fn status_bytes(v: i32) -> (r: Vec<u8>)
    ensures
        r@ == le_i32(v),
{
    let mut buf = Vec::new();
    push_i32_le(&mut buf, v);
    assert(buf@ =~= le_i32(v));
    buf
}

/// Pack a socket address into a buffer: family(i32) + port(u16) +
/// addr_len(u8) + addr_bytes.
pub fn pack_addr(buf: &mut Vec<u8>, addr: &PeerAddr)
    ensures
        final(buf)@ == old(buf)@ + packed_addr(*addr),
{
    match addr {
        PeerAddr::V4 { octets, port } => {
            push_i32_le(buf, 2);
            push_u16_le(buf, *port);
            buf.push(4);
            push_bytes(buf, octets.as_slice());
        },
        PeerAddr::V6 { octets, port } => {
            push_i32_le(buf, 10);
            push_u16_le(buf, *port);
            buf.push(16);
            push_bytes(buf, octets.as_slice());
        },
    }
    assert(final(buf)@ =~= old(buf)@ + packed_addr(*addr));
}

/// Read `i32::from_le_bytes` at `off`.
pub fn read_i32_le(b: &[u8], off: usize) -> (v: i32)
    requires
        off + 4 <= b@.len(),
    ensures
        v as int == i32_from_le(b@.subrange(off as int, off + 4)),
{
    let u: u64 = b[off] as u64 + 256 * (b[off + 1] as u64) + 65536 * (b[off + 2] as u64)
        + 16777216 * (b[off + 3] as u64);
    let s: i64 = if u >= 0x8000_0000 {
        u as i64 - 0x1_0000_0000i64
    } else {
        u as i64
    };
    s as i32
}

/// Read `i16::from_le_bytes` at `off`.
pub fn read_i16_le(b: &[u8], off: usize) -> (v: i16)
    requires
        off + 2 <= b@.len(),
    ensures
        v as int == i16_from_le(b@.subrange(off as int, off + 2)),
{
    let u: u32 = b[off] as u32 + 256 * (b[off + 1] as u32);
    let s: i32 = if u >= 0x8000 {
        u as i32 - 0x1_0000i32
    } else {
        u as i32
    };
    s as i16
}

/// Reading back the little-endian bytes of an `i32` gives the same value.
pub proof fn lemma_i32_le_round_trip(v: i32)
    ensures
        i32_from_le(le_i32(v)) == v as int,
{
    let u = i32_bits(v);
    let b = le32(u);
    assert(b[0] + 256 * b[1] + 65536 * b[2] + 16777216 * b[3] == u) by (nonlinear_arith)
        requires
            u < 0x1_0000_0000,
            b[0] == u % 256,
            b[1] == (u / 256) % 256,
            b[2] == (u / 65536) % 256,
            b[3] == (u / 16777216) % 256,
    ;
}

/// Reading back the little-endian bytes of an `i16` gives the same value.
pub proof fn lemma_i16_le_round_trip(v: i16)
    ensures
        i16_from_le(le_i16(v)) == v as int,
{
    let u = i16_bits(v);
    let b = le16(u);
    assert(b[0] + 256 * b[1] == u) by (nonlinear_arith)
        requires
            u < 0x1_0000,
            b[0] == u % 256,
            b[1] == (u / 256) % 256,
    ;
}

} // verus!
