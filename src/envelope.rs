//! The versioned envelope stored under every key.
//!
//! Wire format: the version as eight big-endian bytes of its two's complement
//! form, followed by the payload bytes verbatim.
use vstd::prelude::*;

verus! {

/// The unit of storage: a version token and an opaque payload.
#[derive(Debug)]
pub struct Item {
    pub version: i64,
    pub data: Vec<u8>,
}

/// The two's complement bit pattern of `v`.
pub open spec fn twos_complement(v: i64) -> u64 {
    if v >= 0 {
        v as u64
    } else {
        (v + 0x1_0000_0000_0000_0000int) as u64
    }
}

/// The signed value of a two's complement bit pattern.
pub open spec fn from_twos_complement(u: u64) -> i64 {
    if u <= 0x7fff_ffff_ffff_ffffu64 {
        u as i64
    } else {
        (u - 0x1_0000_0000_0000_0000int) as i64
    }
}

fn to_bits(v: i64) -> (r: u64)
    ensures
        r == twos_complement(v),
{
    if v >= 0 {
        v as u64
    } else {
        u64::MAX - ((-(v + 1)) as u64)
    }
}

fn from_bits(u: u64) -> (r: i64)
    ensures
        r == from_twos_complement(u),
{
    if u <= 0x7fff_ffff_ffff_ffffu64 {
        u as i64
    } else {
        -((u64::MAX - u) as i64) - 1
    }
}

/// The eight header bytes that carry `v`, most significant first.
pub open spec fn version_bytes(v: i64) -> Seq<u8> {
    let u = twos_complement(v);
    seq![
        (u >> 56u64) as u8,
        (u >> 48u64) as u8,
        (u >> 40u64) as u8,
        (u >> 32u64) as u8,
        (u >> 24u64) as u8,
        (u >> 16u64) as u8,
        (u >> 8u64) as u8,
        u as u8,
    ]
}

/// The version carried by an eight-byte header.
pub open spec fn header_version(s: Seq<u8>) -> i64
    recommends
        s.len() >= 8,
{
    from_twos_complement(((s[0] as u64) << 56u64) | ((s[1] as u64) << 48u64) | ((s[2] as u64) << 40u64) | ((
    s[3] as u64) << 32u64) | ((s[4] as u64) << 24u64) | ((s[5] as u64) << 16u64) | ((
    s[6] as u64) << 8u64) | (s[7] as u64))
}

/// The stored representation of an envelope.
pub open spec fn envelope_bytes(version: i64, data: Seq<u8>) -> Seq<u8> {
    version_bytes(version) + data
}

/// What a stored representation decodes to, if anything.
pub open spec fn decode_spec(b: Seq<u8>) -> Option<(i64, Seq<u8>)> {
    if b.len() < 8 {
        None
    } else {
        Some((header_version(b), b.skip(8)))
    }
}

proof fn lemma_u64_bytes(u: u64)
    ensures
        ((((u >> 56u64) as u8) as u64) << 56u64) | ((((u >> 48u64) as u8) as u64) << 48u64) | ((
        ((u >> 40u64) as u8) as u64) << 40u64) | ((((u >> 32u64) as u8) as u64) << 32u64) | ((
        ((u >> 24u64) as u8) as u64) << 24u64) | ((((u >> 16u64) as u8) as u64) << 16u64) | ((
        ((u >> 8u64) as u8) as u64) << 8u64) | ((u as u8) as u64) == u,
{
    assert(((((u >> 56u64) as u8) as u64) << 56u64) | ((((u >> 48u64) as u8) as u64) << 48u64) | ((
    ((u >> 40u64) as u8) as u64) << 40u64) | ((((u >> 32u64) as u8) as u64) << 32u64) | ((
    ((u >> 24u64) as u8) as u64) << 24u64) | ((((u >> 16u64) as u8) as u64) << 16u64) | ((
    ((u >> 8u64) as u8) as u64) << 8u64) | ((u as u8) as u64) == u) by (bit_vector);
}

proof fn lemma_header_round_trip(v: i64)
    ensures
        version_bytes(v).len() == 8,
        header_version(version_bytes(v)) == v,
{
    lemma_u64_bytes(twos_complement(v));
}

/// Decoding the stored representation of an envelope gives that envelope back.
pub proof fn lemma_decode_encode(version: i64, data: Seq<u8>)
    ensures
        decode_spec(envelope_bytes(version, data)) == Some((version, data)),
{
    lemma_header_round_trip(version);
    let b = envelope_bytes(version, data);
    assert(b.skip(8) =~= data);
    assert(b.subrange(0, 8) =~= version_bytes(version));
}

proof fn lemma_bytes_u64(b0: u8, b1: u8, b2: u8, b3: u8, b4: u8, b5: u8, b6: u8, b7: u8)
    ensures
        ((((b0 as u64) << 56u64) | ((b1 as u64) << 48u64) | ((b2 as u64) << 40u64) | ((b3 as u64) << 32u64) | ((b4 as u64) << 24u64) | ((b5 as u64) << 16u64) | ((b6 as u64) << 8u64) | (b7 as u64)) >> 56u64) as u8 == b0,
        ((((b0 as u64) << 56u64) | ((b1 as u64) << 48u64) | ((b2 as u64) << 40u64) | ((b3 as u64) << 32u64) | ((b4 as u64) << 24u64) | ((b5 as u64) << 16u64) | ((b6 as u64) << 8u64) | (b7 as u64)) >> 48u64) as u8 == b1,
        ((((b0 as u64) << 56u64) | ((b1 as u64) << 48u64) | ((b2 as u64) << 40u64) | ((b3 as u64) << 32u64) | ((b4 as u64) << 24u64) | ((b5 as u64) << 16u64) | ((b6 as u64) << 8u64) | (b7 as u64)) >> 40u64) as u8 == b2,
        ((((b0 as u64) << 56u64) | ((b1 as u64) << 48u64) | ((b2 as u64) << 40u64) | ((b3 as u64) << 32u64) | ((b4 as u64) << 24u64) | ((b5 as u64) << 16u64) | ((b6 as u64) << 8u64) | (b7 as u64)) >> 32u64) as u8 == b3,
        ((((b0 as u64) << 56u64) | ((b1 as u64) << 48u64) | ((b2 as u64) << 40u64) | ((b3 as u64) << 32u64) | ((b4 as u64) << 24u64) | ((b5 as u64) << 16u64) | ((b6 as u64) << 8u64) | (b7 as u64)) >> 24u64) as u8 == b4,
        ((((b0 as u64) << 56u64) | ((b1 as u64) << 48u64) | ((b2 as u64) << 40u64) | ((b3 as u64) << 32u64) | ((b4 as u64) << 24u64) | ((b5 as u64) << 16u64) | ((b6 as u64) << 8u64) | (b7 as u64)) >> 16u64) as u8 == b5,
        ((((b0 as u64) << 56u64) | ((b1 as u64) << 48u64) | ((b2 as u64) << 40u64) | ((b3 as u64) << 32u64) | ((b4 as u64) << 24u64) | ((b5 as u64) << 16u64) | ((b6 as u64) << 8u64) | (b7 as u64)) >> 8u64) as u8 == b6,
        (((b0 as u64) << 56u64) | ((b1 as u64) << 48u64) | ((b2 as u64) << 40u64) | ((b3 as u64) << 32u64) | ((b4 as u64) << 24u64) | ((b5 as u64) << 16u64) | ((b6 as u64) << 8u64) | (b7 as u64)) as u8 == b7,
{
    assert(((((b0 as u64) << 56u64) | ((b1 as u64) << 48u64) | ((b2 as u64) << 40u64) | ((b3 as u64) << 32u64) | ((b4 as u64) << 24u64) | ((b5 as u64) << 16u64) | ((b6 as u64) << 8u64) | (b7 as u64)) >> 56u64) as u8 == b0) by (bit_vector);
    assert(((((b0 as u64) << 56u64) | ((b1 as u64) << 48u64) | ((b2 as u64) << 40u64) | ((b3 as u64) << 32u64) | ((b4 as u64) << 24u64) | ((b5 as u64) << 16u64) | ((b6 as u64) << 8u64) | (b7 as u64)) >> 48u64) as u8 == b1) by (bit_vector);
    assert(((((b0 as u64) << 56u64) | ((b1 as u64) << 48u64) | ((b2 as u64) << 40u64) | ((b3 as u64) << 32u64) | ((b4 as u64) << 24u64) | ((b5 as u64) << 16u64) | ((b6 as u64) << 8u64) | (b7 as u64)) >> 40u64) as u8 == b2) by (bit_vector);
    assert(((((b0 as u64) << 56u64) | ((b1 as u64) << 48u64) | ((b2 as u64) << 40u64) | ((b3 as u64) << 32u64) | ((b4 as u64) << 24u64) | ((b5 as u64) << 16u64) | ((b6 as u64) << 8u64) | (b7 as u64)) >> 32u64) as u8 == b3) by (bit_vector);
    assert(((((b0 as u64) << 56u64) | ((b1 as u64) << 48u64) | ((b2 as u64) << 40u64) | ((b3 as u64) << 32u64) | ((b4 as u64) << 24u64) | ((b5 as u64) << 16u64) | ((b6 as u64) << 8u64) | (b7 as u64)) >> 24u64) as u8 == b4) by (bit_vector);
    assert(((((b0 as u64) << 56u64) | ((b1 as u64) << 48u64) | ((b2 as u64) << 40u64) | ((b3 as u64) << 32u64) | ((b4 as u64) << 24u64) | ((b5 as u64) << 16u64) | ((b6 as u64) << 8u64) | (b7 as u64)) >> 16u64) as u8 == b5) by (bit_vector);
    assert(((((b0 as u64) << 56u64) | ((b1 as u64) << 48u64) | ((b2 as u64) << 40u64) | ((b3 as u64) << 32u64) | ((b4 as u64) << 24u64) | ((b5 as u64) << 16u64) | ((b6 as u64) << 8u64) | (b7 as u64)) >> 8u64) as u8 == b6) by (bit_vector);
    assert((((b0 as u64) << 56u64) | ((b1 as u64) << 48u64) | ((b2 as u64) << 40u64) | ((b3 as u64) << 32u64) | ((b4 as u64) << 24u64) | ((b5 as u64) << 16u64) | ((b6 as u64) << 8u64) | (b7 as u64)) as u8 == b7) by (bit_vector);
}

/// Every byte string long enough to hold a header is the stored
/// representation of exactly the envelope it decodes to.
pub proof fn lemma_encode_decode(b: Seq<u8>)
    requires
        b.len() >= 8,
    ensures
        envelope_bytes(header_version(b), b.skip(8)) == b,
{
    lemma_bytes_u64(b[0], b[1], b[2], b[3], b[4], b[5], b[6], b[7]);
    assert(envelope_bytes(header_version(b), b.skip(8)) =~= b);
}

/// Builds the stored representation of an envelope.
pub fn encode(item: &Item) -> (r: Vec<u8>)
    ensures
        r@ == envelope_bytes(item.version, item.data@),
{
    let u = to_bits(item.version);
    let mut r: Vec<u8> = Vec::new();
    r.push((u >> 56u64) as u8);
    r.push((u >> 48u64) as u8);
    r.push((u >> 40u64) as u8);
    r.push((u >> 32u64) as u8);
    r.push((u >> 24u64) as u8);
    r.push((u >> 16u64) as u8);
    r.push((u >> 8u64) as u8);
    r.push(u as u8);
    assert(r@ =~= version_bytes(item.version));
    let mut i: usize = 0;
    while i < item.data.len()
        invariant
            i <= item.data@.len(),
            r@ == version_bytes(item.version) + item.data@.subrange(0, i as int),
        decreases item.data@.len() - i,
    {
        r.push(item.data[i]);
        i = i + 1;
        assert(r@ =~= version_bytes(item.version) + item.data@.subrange(0, i as int));
    }
    assert(item.data@.subrange(0, i as int) =~= item.data@);
    r
}

/// Reads an envelope back from its stored representation; `None` when the
/// bytes are too short to hold the version header.
pub fn decode(b: &[u8]) -> (r: Option<Item>)
    ensures
        r is None <==> decode_spec(b@) is None,
        r matches Some(item) ==> decode_spec(b@) == Some((item.version, item.data@)),
{
    if b.len() < 8 {
        return None;
    }
    let u: u64 = ((b[0] as u64) << 56u64) | ((b[1] as u64) << 48u64) | ((b[2] as u64) << 40u64)
        | ((b[3] as u64) << 32u64) | ((b[4] as u64) << 24u64) | ((b[5] as u64) << 16u64) | ((
    b[6] as u64) << 8u64) | (b[7] as u64);
    let mut data: Vec<u8> = Vec::new();
    let mut i: usize = 8;
    while i < b.len()
        invariant
            8 <= i <= b@.len(),
            data@ == b@.subrange(8, i as int),
        decreases b@.len() - i,
    {
        data.push(b[i]);
        i = i + 1;
        assert(data@ =~= b@.subrange(8, i as int));
    }
    assert(b@.skip(8) =~= b@.subrange(8, b@.len() as int));
    Some(Item { version: from_bits(u), data })
}

} // verus!
