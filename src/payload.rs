use vstd::prelude::*;
use crate::error::Error;

verus! {

/// The eight bytes of `n`, most significant first.
pub open spec fn u64_be(n: u64) -> Seq<u8> {
    seq![
        ((n >> 56u64) & 0xffu64) as u8,
        ((n >> 48u64) & 0xffu64) as u8,
        ((n >> 40u64) & 0xffu64) as u8,
        ((n >> 32u64) & 0xffu64) as u8,
        ((n >> 24u64) & 0xffu64) as u8,
        ((n >> 16u64) & 0xffu64) as u8,
        ((n >> 8u64) & 0xffu64) as u8,
        (n & 0xffu64) as u8,
    ]
}

/// The number that eight bytes spell, most significant first.
pub open spec fn u64_of_be(b: Seq<u8>) -> u64 {
    ((b[0] as u64) << 56u64) | ((b[1] as u64) << 48u64) | ((b[2] as u64) << 40u64) | ((
    b[3] as u64) << 32u64) | ((b[4] as u64) << 24u64) | ((b[5] as u64) << 16u64) | ((
    b[6] as u64) << 8u64) | (b[7] as u64)
}

/// The two bytes of `n`, most significant first.
pub open spec fn u16_be(n: u16) -> Seq<u8> {
    seq![(n / 256) as u8, (n % 256) as u8]
}

/// The number that two bytes spell, most significant first.
pub open spec fn u16_of_be(b: Seq<u8>) -> u16 {
    (b[0] * 256 + b[1]) as u16
}

/// Decoding a fixed-width 64-bit payload.
pub open spec fn spec_u64_from_payload(p: Seq<u8>) -> Result<u64, Error> {
    if p.len() == 8 {
        Ok(u64_of_be(p))
    } else {
        Err(Error::SizeInvalid)
    }
}

/// Decoding a single-byte payload.
pub open spec fn spec_u8_from_payload(p: Seq<u8>) -> Result<u8, Error> {
    if p.len() == 1 {
        Ok(p[0])
    } else {
        Err(Error::SizeInvalid)
    }
}

/// The eight big-endian bytes of `n`.
pub fn u64_to_payload(n: u64) -> (r: Vec<u8>)
    ensures
        r@ == u64_be(n),
{
    let r = vec![
        ((n >> 56u64) & 0xffu64) as u8,
        ((n >> 48u64) & 0xffu64) as u8,
        ((n >> 40u64) & 0xffu64) as u8,
        ((n >> 32u64) & 0xffu64) as u8,
        ((n >> 24u64) & 0xffu64) as u8,
        ((n >> 16u64) & 0xffu64) as u8,
        ((n >> 8u64) & 0xffu64) as u8,
        (n & 0xffu64) as u8,
    ];
    assert(r@ =~= u64_be(n));
    r
}

/// Reads eight big-endian bytes; any other length is `SizeInvalid`.
pub fn u64_from_payload(p: &[u8]) -> (r: Result<u64, Error>)
    ensures
        r == spec_u64_from_payload(p@),
{
    if p.len() != 8 {
        return Err(Error::SizeInvalid);
    }
    Ok(((p[0] as u64) << 56u64) | ((p[1] as u64) << 48u64) | ((p[2] as u64) << 40u64) | ((
    p[3] as u64) << 32u64) | ((p[4] as u64) << 24u64) | ((p[5] as u64) << 16u64) | ((
    p[6] as u64) << 8u64) | (p[7] as u64))
}

/// The single byte `n`.
pub fn u8_to_payload(n: u8) -> (r: Vec<u8>)
    ensures
        r@ == seq![n],
{
    let r = vec![n];
    assert(r@ =~= seq![n]);
    r
}

/// Reads a single byte; any other length is `SizeInvalid`.
pub fn u8_from_payload(p: &[u8]) -> (r: Result<u8, Error>)
    ensures
        r == spec_u8_from_payload(p@),
{
    if p.len() == 1 {
        Ok(p[0])
    } else {
        Err(Error::SizeInvalid)
    }
}

/// The two big-endian bytes of `n`.
pub fn u16_to_payload(n: u16) -> (r: Vec<u8>)
    ensures
        r@ == u16_be(n),
{
    let r = vec![(n / 256) as u8, (n % 256) as u8];
    assert(r@ =~= u16_be(n));
    r
}

/// Eight bytes spell back the number they were made from.
pub proof fn lemma_u64_be_round_trip(n: u64)
    ensures
        u64_be(n).len() == 8,
        u64_of_be(u64_be(n)) == n,
{
    assert(forall|x: u64| #[trigger] (x & 0xffu64) <= 0xffu64) by (bit_vector);
    assert(((((n >> 56u64) & 0xffu64) << 56u64) | (((n >> 48u64) & 0xffu64) << 48u64) | (((n
        >> 40u64) & 0xffu64) << 40u64) | (((n >> 32u64) & 0xffu64) << 32u64) | (((n >> 24u64)
        & 0xffu64) << 24u64) | (((n >> 16u64) & 0xffu64) << 16u64) | (((n >> 8u64) & 0xffu64)
        << 8u64) | (n & 0xffu64)) == n) by (bit_vector);
}

/// Two bytes spell back the number they were made from.
pub proof fn lemma_u16_be_round_trip(n: u16)
    ensures
        u16_be(n).len() == 2,
        u16_of_be(u16_be(n)) == n,
{
}

} // verus!
