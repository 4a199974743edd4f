//! Big-endian codecs for the fixed-width integers.
//!
//! Every fixed-width integer is written as its big-endian bytes, with
//! signed values in two's complement, so each width always occupies the
//! same number of bytes on the wire.

use vstd::prelude::*;

verus! {

/// The two big-endian bytes of a 16-bit unsigned integer.
pub open spec fn spec_u16_be(v: u16) -> Seq<u8> {
    seq![(v >> 8) as u8, v as u8]
}

/// The 16-bit unsigned integer read from two big-endian bytes.
pub open spec fn spec_u16_from_be(s: Seq<u8>) -> u16
    recommends
        s.len() == 2,
{
    ((s[0] as u16) << 8) | (s[1] as u16)
}

/// The four big-endian bytes of a 32-bit unsigned integer.
pub open spec fn spec_u32_be(v: u32) -> Seq<u8> {
    seq![(v >> 24) as u8, (v >> 16) as u8, (v >> 8) as u8, v as u8]
}

/// The 32-bit unsigned integer read from four big-endian bytes.
pub open spec fn spec_u32_from_be(s: Seq<u8>) -> u32
    recommends
        s.len() == 4,
{
    ((s[0] as u32) << 24) | ((s[1] as u32) << 16) | ((s[2] as u32) << 8) | (s[3] as u32)
}

/// The eight big-endian bytes of a 64-bit unsigned integer.
pub open spec fn spec_u64_be(v: u64) -> Seq<u8> {
    seq![
        (v >> 56) as u8,
        (v >> 48) as u8,
        (v >> 40) as u8,
        (v >> 32) as u8,
        (v >> 24) as u8,
        (v >> 16) as u8,
        (v >> 8) as u8,
        v as u8,
    ]
}

/// The 64-bit unsigned integer read from eight big-endian bytes.
pub open spec fn spec_u64_from_be(s: Seq<u8>) -> u64
    recommends
        s.len() == 8,
{
    ((s[0] as u64) << 56) | ((s[1] as u64) << 48) | ((s[2] as u64) << 40) | ((s[3] as u64) << 32)
        | ((s[4] as u64) << 24) | ((s[5] as u64) << 16) | ((s[6] as u64) << 8) | (s[7] as u64)
}

/// The sixteen big-endian bytes of a 128-bit unsigned integer.
pub open spec fn spec_u128_be(v: u128) -> Seq<u8> {
    seq![
        (v >> 120) as u8,
        (v >> 112) as u8,
        (v >> 104) as u8,
        (v >> 96) as u8,
        (v >> 88) as u8,
        (v >> 80) as u8,
        (v >> 72) as u8,
        (v >> 64) as u8,
        (v >> 56) as u8,
        (v >> 48) as u8,
        (v >> 40) as u8,
        (v >> 32) as u8,
        (v >> 24) as u8,
        (v >> 16) as u8,
        (v >> 8) as u8,
        v as u8,
    ]
}

/// The 128-bit unsigned integer read from sixteen big-endian bytes.
pub open spec fn spec_u128_from_be(s: Seq<u8>) -> u128
    recommends
        s.len() == 16,
{
    ((s[0] as u128) << 120) | ((s[1] as u128) << 112) | ((s[2] as u128) << 104) | ((s[3] as u128)
        << 96) | ((s[4] as u128) << 88) | ((s[5] as u128) << 80) | ((s[6] as u128) << 72) | ((s[7]
        as u128) << 64) | ((s[8] as u128) << 56) | ((s[9] as u128) << 48) | ((s[10] as u128) << 40)
        | ((s[11] as u128) << 32) | ((s[12] as u128) << 24) | ((s[13] as u128) << 16) | ((s[14]
        as u128) << 8) | (s[15] as u128)
}

/// Reading back the big-endian bytes of a 16-bit value gives it back.
pub proof fn lemma_u16_be_round_trip(v: u16)
    ensures
        spec_u16_from_be(spec_u16_be(v)) == v,
{
    assert(((((v >> 8) as u8) as u16) << 8) | (((v as u8)) as u16) == v) by (bit_vector);
}

/// Reading back the big-endian bytes of a 32-bit value gives it back.
pub proof fn lemma_u32_be_round_trip(v: u32)
    ensures
        spec_u32_from_be(spec_u32_be(v)) == v,
{
    assert(((((v >> 24) as u8) as u32) << 24) | ((((v >> 16) as u8) as u32) << 16) | ((((v
        >> 8) as u8) as u32) << 8) | (((v as u8)) as u32) == v) by (bit_vector);
}

/// Reading back the big-endian bytes of a 64-bit value gives it back.
pub proof fn lemma_u64_be_round_trip(v: u64)
    ensures
        spec_u64_from_be(spec_u64_be(v)) == v,
{
    assert(((((v >> 56) as u8) as u64) << 56) | ((((v >> 48) as u8) as u64) << 48) | ((((v
        >> 40) as u8) as u64) << 40) | ((((v >> 32) as u8) as u64) << 32) | ((((v >> 24) as u8)
        as u64) << 24) | ((((v >> 16) as u8) as u64) << 16) | ((((v >> 8) as u8) as u64) << 8) | (((
    v as u8)) as u64) == v) by (bit_vector);
}

/// Reading back the big-endian bytes of a 128-bit value gives it back.
pub proof fn lemma_u128_be_round_trip(v: u128)
    ensures
        spec_u128_from_be(spec_u128_be(v)) == v,
{
    assert(((((v >> 120) as u8) as u128) << 120) | ((((v >> 112) as u8) as u128) << 112) | ((((v
        >> 104) as u8) as u128) << 104) | ((((v >> 96) as u8) as u128) << 96) | ((((v >> 88) as u8)
        as u128) << 88) | ((((v >> 80) as u8) as u128) << 80) | ((((v >> 72) as u8) as u128) << 72)
        | ((((v >> 64) as u8) as u128) << 64) | ((((v >> 56) as u8) as u128) << 56) | ((((v
        >> 48) as u8) as u128) << 48) | ((((v >> 40) as u8) as u128) << 40) | ((((v >> 32) as u8)
        as u128) << 32) | ((((v >> 24) as u8) as u128) << 24) | ((((v >> 16) as u8) as u128) << 16)
        | ((((v >> 8) as u8) as u128) << 8) | (((v as u8)) as u128) == v) by (bit_vector);
}

/// Casting an unsigned value back to its signed width gives the
/// original signed value: two's complement round-trips.
pub proof fn lemma_i8_cast_round_trip(v: i8)
    ensures
        ((v as u8) as i8) == v,
{
    assert(((v as u8) as i8) == v) by (bit_vector);
}

/// Two's complement round-trips at 16 bits.
pub proof fn lemma_i16_cast_round_trip(v: i16)
    ensures
        ((v as u16) as i16) == v,
{
    assert(((v as u16) as i16) == v) by (bit_vector);
}

/// Two's complement round-trips at 32 bits.
pub proof fn lemma_i32_cast_round_trip(v: i32)
    ensures
        ((v as u32) as i32) == v,
{
    assert(((v as u32) as i32) == v) by (bit_vector);
}

/// Two's complement round-trips at 64 bits.
pub proof fn lemma_i64_cast_round_trip(v: i64)
    ensures
        ((v as u64) as i64) == v,
{
    assert(((v as u64) as i64) == v) by (bit_vector);
}

/// Two's complement round-trips at 128 bits.
pub proof fn lemma_i128_cast_round_trip(v: i128)
    ensures
        ((v as u128) as i128) == v,
{
    assert(((v as u128) as i128) == v) by (bit_vector);
}

/// Writes the two big-endian bytes of a 16-bit unsigned integer.
pub fn u16_be_vec(v: u16) -> (r: Vec<u8>)
    ensures
        r@ =~= spec_u16_be(v),
{
    let mut r: Vec<u8> = Vec::new();
    r.push((v >> 8) as u8);
    r.push(#[verifier::truncate] (v as u8));
    r
}

/// Writes the four big-endian bytes of a 32-bit unsigned integer.
pub fn u32_be_vec(v: u32) -> (r: Vec<u8>)
    ensures
        r@ =~= spec_u32_be(v),
{
    let mut r: Vec<u8> = Vec::new();
    r.push((v >> 24) as u8);
    r.push(#[verifier::truncate] ((v >> 16) as u8));
    r.push(#[verifier::truncate] ((v >> 8) as u8));
    r.push(#[verifier::truncate] (v as u8));
    r
}

/// Writes the eight big-endian bytes of a 64-bit unsigned integer.
pub fn u64_be_vec(v: u64) -> (r: Vec<u8>)
    ensures
        r@ =~= spec_u64_be(v),
{
    let mut r: Vec<u8> = Vec::new();
    r.push((v >> 56) as u8);
    r.push(#[verifier::truncate] ((v >> 48) as u8));
    r.push(#[verifier::truncate] ((v >> 40) as u8));
    r.push(#[verifier::truncate] ((v >> 32) as u8));
    r.push(#[verifier::truncate] ((v >> 24) as u8));
    r.push(#[verifier::truncate] ((v >> 16) as u8));
    r.push(#[verifier::truncate] ((v >> 8) as u8));
    r.push(#[verifier::truncate] (v as u8));
    r
}

/// Writes the sixteen big-endian bytes of a 128-bit unsigned integer.
pub fn u128_be_vec(v: u128) -> (r: Vec<u8>)
    ensures
        r@ =~= spec_u128_be(v),
{
    let mut r: Vec<u8> = Vec::new();
    r.push((v >> 120) as u8);
    r.push(#[verifier::truncate] ((v >> 112) as u8));
    r.push(#[verifier::truncate] ((v >> 104) as u8));
    r.push(#[verifier::truncate] ((v >> 96) as u8));
    r.push(#[verifier::truncate] ((v >> 88) as u8));
    r.push(#[verifier::truncate] ((v >> 80) as u8));
    r.push(#[verifier::truncate] ((v >> 72) as u8));
    r.push(#[verifier::truncate] ((v >> 64) as u8));
    r.push(#[verifier::truncate] ((v >> 56) as u8));
    r.push(#[verifier::truncate] ((v >> 48) as u8));
    r.push(#[verifier::truncate] ((v >> 40) as u8));
    r.push(#[verifier::truncate] ((v >> 32) as u8));
    r.push(#[verifier::truncate] ((v >> 24) as u8));
    r.push(#[verifier::truncate] ((v >> 16) as u8));
    r.push(#[verifier::truncate] ((v >> 8) as u8));
    r.push(#[verifier::truncate] (v as u8));
    r
}

/// Reads a 16-bit unsigned integer from two big-endian bytes.
pub fn u16_from_be_slice(s: &[u8]) -> (r: u16)
    requires
        s@.len() == 2,
    ensures
        r == spec_u16_from_be(s@),
{
    ((s[0] as u16) << 8) | (s[1] as u16)
}

/// Reads a 32-bit unsigned integer from four big-endian bytes.
pub fn u32_from_be_slice(s: &[u8]) -> (r: u32)
    requires
        s@.len() == 4,
    ensures
        r == spec_u32_from_be(s@),
{
    ((s[0] as u32) << 24) | ((s[1] as u32) << 16) | ((s[2] as u32) << 8) | (s[3] as u32)
}

/// Reads a 64-bit unsigned integer from eight big-endian bytes.
pub fn u64_from_be_slice(s: &[u8]) -> (r: u64)
    requires
        s@.len() == 8,
    ensures
        r == spec_u64_from_be(s@),
{
    ((s[0] as u64) << 56) | ((s[1] as u64) << 48) | ((s[2] as u64) << 40) | ((s[3] as u64) << 32)
        | ((s[4] as u64) << 24) | ((s[5] as u64) << 16) | ((s[6] as u64) << 8) | (s[7] as u64)
}

/// Reads a 128-bit unsigned integer from sixteen big-endian bytes.
pub fn u128_from_be_slice(s: &[u8]) -> (r: u128)
    requires
        s@.len() == 16,
    ensures
        r == spec_u128_from_be(s@),
{
    ((s[0] as u128) << 120) | ((s[1] as u128) << 112) | ((s[2] as u128) << 104) | ((s[3]
        as u128) << 96) | ((s[4] as u128) << 88) | ((s[5] as u128) << 80) | ((s[6] as u128) << 72)
        | ((s[7] as u128) << 64) | ((s[8] as u128) << 56) | ((s[9] as u128) << 48) | ((s[10]
        as u128) << 40) | ((s[11] as u128) << 32) | ((s[12] as u128) << 24) | ((s[13] as u128)
        << 16) | ((s[14] as u128) << 8) | (s[15] as u128)
}

} // verus!
