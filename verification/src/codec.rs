use vstd::prelude::*;

verus! {

/// The number a 16-byte little-endian encoding denotes.
pub open spec fn spec_nonce_from_bytes(s: Seq<u8>) -> u128
    recommends
        s.len() == 16,
{
    (s[0] as u128) | (s[1] as u128) << 8 | (s[2] as u128) << 16 | (s[3] as u128) << 24 | (
    s[4] as u128) << 32 | (s[5] as u128) << 40 | (s[6] as u128) << 48 | (s[7] as u128) << 56 | (
    s[8] as u128) << 64 | (s[9] as u128) << 72 | (s[10] as u128) << 80 | (s[11] as u128) << 88 | (
    s[12] as u128) << 96 | (s[13] as u128) << 104 | (s[14] as u128) << 112 | (s[15] as u128) << 120
}

/// The 16-byte little-endian encoding of a number.
pub open spec fn spec_nonce_to_bytes(x: u128) -> Seq<u8> {
    seq![
        (x & 0xff) as u8,
        ((x >> 8) & 0xff) as u8,
        ((x >> 16) & 0xff) as u8,
        ((x >> 24) & 0xff) as u8,
        ((x >> 32) & 0xff) as u8,
        ((x >> 40) & 0xff) as u8,
        ((x >> 48) & 0xff) as u8,
        ((x >> 56) & 0xff) as u8,
        ((x >> 64) & 0xff) as u8,
        ((x >> 72) & 0xff) as u8,
        ((x >> 80) & 0xff) as u8,
        ((x >> 88) & 0xff) as u8,
        ((x >> 96) & 0xff) as u8,
        ((x >> 104) & 0xff) as u8,
        ((x >> 112) & 0xff) as u8,
        ((x >> 120) & 0xff) as u8,
    ]
}

/// Reads a correlation nonce from its 16-byte little-endian wire form.
pub fn nonce_from_bytes(b: &[u8; 16]) -> (x: u128)
    ensures
        x == spec_nonce_from_bytes(b@),
{
    (b[0] as u128) | (b[1] as u128) << 8 | (b[2] as u128) << 16 | (b[3] as u128) << 24 | (
    b[4] as u128) << 32 | (b[5] as u128) << 40 | (b[6] as u128) << 48 | (b[7] as u128) << 56 | (
    b[8] as u128) << 64 | (b[9] as u128) << 72 | (b[10] as u128) << 80 | (b[11] as u128) << 88 | (
    b[12] as u128) << 96 | (b[13] as u128) << 104 | (b[14] as u128) << 112 | (b[15] as u128) << 120
}

/// Writes a correlation nonce in its 16-byte little-endian wire form.
pub fn nonce_to_bytes(x: u128) -> (b: [u8; 16])
    ensures
        b@ == spec_nonce_to_bytes(x),
{
    let b: [u8; 16] = [
        (x & 0xff) as u8,
        ((x >> 8) & 0xff) as u8,
        ((x >> 16) & 0xff) as u8,
        ((x >> 24) & 0xff) as u8,
        ((x >> 32) & 0xff) as u8,
        ((x >> 40) & 0xff) as u8,
        ((x >> 48) & 0xff) as u8,
        ((x >> 56) & 0xff) as u8,
        ((x >> 64) & 0xff) as u8,
        ((x >> 72) & 0xff) as u8,
        ((x >> 80) & 0xff) as u8,
        ((x >> 88) & 0xff) as u8,
        ((x >> 96) & 0xff) as u8,
        ((x >> 104) & 0xff) as u8,
        ((x >> 112) & 0xff) as u8,
        ((x >> 120) & 0xff) as u8,
    ];
    proof {
        assert(b@ =~= spec_nonce_to_bytes(x));
    }
    b
}

/// Encoding a nonce and reading it back yields the nonce: the correlation
/// value a depositor supplies is exactly the one the attestation reports.
pub proof fn lemma_nonce_round_trip(x: u128)
    ensures
        spec_nonce_from_bytes(spec_nonce_to_bytes(x)) == x,
{
    let s = spec_nonce_to_bytes(x);
    assert(x == ((x & 0xff) as u8 as u128) | (((x >> 8) & 0xff) as u8 as u128) << 8 | (((x >> 16)
        & 0xff) as u8 as u128) << 16 | (((x >> 24) & 0xff) as u8 as u128) << 24 | (((x >> 32)
        & 0xff) as u8 as u128) << 32 | (((x >> 40) & 0xff) as u8 as u128) << 40 | (((x >> 48)
        & 0xff) as u8 as u128) << 48 | (((x >> 56) & 0xff) as u8 as u128) << 56 | (((x >> 64)
        & 0xff) as u8 as u128) << 64 | (((x >> 72) & 0xff) as u8 as u128) << 72 | (((x >> 80)
        & 0xff) as u8 as u128) << 80 | (((x >> 88) & 0xff) as u8 as u128) << 88 | (((x >> 96)
        & 0xff) as u8 as u128) << 96 | (((x >> 104) & 0xff) as u8 as u128) << 104 | (((x >> 112)
        & 0xff) as u8 as u128) << 112 | (((x >> 120) & 0xff) as u8 as u128) << 120) by (bit_vector);
    assert(spec_nonce_from_bytes(s) == x);
}

} // verus!
