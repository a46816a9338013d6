use vstd::prelude::*;

verus! {

/// The `n` least-significant base-256 digits of `x`, least significant first.
pub open spec fn le_bytes_of(x: nat, n: nat) -> Seq<u8>
    decreases n,
{
    if n == 0 {
        Seq::empty()
    } else {
        seq![(x % 256) as u8] + le_bytes_of(x / 256, (n - 1) as nat)
    }
}

/// How many base-256 digits `x` takes (at least one).
pub open spec fn byte_len_of(x: nat) -> nat
    decreases x,
{
    if x < 256 {
        1
    } else {
        1 + byte_len_of(x / 256)
    }
}

/// The SCALE compact encoding of an unsigned integer: the two low bits of the
/// first byte select the mode. Values below 2^6 take a single byte holding
/// `4 * x`; values below 2^14 take two little-endian bytes holding
/// `4 * x + 1`; values below 2^30 take four little-endian bytes holding
/// `4 * x + 2`; larger values take a length byte `4 * (n - 4) + 3` followed
/// by the `n` little-endian bytes of `x`, where `n` is the least number of
/// bytes that holds `x`.
pub open spec fn compact_bytes(x: u128) -> Seq<u8> {
    if x < 64 {
        seq![(x * 4) as u8]
    } else if x < 16384 {
        le_bytes_of(4 * (x as nat) + 1, 2)
    } else if x < 1073741824 {
        le_bytes_of(4 * (x as nat) + 2, 4)
    } else {
        seq![(4 * (byte_len_of(x as nat) - 4) + 3) as u8] + le_bytes_of(
            x as nat,
            byte_len_of(x as nat),
        )
    }
}

/// Relies on parity_scale_codec: `Compact(value).encode()` produces the SCALE
/// compact encoding of `value` described by `compact_bytes`.
#[verifier::external_body]
pub(crate) fn compact_encode_u32(value: u32) -> (r: Vec<u8>)
    ensures
        r@ == compact_bytes(value as u128),
{
    parity_scale_codec::Encode::encode(&parity_scale_codec::Compact(value))
}

/// Relies on parity_scale_codec: `Compact(value).encode()` produces the SCALE
/// compact encoding of `value` described by `compact_bytes`.
#[verifier::external_body]
pub(crate) fn compact_encode_u128(value: u128) -> (r: Vec<u8>)
    ensures
        r@ == compact_bytes(value),
{
    parity_scale_codec::Encode::encode(&parity_scale_codec::Compact(value))
}

/// Byte-for-byte equality of two byte vectors.
pub fn bytes_eq(a: &Vec<u8>, b: &Vec<u8>) -> (r: bool)
    ensures
        r == (a@ == b@),
{
    if a.len() != b.len() {
        return false;
    }
    let mut i: usize = 0;
    while i < a.len()
        invariant
            i <= a.len(),
            a.len() == b.len(),
            forall|j: int| 0 <= j < i ==> a@[j] == b@[j],
        decreases a.len() - i,
    {
        if a[i] != b[i] {
            return false;
        }
        i += 1;
    }
    proof {
        assert(a@ =~= b@);
    }
    true
}

} // verus!
