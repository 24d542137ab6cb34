use vstd::prelude::*;

verus! {

/// The sign bit of a double's bit pattern.
pub const SIGN: u64 = 0x8000_0000_0000_0000;

/// The order of two doubles as their bit patterns give it: sign, then
/// magnitude, with a negative zero below a positive one.
pub open spec fn bits_less(a: u64, b: u64) -> bool {
    if a & SIGN == 0 && b & SIGN == 0 {
        a < b
    } else if a & SIGN != 0 && b & SIGN != 0 {
        b < a
    } else {
        a & SIGN != 0
    }
}

/// The key of a double given by its bit pattern: negative values have all their
/// bits flipped, the others their sign bit set.
pub open spec fn key_spec(bits: u64) -> u64 {
    if bits & SIGN != 0 {
        !bits
    } else {
        bits | SIGN
    }
}

/// The key of the distance whose IEEE-754 bit pattern is `bits`. Keys compare as
/// the distances do.
pub fn distance_key(bits: u64) -> (r: u64)
    ensures
        r == key_spec(bits),
{
    if bits & SIGN != 0 {
        !bits
    } else {
        bits | SIGN
    }
}

/// Keys order doubles exactly as their signs and magnitudes do.
pub proof fn lemma_key_preserves_order(a: u64, b: u64)
    ensures
        key_spec(a) < key_spec(b) <==> bits_less(a, b),
        key_spec(a) == key_spec(b) <==> a == b,
{
    assert(key_spec(a) < key_spec(b) <==> bits_less(a, b)) by (bit_vector);
    assert(key_spec(a) == key_spec(b) <==> a == b) by (bit_vector);
}

} // verus!
