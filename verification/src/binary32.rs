use vstd::prelude::*;

verus! {

/// The bit pattern of zero.
pub const ZERO: u32 = 0;

/// The bit pattern of one.
pub const ONE: u32 = 0x3F80_0000;

/// The bit pattern of the binary32 number nearest to nine tenths.
pub const NINE_TENTHS: u32 = 0x3F66_6666;

/// The bit pattern of the greatest finite number.
pub const GREATEST_FINITE: u32 = 0x7F7F_FFFF;

/// The bit pattern of the least finite number.
pub const LEAST_FINITE: u32 = 0xFF7F_FFFF;

/// The bit pattern of positive infinity; every greater magnitude is a NaN.
pub const INFINITY: u32 = 0x7F80_0000;

/// The pattern without its sign bit.
pub open spec fn magnitude(bits: u32) -> int {
    (bits % 0x8000_0000) as int
}

/// Whether the sign bit is set.
pub open spec fn is_negative(bits: u32) -> bool {
    bits >= 0x8000_0000
}

/// Whether the pattern is not a number.
pub open spec fn spec_is_nan(bits: u32) -> bool {
    magnitude(bits) > INFINITY
}

/// An integer that orders the patterns as their numbers are ordered: for
/// patterns `a` and `b` that are numbers, `a` is less than `b` as a number
/// exactly if `order_key(a) < order_key(b)`. Both zeros have key 0.
pub open spec fn order_key(bits: u32) -> int {
    if is_negative(bits) {
        -magnitude(bits)
    } else {
        magnitude(bits)
    }
}

/// The lesser of two patterns. A NaN loses against a number, and of two
/// numbers that compare equal the first is kept.
pub open spec fn spec_lesser(a: u32, b: u32) -> u32 {
    if spec_is_nan(b) {
        a
    } else if spec_is_nan(a) {
        b
    } else if order_key(b) < order_key(a) {
        b
    } else {
        a
    }
}

/// The greater of two patterns. A NaN loses against a number, and of two
/// numbers that compare equal the first is kept.
pub open spec fn spec_greater(a: u32, b: u32) -> u32 {
    if spec_is_nan(b) {
        a
    } else if spec_is_nan(a) {
        b
    } else if order_key(b) > order_key(a) {
        b
    } else {
        a
    }
}

/// Whether the pattern is not a number.
#[verifier::when_used_as_spec(spec_is_nan)]
pub fn is_nan(bits: u32) -> (r: bool)
    ensures
        r == spec_is_nan(bits),
{
    bits % 0x8000_0000 > INFINITY
}

/// The order key of a pattern.
pub fn key(bits: u32) -> (k: i64)
    ensures
        k == order_key(bits),
{
    let m: i64 = (bits % 0x8000_0000) as i64;
    if bits >= 0x8000_0000 {
        -m
    } else {
        m
    }
}

/// The lesser of two patterns.
#[verifier::when_used_as_spec(spec_lesser)]
pub fn lesser(a: u32, b: u32) -> (r: u32)
    ensures
        r == spec_lesser(a, b),
{
    if is_nan(b) {
        a
    } else if is_nan(a) {
        b
    } else if key(b) < key(a) {
        b
    } else {
        a
    }
}

/// The greater of two patterns.
#[verifier::when_used_as_spec(spec_greater)]
pub fn greater(a: u32, b: u32) -> (r: u32)
    ensures
        r == spec_greater(a, b),
{
    if is_nan(b) {
        a
    } else if is_nan(a) {
        b
    } else if key(b) > key(a) {
        b
    } else {
        a
    }
}

} // verus!
