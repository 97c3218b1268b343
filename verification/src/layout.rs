use vstd::prelude::*;

verus! {

/// The least multiple of four that is not below `n` (for `n >= 0`).
pub open spec fn padded_len(n: int) -> int {
    (n + 3) / 4 * 4
}

/// The number of filler bytes that bring `n` up to `padded_len(n)`.
pub open spec fn padding_len(n: int) -> int {
    padded_len(n) - n
}

/// `n` copies of `fill`.
pub open spec fn filler(n: int, fill: u8) -> Seq<u8> {
    Seq::new(n as nat, |i: int| fill)
}

/// `payload` followed by the filler that brings its length to a multiple
/// of four.
pub open spec fn padded_payload(payload: Seq<u8>, fill: u8) -> Seq<u8> {
    payload + filler(padding_len(payload.len() as int), fill)
}

/// `padded_len(n)` is a multiple of four, lies in `[n, n + 4)`, and is `n`
/// itself when `n` is already aligned.
pub proof fn lemma_padded_len(n: int)
    requires
        n >= 0,
    ensures
        padded_len(n) % 4 == 0,
        n <= padded_len(n) < n + 4,
        n % 4 == 0 ==> padded_len(n) == n,
{
}

/// Rounds `*n` up to the next multiple of four.
pub fn align_to_multiple_of_four(n: &mut u32)
    requires
        *old(n) <= u32::MAX - 3,
    ensures
        *final(n) == padded_len(*old(n) as int),
        *final(n) % 4 == 0,
        *old(n) <= *final(n) < *old(n) + 4,
{
    let v: u32 = *n;
    assert((v + 3) as u32 & !3u32 == ((v + 3) / 4 * 4) as u32) by (bit_vector)
        requires
            v <= u32::MAX - 3,
    ;
    *n = (v + 3) & !3;
}

/// `padded_len` on machine lengths.
pub fn padded(n: usize) -> (r: usize)
    requires
        n <= usize::MAX - 3,
    ensures
        r == padded_len(n as int),
{
    (n + 3) / 4 * 4
}

} // verus!
