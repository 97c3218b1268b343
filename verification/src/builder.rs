use crate::bytes::{push_all, push_fill};
use crate::container::BIN_FILL;
use crate::layout::{lemma_padded_len, padded, padded_len, padded_payload};
use vstd::prelude::*;

verus! {

/// The buffer after `src` was appended to `bin`: `bin`, then `src` as it
/// is, then zeros up to the next multiple of four.
pub open spec fn appended(bin: Seq<u8>, src: Seq<u8>) -> Seq<u8> {
    bin + padded_payload(src, BIN_FILL)
}

/// The buffer after the spans of `spans` were appended, one after another,
/// to an empty buffer.
pub open spec fn appended_all(spans: Seq<Seq<u8>>) -> Seq<u8>
    decreases spans.len(),
{
    if spans.len() == 0 {
        Seq::empty()
    } else {
        appended(appended_all(spans.drop_last()), spans.last())
    }
}

/// Appending a span leaves what was in the buffer where it was, puts the
/// span right behind it, and grows the buffer by the padded length of the
/// span.
pub proof fn lemma_appended(bin: Seq<u8>, src: Seq<u8>)
    ensures
        appended(bin, src).len() == bin.len() + padded_len(src.len() as int),
        appended(bin, src).subrange(0, bin.len() as int) == bin,
        appended(bin, src).subrange(bin.len() as int, (bin.len() + src.len()) as int) == src,
        src.len() % 4 == 0 ==> appended(bin, src) == bin + src,
{
    lemma_padded_len(src.len() as int);
    assert(appended(bin, src).subrange(0, bin.len() as int) =~= bin);
    assert(appended(bin, src).subrange(bin.len() as int, (bin.len() + src.len()) as int) =~= src);
    if src.len() % 4 == 0 {
        assert(appended(bin, src) =~= bin + src);
    }
}

/// Appends `src` to the aligned buffer `bin` and pads the buffer with zeros
/// to a multiple of four. Returns the offset at which `src` starts and the
/// length of `src` without the padding.
pub fn append_bytes(bin: &mut Vec<u8>, src: &[u8]) -> (span: (u32, u32))
    requires
        old(bin)@.len() % 4 == 0,
        old(bin)@.len() + padded_len(src@.len() as int) <= u32::MAX,
    ensures
        final(bin)@ == appended(old(bin)@, src@),
        final(bin)@.len() == old(bin)@.len() + padded_len(src@.len() as int),
        final(bin)@.len() % 4 == 0,
        span.0 == old(bin)@.len(),
        span.1 == src@.len(),
        final(bin)@.subrange(span.0 as int, span.0 + span.1) == src@,
        src@.len() > 0 ==> span.0 < final(bin)@.len(),
{
    proof {
        lemma_padded_len(src@.len() as int);
    }
    let ofs: usize = bin.len();
    let len: usize = src.len();
    push_all(bin, src);
    push_fill(bin, padded(len) - len, BIN_FILL);
    assert(bin@ =~= appended(old(bin)@, src@));
    assert(bin@.subrange(ofs as int, ofs + len) =~= src@);
    (ofs as u32, len as u32)
}

/// An append-only byte buffer whose length is a multiple of four at all
/// times, so that every span it hands out starts on a four-byte boundary.
pub struct Builder {
    bytes: Vec<u8>,
}

impl View for Builder {
    type V = Seq<u8>;

    closed spec fn view(&self) -> Seq<u8> {
        self.bytes@
    }
}

impl Builder {
    #[verifier::type_invariant]
    spec fn aligned(self) -> bool {
        self.bytes@.len() % 4 == 0
    }

    /// An empty buffer.
    pub fn new() -> (b: Builder)
        ensures
            b@ == Seq::<u8>::empty(),
    {
        Builder { bytes: Vec::new() }
    }

    /// The number of bytes in the buffer, always a multiple of four.
    pub fn len(&self) -> (n: usize)
        ensures
            n == self@.len(),
            n % 4 == 0,
    {
        proof {
            use_type_invariant(self);
        }
        self.bytes.len()
    }

    /// Appends `src` at the end of the buffer, then pads with zeros to a
    /// multiple of four. Returns the offset at which `src` starts and the
    /// length of `src` without the padding.
    pub fn append(&mut self, src: &[u8]) -> (span: (u32, u32))
        requires
            old(self)@.len() + padded_len(src@.len() as int) <= u32::MAX,
        ensures
            final(self)@ == appended(old(self)@, src@),
            final(self)@.len() == old(self)@.len() + padded_len(src@.len() as int),
            old(self)@.len() % 4 == 0,
            final(self)@.len() % 4 == 0,
            span.0 == old(self)@.len(),
            span.1 == src@.len(),
            final(self)@.subrange(span.0 as int, span.0 + span.1) == src@,
            src@.len() > 0 ==> span.0 < final(self)@.len(),
    {
        proof {
            use_type_invariant(&*self);
        }
        let mut bytes: Vec<u8> = Vec::new();
        core::mem::swap(&mut self.bytes, &mut bytes);
        let span = append_bytes(&mut bytes, src);
        core::mem::swap(&mut self.bytes, &mut bytes);
        span
    }

    /// The bytes appended so far, with their padding.
    pub fn as_slice(&self) -> (s: &[u8])
        ensures
            s@ == self@,
            s@.len() % 4 == 0,
    {
        proof {
            use_type_invariant(self);
        }
        self.bytes.as_slice()
    }

    /// Gives up the buffer.
    pub fn into_bytes(self) -> (bytes: Vec<u8>)
        ensures
            bytes@ == self@,
            bytes@.len() % 4 == 0,
    {
        proof {
            use_type_invariant(&self);
        }
        self.bytes
    }
}

/// After any sequence of appends to an empty buffer the length is a
/// multiple of four. The offset handed out by each append is the length of
/// the buffer before it, hence a multiple of four, and, where the appended
/// span is not empty, lies inside the buffer as it is after that append.
pub proof fn lemma_appends_stay_aligned(spans: Seq<Seq<u8>>, k: int)
    requires
        0 <= k < spans.len(),
    ensures
        appended_all(spans).len() % 4 == 0,
        appended_all(spans.take(k)).len() % 4 == 0,
        appended_all(spans.take(k + 1)) == appended(appended_all(spans.take(k)), spans[k]),
        spans[k].len() > 0 ==> appended_all(spans.take(k)).len() < appended_all(
            spans.take(k + 1),
        ).len(),
        appended_all(spans.take(k + 1)).subrange(
            appended_all(spans.take(k)).len() as int,
            (appended_all(spans.take(k)).len() + spans[k].len()) as int,
        ) == spans[k],
{
    lemma_appended_all_aligned(spans);
    lemma_appended_all_aligned(spans.take(k));
    assert(spans.take(k + 1).drop_last() =~= spans.take(k));
    assert(spans.take(k + 1).last() == spans[k]);
    lemma_padded_len(spans[k].len() as int);
    let before = appended_all(spans.take(k));
    assert(appended(before, spans[k]).subrange(
        before.len() as int,
        (before.len() + spans[k].len()) as int,
    ) =~= spans[k]);
}

/// The length of a buffer built by appends alone is a multiple of four.
pub proof fn lemma_appended_all_aligned(spans: Seq<Seq<u8>>)
    ensures
        appended_all(spans).len() % 4 == 0,
    decreases spans.len(),
{
    if spans.len() > 0 {
        lemma_appended_all_aligned(spans.drop_last());
        lemma_padded_len(spans.last().len() as int);
    }
}

} // verus!
