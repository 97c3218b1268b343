use vstd::prelude::*;

verus! {

/// The four bytes of `x`, least significant first.
pub open spec fn word_bytes(x: u32) -> Seq<u8> {
    seq![
        (x % 256) as u8,
        (x / 256 % 256) as u8,
        (x / 65536 % 256) as u8,
        (x / 16777216) as u8,
    ]
}

/// The 32-bit word whose little-endian bytes are `s[i .. i + 4]`.
pub open spec fn word_at(s: Seq<u8>, i: int) -> u32 {
    (s[i] + s[i + 1] * 256 + s[i + 2] * 65536 + s[i + 3] * 16777216) as u32
}

/// The little-endian bytes of each word of `ws`, in order.
pub open spec fn words_bytes(ws: Seq<u32>) -> Seq<u8> {
    Seq::new(4 * ws.len(), |k: int| word_bytes(ws[k / 4])[k % 4])
}

/// The `n` consecutive words that start at byte `start` of `s`.
pub open spec fn words_at(s: Seq<u8>, start: int, n: int) -> Seq<u32> {
    Seq::new(n as nat, |k: int| word_at(s, start + 4 * k))
}

/// Reading a word back from its own bytes gives the word.
pub proof fn lemma_word_round_trip(x: u32)
    ensures
        word_bytes(x).len() == 4,
        word_at(word_bytes(x), 0) == x,
{
}

/// A word read at `i` depends only on the four bytes from `i` on.
pub proof fn lemma_word_at_window(s: Seq<u8>, t: Seq<u8>, i: int, j: int)
    requires
        0 <= i,
        i + 4 <= s.len(),
        0 <= j,
        j + 4 <= t.len(),
        s.subrange(i, i + 4) == t.subrange(j, j + 4),
    ensures
        word_at(s, i) == word_at(t, j),
{
    let a = s.subrange(i, i + 4);
    let b = t.subrange(j, j + 4);
    assert(a[0] == b[0] && a[1] == b[1] && a[2] == b[2] && a[3] == b[3]);
    assert(a[0] == s[i] && a[1] == s[i + 1] && a[2] == s[i + 2] && a[3] == s[i + 3]);
    assert(b[0] == t[j] && b[1] == t[j + 1] && b[2] == t[j + 2] && b[3] == t[j + 3]);
}

/// Decoding the encoding of `ws`, wherever it sits in `s`, gives `ws`.
pub proof fn lemma_words_round_trip(s: Seq<u8>, start: int, ws: Seq<u32>)
    requires
        0 <= start,
        start + 4 * ws.len() <= s.len(),
        s.subrange(start, start + 4 * ws.len()) == words_bytes(ws),
    ensures
        words_at(s, start, ws.len() as int) == ws,
{
    let enc = words_bytes(ws);
    assert forall|k: int| 0 <= k < ws.len() implies word_at(s, start + 4 * k) == ws[k] by {
        let x = ws[k];
        assert(s[start + 4 * k] == enc[4 * k]);
        assert(s[start + 4 * k + 1] == enc[4 * k + 1]);
        assert(s[start + 4 * k + 2] == enc[4 * k + 2]);
        assert(s[start + 4 * k + 3] == enc[4 * k + 3]);
        assert(enc[4 * k] == word_bytes(x)[0]);
        assert(enc[4 * k + 1] == word_bytes(x)[1]);
        assert(enc[4 * k + 2] == word_bytes(x)[2]);
        assert(enc[4 * k + 3] == word_bytes(x)[3]);
        lemma_word_round_trip(x);
    }
    assert(words_at(s, start, ws.len() as int) =~= ws);
}

/// Appends the little-endian bytes of `x` to `out`.
pub fn push_word(out: &mut Vec<u8>, x: u32)
    ensures
        final(out)@ == old(out)@ + word_bytes(x),
{
    out.push((x % 256) as u8);
    out.push((x / 256 % 256) as u8);
    out.push((x / 65536 % 256) as u8);
    out.push((x / 16777216) as u8);
    assert(out@ =~= old(out)@ + word_bytes(x));
}

/// Reads the little-endian word at byte `i` of `s`.
pub fn read_word(s: &[u8], i: usize) -> (x: u32)
    requires
        i + 4 <= s@.len(),
    ensures
        x == word_at(s@, i as int),
{
    let b0: u32 = s[i] as u32;
    let b1: u32 = s[i + 1] as u32;
    let b2: u32 = s[i + 2] as u32;
    let b3: u32 = s[i + 3] as u32;
    b0 + b1 * 256 + b2 * 65536 + b3 * 16777216
}

/// The little-endian encoding of a sequence of words.
pub fn encode_words(ws: &[u32]) -> (out: Vec<u8>)
    ensures
        out@ == words_bytes(ws@),
{
    let mut out: Vec<u8> = Vec::new();
    let mut i: usize = 0;
    while i < ws.len()
        invariant
            i <= ws@.len(),
            out@ == words_bytes(ws@.take(i as int)),
        decreases ws@.len() - i,
    {
        let ghost before = out@;
        push_word(&mut out, ws[i]);
        proof {
            let a = ws@.take(i as int);
            let b = ws@.take(i + 1);
            assert(out@ =~= words_bytes(b)) by {
                assert forall|k: int| 0 <= k < 4 * b.len() implies out@[k] == words_bytes(b)[k] by {
                    if k < 4 * i {
                        assert(a[k / 4] == b[k / 4]);
                        assert(out@[k] == before[k]);
                    } else {
                        assert(k / 4 == i);
                        assert(out@[k] == word_bytes(ws@[i as int])[k - 4 * i]);
                    }
                }
            }
        }
        i += 1;
    }
    assert(ws@.take(ws@.len() as int) =~= ws@);
    out
}

} // verus!
