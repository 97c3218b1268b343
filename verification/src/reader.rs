use crate::bytes::copy_range;
use crate::container::{
    chunk_area, chunk_ok, chunk_payload, chunk_rest, glb_parse, header_ok, tag_bin, tag_json,
    GlbContainer, VERSION,
};
use crate::error::Error;
use crate::word::{lemma_word_at_window, read_word};
use vstd::prelude::*;

verus! {

/// Whether the four bytes at `at` are `t0 t1 t2 t3`.
fn tag_matches(s: &[u8], at: usize, t0: u8, t1: u8, t2: u8, t3: u8) -> (r: bool)
    requires
        at + 4 <= s@.len(),
    ensures
        r == (s@.subrange(at as int, at + 4) == seq![t0, t1, t2, t3]),
{
    let r = s[at] == t0 && s[at + 1] == t1 && s[at + 2] == t2 && s[at + 3] == t3;
    proof {
        let w = s@.subrange(at as int, at + 4);
        let t = seq![t0, t1, t2, t3];
        if r {
            assert(w =~= t);
        } else {
            assert(w[0] == s@[at as int] && w[1] == s@[at + 1] && w[2] == s@[at + 2] && w[3]
                == s@[at + 3]);
            assert(t[0] == t0 && t[1] == t1 && t[2] == t2 && t[3] == t3);
        }
    }
    r
}

/// Splits a GLB file into its JSON text and its binary blob.
///
/// Fails with [`Error::FormatError`] exactly where the framing is malformed:
/// fewer than twelve bytes, a magic other than `"glTF"`, a version other
/// than 2, a total length below twelve or beyond the data, a first chunk
/// that is not a complete JSON chunk, or following bytes that are not a
/// complete binary chunk. The blob is empty when there is no second chunk.
pub fn parse_glb(bytes: &[u8]) -> (r: Result<GlbContainer, Error>)
    ensures
        match glb_parse(bytes@) {
            Some(glb) => r is Ok && r->Ok_0@ == glb,
            None => r == Err::<GlbContainer, Error>(Error::FormatError),
        },
{
    if bytes.len() < 12 {
        return Err(Error::FormatError);
    }
    if !tag_matches(bytes, 0, 0x67, 0x6C, 0x54, 0x46) {
        return Err(Error::FormatError);
    }
    let version: u32 = read_word(bytes, 4);
    if version != VERSION {
        return Err(Error::FormatError);
    }
    let total_word: u32 = read_word(bytes, 8);
    let total: usize = total_word as usize;
    if total < 12 || total > bytes.len() {
        return Err(Error::FormatError);
    }
    assert(header_ok(bytes@));
    let ghost area = chunk_area(bytes@);
    assert(area.len() == total - 12);
    if total - 12 < 8 {
        return Err(Error::FormatError);
    }
    let json_len: usize = read_word(bytes, 12) as usize;
    proof {
        assert(bytes@.subrange(12, 16) =~= area.subrange(0, 4));
        lemma_word_at_window(bytes@, area, 12, 0);
        assert(bytes@.subrange(16, 20) =~= area.subrange(4, 8));
    }
    if !tag_matches(bytes, 16, 0x4A, 0x53, 0x4F, 0x4E) {
        return Err(Error::FormatError);
    }
    if json_len > total - 20 {
        return Err(Error::FormatError);
    }
    assert(chunk_ok(area, tag_json()));
    let json = copy_range(bytes, 20, 20 + json_len);
    assert(json@ =~= chunk_payload(area));
    let next: usize = 20 + json_len;
    let ghost rest = chunk_rest(area);
    assert(rest =~= bytes@.subrange(next as int, total as int));
    if next == total {
        return Ok(GlbContainer { json, bin: Vec::new() });
    }
    if total - next < 8 {
        return Err(Error::FormatError);
    }
    let bin_len: usize = read_word(bytes, next) as usize;
    proof {
        assert(bytes@.subrange(next as int, next + 4) =~= rest.subrange(0, 4));
        lemma_word_at_window(bytes@, rest, next as int, 0);
        assert(bytes@.subrange(next + 4, next + 8) =~= rest.subrange(4, 8));
    }
    if !tag_matches(bytes, next + 4, 0x42, 0x49, 0x4E, 0x00) {
        return Err(Error::FormatError);
    }
    if bin_len > total - next - 8 {
        return Err(Error::FormatError);
    }
    assert(chunk_ok(rest, tag_bin()));
    let bin = copy_range(bytes, next + 8, next + 8 + bin_len);
    assert(bin@ =~= chunk_payload(rest));
    Ok(GlbContainer { json, bin })
}

} // verus!
