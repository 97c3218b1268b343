use crate::layout::{lemma_padded_len, padded_len, padded_payload};
use crate::word::{lemma_word_at_window, lemma_word_round_trip, word_at, word_bytes};
use vstd::prelude::*;

verus! {

/// The container version this library reads and writes.
pub const VERSION: u32 = 2;

/// Filler byte after the JSON payload (a space).
pub const JSON_FILL: u8 = 0x20;

/// Filler byte after the binary payload.
pub const BIN_FILL: u8 = 0;

/// The file magic, `"glTF"`.
pub open spec fn tag_gltf() -> Seq<u8> {
    seq![0x67u8, 0x6Cu8, 0x54u8, 0x46u8]
}

/// The type of the JSON chunk, `"JSON"`.
pub open spec fn tag_json() -> Seq<u8> {
    seq![0x4Au8, 0x53u8, 0x4Fu8, 0x4Eu8]
}

/// The type of the binary chunk, `"BIN\0"`.
pub open spec fn tag_bin() -> Seq<u8> {
    seq![0x42u8, 0x49u8, 0x4Eu8, 0x00u8]
}

/// The payloads of a GLB file: the JSON document text and the binary blob,
/// which is empty when the file has no binary chunk.
pub struct GlbContainer {
    pub json: Vec<u8>,
    pub bin: Vec<u8>,
}

/// The mathematical content of a [`GlbContainer`].
pub ghost struct GlbView {
    pub json: Seq<u8>,
    pub bin: Seq<u8>,
}

impl View for GlbContainer {
    type V = GlbView;

    open spec fn view(&self) -> GlbView {
        GlbView { json: self.json@, bin: self.bin@ }
    }
}

/// `d` starts with a complete chunk of type `tag`: eight bytes of chunk
/// header, then as many payload bytes as the header declares.
pub open spec fn chunk_ok(d: Seq<u8>, tag: Seq<u8>) -> bool {
    &&& d.len() >= 8
    &&& d.subrange(4, 8) == tag
    &&& 8 + word_at(d, 0) <= d.len()
}

/// The payload of the chunk at the start of `d`.
pub open spec fn chunk_payload(d: Seq<u8>) -> Seq<u8> {
    d.subrange(8, 8 + word_at(d, 0))
}

/// What follows the chunk at the start of `d`.
pub open spec fn chunk_rest(d: Seq<u8>) -> Seq<u8> {
    d.subrange(8 + word_at(d, 0), d.len() as int)
}

/// `b` starts with a file header of twelve bytes: the magic, version 2, and
/// a total length of at least the header and at most the data at hand.
pub open spec fn header_ok(b: Seq<u8>) -> bool {
    &&& b.len() >= 12
    &&& b.subrange(0, 4) == tag_gltf()
    &&& word_at(b, 4) == VERSION
    &&& 12 <= word_at(b, 8) <= b.len()
}

/// The chunk area of a file: what lies between the header and the declared
/// total length.
pub open spec fn chunk_area(b: Seq<u8>) -> Seq<u8> {
    b.subrange(12, word_at(b, 8) as int)
}

/// What a GLB file holds, or `None` where the framing is malformed.
///
/// The first chunk must be the JSON chunk. A second chunk, if any bytes
/// follow the first, must be the binary chunk; bytes after it are ignored.
pub open spec fn glb_parse(b: Seq<u8>) -> Option<GlbView> {
    if !header_ok(b) {
        None
    } else if !chunk_ok(chunk_area(b), tag_json()) {
        None
    } else {
        let json = chunk_payload(chunk_area(b));
        let rest = chunk_rest(chunk_area(b));
        if rest.len() == 0 {
            Some(GlbView { json, bin: Seq::empty() })
        } else if !chunk_ok(rest, tag_bin()) {
            None
        } else {
            Some(GlbView { json, bin: chunk_payload(rest) })
        }
    }
}

/// One chunk: padded payload length, type, padded payload.
pub open spec fn chunk_bytes(tag: Seq<u8>, payload: Seq<u8>, fill: u8) -> Seq<u8> {
    word_bytes(padded_len(payload.len() as int) as u32) + tag + padded_payload(payload, fill)
}

/// The length of the GLB file for a JSON text of `json_len` bytes and a blob
/// of `bin_len` bytes. An empty blob gets no chunk.
pub open spec fn glb_len(json_len: int, bin_len: int) -> int {
    12 + 8 + padded_len(json_len) + if bin_len > 0 {
        8 + padded_len(bin_len)
    } else {
        0
    }
}

/// The chunks of the file for `json` and `bin`: the JSON chunk padded with
/// spaces and, for a non-empty `bin`, the binary chunk padded with zeros.
pub open spec fn glb_chunks(json: Seq<u8>, bin: Seq<u8>) -> Seq<u8> {
    chunk_bytes(tag_json(), json, JSON_FILL) + if bin.len() > 0 {
        chunk_bytes(tag_bin(), bin, BIN_FILL)
    } else {
        Seq::empty()
    }
}

/// The GLB file for `json` and `bin`: the magic, version 2, the length of
/// the whole file, and the chunks.
pub open spec fn glb_bytes(json: Seq<u8>, bin: Seq<u8>) -> Seq<u8> {
    tag_gltf() + word_bytes(VERSION) + word_bytes(
        glb_len(json.len() as int, bin.len() as int) as u32,
    ) + glb_chunks(json, bin)
}

/// A chunk written by `chunk_bytes`, whatever follows it, reads back as a
/// complete chunk of its type with the padded payload, and leaves exactly
/// what follows.
pub proof fn lemma_chunk_framing(tag: Seq<u8>, payload: Seq<u8>, fill: u8, tail: Seq<u8>)
    requires
        tag.len() == 4,
        padded_len(payload.len() as int) <= u32::MAX,
    ensures
        chunk_bytes(tag, payload, fill).len() == 8 + padded_len(payload.len() as int),
        chunk_ok(chunk_bytes(tag, payload, fill) + tail, tag),
        chunk_payload(chunk_bytes(tag, payload, fill) + tail) == padded_payload(payload, fill),
        chunk_rest(chunk_bytes(tag, payload, fill) + tail) == tail,
{
    let n = payload.len() as int;
    lemma_padded_len(n);
    let m = padded_len(n) as u32;
    let c = chunk_bytes(tag, payload, fill);
    let d = c + tail;
    lemma_word_round_trip(m);
    assert(padded_payload(payload, fill).len() == m);
    assert(c.len() == 8 + m);
    assert(d.subrange(0, 4) =~= word_bytes(m).subrange(0, 4));
    lemma_word_at_window(d, word_bytes(m), 0, 0);
    assert(word_at(d, 0) == m);
    assert(d.subrange(4, 8) =~= tag);
    assert(d.subrange(8, 8 + m) =~= padded_payload(payload, fill));
    assert(d.subrange(8 + m, d.len() as int) =~= tail);
}

/// The header of a written file is in order: its total length is the length
/// of the file, and its chunk area holds the chunks.
pub proof fn lemma_glb_header(json: Seq<u8>, bin: Seq<u8>)
    requires
        glb_len(json.len() as int, bin.len() as int) <= u32::MAX,
    ensures
        glb_bytes(json, bin).len() == glb_len(json.len() as int, bin.len() as int),
        word_at(glb_bytes(json, bin), 8) == glb_bytes(json, bin).len(),
        header_ok(glb_bytes(json, bin)),
        chunk_area(glb_bytes(json, bin)) == glb_chunks(json, bin),
{
    let jn = json.len() as int;
    let bn = bin.len() as int;
    lemma_padded_len(jn);
    lemma_padded_len(bn);
    let total = glb_len(jn, bn) as u32;
    let b = glb_bytes(json, bin);
    let head = tag_gltf() + word_bytes(VERSION) + word_bytes(total);
    let chunks = glb_chunks(json, bin);
    assert(b =~= head + chunks);
    assert(head.len() == 12);
    assert(chunks.len() == total - 12);
    lemma_word_round_trip(VERSION);
    lemma_word_round_trip(total);
    assert(b.subrange(0, 4) =~= tag_gltf());
    assert(b.subrange(4, 8) =~= word_bytes(VERSION).subrange(0, 4));
    lemma_word_at_window(b, word_bytes(VERSION), 4, 0);
    assert(b.subrange(8, 12) =~= word_bytes(total).subrange(0, 4));
    lemma_word_at_window(b, word_bytes(total), 8, 0);
    assert(b.subrange(12, total as int) =~= chunks);
}

/// Reading what was written: a file made by `glb_bytes` parses, and gives
/// back the JSON text with its trailing spaces and the blob with its
/// trailing zeros. A blob whose length is a multiple of four, as the layout
/// builder makes them, comes back unchanged.
///
/// The file is well formed: the payload of each chunk is a multiple of four
/// long, and the file is as long as its header and, for each chunk, eight
/// bytes and the payload.
pub proof fn lemma_glb_round_trip(json: Seq<u8>, bin: Seq<u8>)
    requires
        glb_len(json.len() as int, bin.len() as int) <= u32::MAX,
    ensures
        glb_parse(glb_bytes(json, bin)) == Some(
            GlbView {
                json: padded_payload(json, JSON_FILL),
                bin: padded_payload(bin, BIN_FILL),
            },
        ),
        bin.len() % 4 == 0 ==> padded_payload(bin, BIN_FILL) == bin,
        padded_payload(json, JSON_FILL).len() % 4 == 0,
        padded_payload(bin, BIN_FILL).len() % 4 == 0,
        glb_bytes(json, bin).len() == 12 + (8 + padded_payload(json, JSON_FILL).len()) + if bin.len()
            > 0 {
            8 + padded_payload(bin, BIN_FILL).len()
        } else {
            0
        },
{
    let jn = json.len() as int;
    let bn = bin.len() as int;
    lemma_padded_len(jn);
    lemma_padded_len(bn);
    lemma_glb_header(json, bin);
    let bc = if bn > 0 {
        chunk_bytes(tag_bin(), bin, BIN_FILL)
    } else {
        Seq::<u8>::empty()
    };
    lemma_chunk_framing(tag_json(), json, JSON_FILL, bc);
    if bn > 0 {
        lemma_chunk_framing(tag_bin(), bin, BIN_FILL, Seq::<u8>::empty());
        assert(bc + Seq::<u8>::empty() =~= bc);
    } else {
        assert(padded_payload(bin, BIN_FILL) =~= Seq::<u8>::empty());
    }
    if bn % 4 == 0 {
        assert(padded_payload(bin, BIN_FILL) =~= bin);
    }
}

} // verus!
