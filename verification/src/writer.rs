use crate::bytes::{push_all, push_fill};
use crate::container::{chunk_bytes, glb_bytes, glb_len, tag_gltf, BIN_FILL, JSON_FILL, VERSION};
use crate::layout::{padded, padded_len};
use crate::word::{push_word, word_bytes};
use vstd::prelude::*;

verus! {

/// Appends one chunk to `out`: the padded payload length, the four bytes of
/// the chunk type, the payload, and the filler.
fn push_chunk(out: &mut Vec<u8>, t0: u8, t1: u8, t2: u8, t3: u8, payload: &[u8], fill: u8)
    requires
        padded_len(payload@.len() as int) <= u32::MAX,
    ensures
        final(out)@ == old(out)@ + chunk_bytes(seq![t0, t1, t2, t3], payload@, fill),
{
    let n: usize = payload.len();
    let m: usize = padded(n);
    push_word(out, m as u32);
    out.push(t0);
    out.push(t1);
    out.push(t2);
    out.push(t3);
    push_all(out, payload);
    push_fill(out, m - n, fill);
    assert(out@ =~= old(out)@ + chunk_bytes(seq![t0, t1, t2, t3], payload@, fill));
}

/// Whether the file for a JSON text of `json_len` bytes and a blob of
/// `bin_len` bytes fits the 32-bit total length of the header.
pub fn glb_fits(json_len: usize, bin_len: usize) -> (r: bool)
    ensures
        r == (glb_len(json_len as int, bin_len as int) <= u32::MAX),
{
    let json: u128 = (json_len as u128 + 3) / 4 * 4;
    let bin: u128 = if bin_len > 0 {
        8 + (bin_len as u128 + 3) / 4 * 4
    } else {
        0
    };
    20 + json + bin <= 0xFFFF_FFFF
}

/// Frames a JSON document text and a binary blob as a GLB file.
///
/// The file is the twelve-byte header (magic, version 2, total length), the
/// JSON chunk filled up with spaces to a multiple of four, and, unless the
/// blob is empty, the binary chunk filled up with zeros. Every length field
/// counts the padded payload, and the total length counts every byte.
pub fn write_glb(json: &[u8], bin: &[u8]) -> (out: Vec<u8>)
    requires
        glb_len(json@.len() as int, bin@.len() as int) <= u32::MAX,
    ensures
        out@ == glb_bytes(json@, bin@),
        out@.len() == glb_len(json@.len() as int, bin@.len() as int),
{
    let mut total: usize = 20 + padded(json.len());
    if bin.len() > 0 {
        total = total + 8 + padded(bin.len());
    }
    let mut out: Vec<u8> = Vec::new();
    out.push(0x67);
    out.push(0x6C);
    out.push(0x54);
    out.push(0x46);
    push_word(&mut out, VERSION);
    push_word(&mut out, total as u32);
    assert(out@ =~= tag_gltf() + word_bytes(VERSION) + word_bytes(total as u32));
    push_chunk(&mut out, 0x4A, 0x53, 0x4F, 0x4E, json, JSON_FILL);
    if bin.len() > 0 {
        push_chunk(&mut out, 0x42, 0x49, 0x4E, 0x00, bin, BIN_FILL);
    }
    assert(out@ =~= glb_bytes(json@, bin@));
    out
}

} // verus!
