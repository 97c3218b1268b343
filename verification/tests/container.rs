use std::borrow::Cow;
use vacation::error::Error;
use vacation::reader::parse_glb;
use vacation::writer::{glb_fits, write_glb};

fn sample_file() -> Vec<u8> {
    let mut bytes: Vec<u8> = Vec::new();
    bytes.extend_from_slice(b"glTF");
    bytes.extend_from_slice(&2u32.to_le_bytes());
    bytes.extend_from_slice(&36u32.to_le_bytes());
    bytes.extend_from_slice(&4u32.to_le_bytes());
    bytes.extend_from_slice(b"JSON");
    bytes.extend_from_slice(b"{}  ");
    bytes.extend_from_slice(&4u32.to_le_bytes());
    bytes.extend_from_slice(b"BIN\0");
    bytes.extend_from_slice(&[1, 2, 3, 4]);
    bytes
}

#[test]
fn parse_splits_header_json_and_bin() {
    let glb = parse_glb(&sample_file()).unwrap();
    assert_eq!(glb.json, b"{}  ".to_vec());
    assert_eq!(glb.bin, vec![1u8, 2, 3, 4]);
}

#[test]
fn parse_rejects_bad_magic_before_any_chunk() {
    let mut bytes = sample_file();
    bytes[0..4].copy_from_slice(b"fooo");
    assert_eq!(parse_glb(&bytes).err(), Some(Error::FormatError));
    // Nothing but the header is at hand: the magic alone decides.
    let mut header_only: Vec<u8> = Vec::new();
    header_only.extend_from_slice(b"fooo");
    header_only.extend_from_slice(&2u32.to_le_bytes());
    header_only.extend_from_slice(&12u32.to_le_bytes());
    assert_eq!(parse_glb(&header_only).err(), Some(Error::FormatError));
}

#[test]
fn parse_rejects_other_versions() {
    let mut bytes = sample_file();
    bytes[4..8].copy_from_slice(&1u32.to_le_bytes());
    assert_eq!(parse_glb(&bytes).err(), Some(Error::FormatError));
    bytes[4..8].copy_from_slice(&3u32.to_le_bytes());
    assert_eq!(parse_glb(&bytes).err(), Some(Error::FormatError));
}

#[test]
fn parse_rejects_short_input() {
    assert_eq!(parse_glb(&[]).err(), Some(Error::FormatError));
    assert_eq!(parse_glb(b"glTF").err(), Some(Error::FormatError));
    let bytes = sample_file();
    assert_eq!(parse_glb(&bytes[..11]).err(), Some(Error::FormatError));
    // The header promises 36 bytes and 35 are there.
    assert_eq!(parse_glb(&bytes[..35]).err(), Some(Error::FormatError));
}

#[test]
fn parse_rejects_total_length_below_header() {
    let mut bytes = sample_file();
    bytes[8..12].copy_from_slice(&11u32.to_le_bytes());
    assert_eq!(parse_glb(&bytes).err(), Some(Error::FormatError));
}

#[test]
fn parse_rejects_header_without_chunk() {
    let mut bytes = sample_file();
    bytes[8..12].copy_from_slice(&12u32.to_le_bytes());
    assert_eq!(parse_glb(&bytes).err(), Some(Error::FormatError));
}

#[test]
fn parse_rejects_wrong_first_chunk_type() {
    let mut bytes = sample_file();
    bytes[16..20].copy_from_slice(b"BIN\0");
    assert_eq!(parse_glb(&bytes).err(), Some(Error::FormatError));
    bytes[16..20].copy_from_slice(b"JSOM");
    assert_eq!(parse_glb(&bytes).err(), Some(Error::FormatError));
}

#[test]
fn parse_rejects_wrong_second_chunk_type() {
    let mut bytes = sample_file();
    bytes[28..32].copy_from_slice(b"JSON");
    assert_eq!(parse_glb(&bytes).err(), Some(Error::FormatError));
}

#[test]
fn parse_rejects_chunk_running_past_the_end() {
    let mut bytes = sample_file();
    bytes[12..16].copy_from_slice(&100u32.to_le_bytes());
    assert_eq!(parse_glb(&bytes).err(), Some(Error::FormatError));
    let mut bytes = sample_file();
    bytes[24..28].copy_from_slice(&5u32.to_le_bytes());
    assert_eq!(parse_glb(&bytes).err(), Some(Error::FormatError));
}

#[test]
fn parse_rejects_partial_second_chunk_header() {
    let mut bytes = sample_file();
    bytes.truncate(30);
    bytes[8..12].copy_from_slice(&30u32.to_le_bytes());
    assert_eq!(parse_glb(&bytes).err(), Some(Error::FormatError));
}

#[test]
fn parse_without_bin_chunk_gives_empty_blob() {
    let mut bytes = sample_file();
    bytes.truncate(24);
    bytes[8..12].copy_from_slice(&24u32.to_le_bytes());
    let glb = parse_glb(&bytes).unwrap();
    assert_eq!(glb.json, b"{}  ".to_vec());
    assert!(glb.bin.is_empty());
}

#[test]
fn parse_ignores_bytes_beyond_declared_length() {
    let mut bytes = sample_file();
    bytes.extend_from_slice(&[9, 9, 9]);
    let glb = parse_glb(&bytes).unwrap();
    assert_eq!(glb.bin, vec![1u8, 2, 3, 4]);
}

#[test]
fn write_frames_json_and_bin_exactly() {
    let out = write_glb(b"{}", &[1, 2, 3, 4]);
    assert_eq!(out, sample_file());
}

#[test]
fn write_pads_json_with_spaces_and_bin_with_zeros() {
    let out = write_glb(b"{\"a\":1}", &[7, 8, 9, 10, 11]);
    assert_eq!(out.len(), 12 + 8 + 8 + 8 + 8);
    assert_eq!(&out[0..4], b"glTF");
    assert_eq!(&out[4..8], &2u32.to_le_bytes());
    assert_eq!(&out[8..12], &44u32.to_le_bytes());
    assert_eq!(&out[12..16], &8u32.to_le_bytes());
    assert_eq!(&out[16..20], b"JSON");
    assert_eq!(&out[20..28], b"{\"a\":1} ");
    assert_eq!(&out[28..32], &8u32.to_le_bytes());
    assert_eq!(&out[32..36], b"BIN\0");
    assert_eq!(&out[36..44], &[7, 8, 9, 10, 11, 0, 0, 0]);
}

#[test]
fn write_leaves_out_the_chunk_of_an_empty_blob() {
    let out = write_glb(b"{}", &[]);
    assert_eq!(out.len(), 24);
    assert_eq!(&out[8..12], &24u32.to_le_bytes());
    let glb = parse_glb(&out).unwrap();
    assert_eq!(glb.json, b"{}  ".to_vec());
    assert!(glb.bin.is_empty());
}

#[test]
fn written_file_reads_back() {
    let json = b"{\"asset\":{\"version\":\"2.0\"}}".to_vec();
    let bin: Vec<u8> = (0u8..48).collect();
    let out = write_glb(&json, &bin);
    assert_eq!(out.len() % 4, 0);
    let glb = parse_glb(&out).unwrap();
    assert_eq!(glb.bin, bin);
    assert_eq!(&glb.json[..json.len()], &json[..]);
    assert!(glb.json[json.len()..].iter().all(|b| *b == 0x20));
    assert_eq!(glb.json.len() % 4, 0);
}

#[test]
fn written_file_is_what_the_gltf_crate_writes() {
    let json = b"{\"asset\":{\"version\":\"2.0\"}}".to_vec();
    let bin: Vec<u8> = (0u8..23).collect();
    let theirs = gltf::binary::Glb {
        header: gltf::binary::Header { magic: *b"glTF", version: 2, length: 0 },
        json: Cow::Borrowed(&json[..]),
        bin: Some(Cow::Borrowed(&bin[..])),
    }
    .to_vec()
    .unwrap();
    assert_eq!(write_glb(&json, &bin), theirs);
}

#[test]
fn written_file_is_read_by_the_gltf_crate() {
    let json = b"{\"asset\":{\"version\":\"2.0\"}}".to_vec();
    let bin: Vec<u8> = (0u8..24).collect();
    let out = write_glb(&json, &bin);
    let theirs = gltf::binary::Glb::from_slice(&out).unwrap();
    assert_eq!(theirs.header.length as usize, out.len());
    assert_eq!(theirs.bin.unwrap().into_owned(), bin);
    let ours = parse_glb(&out).unwrap();
    assert_eq!(theirs.json.into_owned(), ours.json);
}

#[test]
fn reader_agrees_with_the_gltf_crate_on_malformed_files() {
    let good = sample_file();
    let mut cases: Vec<Vec<u8>> = Vec::new();
    let mut c = good.clone();
    c[0] = b'x';
    cases.push(c);
    let mut c = good.clone();
    c[4] = 1;
    cases.push(c);
    let mut c = good.clone();
    c[16] = b'X';
    cases.push(c);
    let mut c = good.clone();
    c[28] = b'X';
    cases.push(c);
    let mut c = good.clone();
    c[12] = 200;
    cases.push(c);
    for case in cases {
        assert!(gltf::binary::Glb::from_slice(&case).is_err());
        assert_eq!(parse_glb(&case).err(), Some(Error::FormatError));
    }
    assert!(gltf::binary::Glb::from_slice(&good).is_ok());
    assert!(parse_glb(&good).is_ok());
}

#[test]
fn error_messages_name_the_expectation() {
    assert_eq!(Error::FormatError.message(), "malformed GLB container");
    assert_eq!(Error::MissingBinaryChunk.message(), "the container has no binary chunk");
    assert_eq!(Error::UnsupportedFeature.message(), "unsupported glTF feature");
    assert_eq!(
        Error::UnsupportedExternalBuffer.message(),
        "data outside the container is not supported"
    );
    assert_eq!(Error::UnsupportedImageFormat.message(), "only PNG images are supported");
    assert_eq!(Error::OutOfBounds.message(), "index or byte range out of bounds");
    assert_eq!(Error::IoError.message(), "a file could not be read or written");
    assert_eq!(
        Error::SerializationError.message(),
        "the document text could not be decoded or encoded"
    );
}

#[test]
fn file_length_must_fit_32_bits() {
    assert!(glb_fits(0, 0));
    assert!(glb_fits(2, 4));
    // 20 + 8 + 4294967264 = 4294967292, the last length that fits.
    assert!(glb_fits(0, 4294967264));
    assert!(glb_fits(4294967272, 0));
    assert!(!glb_fits(4294967273, 0));
    assert!(!glb_fits(1, 4294967264));
    assert!(!glb_fits(0, 4294967265));
    assert!(!glb_fits(usize::MAX, usize::MAX));
}

fn their_file(json: &[u8], bin: Option<&[u8]>) -> Vec<u8> {
    let glb = gltf::binary::Glb {
        header: gltf::binary::Header { magic: *b"glTF", version: 2, length: 0 },
        json: Cow::Borrowed(json),
        bin: bin.map(Cow::Borrowed),
    };
    let mut out: Vec<u8> = Vec::new();
    glb.to_writer(&mut out).unwrap();
    out
}

#[test]
fn writer_agrees_with_the_gltf_crate_for_every_padding() {
    for json_len in 0usize..12 {
        for bin_len in 0usize..12 {
            let json: Vec<u8> = (0..json_len).map(|i| b'a' + i as u8).collect();
            let bin: Vec<u8> = (0..bin_len).map(|i| 0x80 + i as u8).collect();
            let theirs = if bin.is_empty() {
                their_file(&json, None)
            } else {
                their_file(&json, Some(&bin))
            };
            let ours = write_glb(&json, &bin);
            assert_eq!(ours, theirs, "json {json_len}, bin {bin_len}");
            assert_eq!(ours.len() % 4, 0);
            let total = u32::from_le_bytes([ours[8], ours[9], ours[10], ours[11]]);
            assert_eq!(total as usize, ours.len());
        }
    }
}

#[test]
fn reader_agrees_with_the_gltf_crate_on_mutated_files() {
    let files = [sample_file(), write_glb(b"{\"a\":[1,2,3]}", &[]), write_glb(b"{}", &[5; 9])];
    let mut compared = 0;
    let mut accepted = 0;
    for file in &files {
        for at in 0..file.len() {
            // The upper bytes of the total length are left alone: the other
            // reader allocates as many bytes as the header declares.
            if (9..12).contains(&at) {
                continue;
            }
            for value in [0u8, 1, 4, 8, 12, 0x20, 0x42, 0x4A, 0x7F, 0xFF, file[at] ^ 1] {
                let mut bytes = file.clone();
                bytes[at] = value;
                if at == 8 && value < 12 {
                    // A total length below the header: refused here.
                    assert_eq!(parse_glb(&bytes).err(), Some(Error::FormatError));
                    continue;
                }
                let theirs = gltf::binary::Glb::from_reader(&bytes[..]);
                let ours = parse_glb(&bytes);
                compared += 1;
                match (theirs, ours) {
                    (Ok(t), Ok(o)) => {
                        accepted += 1;
                        assert_eq!(t.json.into_owned(), o.json);
                        assert_eq!(t.bin.map(|b| b.into_owned()).unwrap_or_default(), o.bin);
                    }
                    (Err(_), Err(e)) => assert_eq!(e, Error::FormatError),
                    (t, o) => panic!(
                        "byte {at} set to {value}: theirs ok = {}, ours ok = {}",
                        t.is_ok(),
                        o.is_ok()
                    ),
                }
            }
        }
    }
    assert!(compared > 500);
    assert!(accepted > 100);
}

#[test]
fn reader_agrees_with_the_gltf_crate_on_truncated_files() {
    let file = write_glb(b"{\"a\":[1,2,3]}", &[1, 2, 3, 4, 5, 6, 7, 8, 9, 10]);
    for len in 12..=file.len() {
        let theirs = gltf::binary::Glb::from_reader(&file[..len]);
        let ours = parse_glb(&file[..len]);
        assert_eq!(theirs.is_ok(), ours.is_ok(), "length {len}");
    }
    for len in 0..12 {
        assert_eq!(parse_glb(&file[..len]).err(), Some(Error::FormatError));
        assert!(gltf::binary::Glb::from_reader(&file[..len]).is_err());
    }
}
