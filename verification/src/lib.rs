//! Binary container codec for GLB (binary glTF) avatar models.
//!
//! The library parses the chunk framing of a GLB file, decodes typed vertex,
//! index and texture-coordinate arrays out of the binary chunk according to
//! the document's accessors and buffer views, and builds new binary chunks
//! with their matching document graph.
//!
//! Single-precision numbers are carried as their IEEE 754 binary32 bit
//! patterns (`u32`), so that every array travels through the codec bit for
//! bit. The text of the JSON chunk is handed over and taken as bytes: turning
//! it into a [`document::Document`] and back is left to a JSON library.
//!
//! Reading: [`reader::parse_glb`] splits a file into JSON text and binary
//! chunk, [`decoder::decode`] reads the array of one accessor, and
//! [`extract::extract_primitive`] takes a whole textured primitive apart.
//!
//! Writing: [`export::build_model`] lays out a binary chunk with
//! [`builder::Builder`], describes it with the tables of
//! [`registry::Registry`] and [`material::add_textured_material`], and
//! [`writer::write_glb`] frames JSON text and chunk as a file.
//!
//! [`laws`] holds what is proved of reading and writing together.

pub mod error;
pub mod layout;
pub mod bytes;
pub mod word;
pub mod elements;
pub mod binary32;
pub mod container;
pub mod reader;
pub mod writer;
pub mod builder;
pub mod document;
pub mod registry;
pub mod decoder;
pub mod material;
pub mod export;
pub mod extract;
pub mod scene;
pub mod laws;
