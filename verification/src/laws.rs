use crate::builder::{appended, lemma_appended};
use crate::container::{glb_bytes, glb_len, glb_parse, lemma_glb_round_trip};
use crate::decoder::{decode_spec, ElementsModel};
use crate::document::{AccessorModel, ComponentType, DocumentModel, Shape};
use crate::error::Error;
use crate::elements::{
    flatten2, flatten3, group3, lemma_group2_flatten2, lemma_group3_flatten3,
};
use crate::export::{
    model_blob, model_blob_len, model_document, texture_lens, triples_bytes, TextureModel,
};
use crate::layout::{lemma_padded_len, padded_len};
use crate::material::uv_bytes;
use crate::word::{lemma_words_round_trip, words_bytes};
use vstd::prelude::*;

verus! {

/// The elements of accessor `index` lie tightly packed in the embedded
/// buffer, start at byte `start` of `blob` and end inside it.
pub open spec fn packed_at(doc: DocumentModel, blob: Seq<u8>, index: int, start: int) -> bool {
    &&& 0 <= index < doc.accessors.len()
    &&& !doc.accessors[index].sparse
    &&& doc.accessors[index].buffer_view is Some
    &&& doc.accessors[index].buffer_view->0 < doc.buffer_views.len()
    &&& doc.buffer_views[doc.accessors[index].buffer_view->0 as int].byte_stride is None
    &&& doc.buffer_views[doc.accessors[index].buffer_view->0 as int].buffer < doc.buffers.len()
    &&& doc.buffers[doc.buffer_views[doc.accessors[index].buffer_view->0 as int].buffer as int].uri is None
    &&& start == doc.buffer_views[doc.accessors[index].buffer_view->0 as int].byte_offset
        + doc.accessors[index].byte_offset
    &&& blob.len() > 0
    &&& start + doc.accessors[index].byte_len() <= blob.len()
}

/// The size of all elements of an accessor whose elements have `size`
/// bytes.
proof fn lemma_byte_len(a: AccessorModel, size: int)
    requires
        a.component_type.spec_size() * a.shape.spec_arity() == size,
    ensures
        a.byte_len() == a.count * size,
{
}

/// Single-precision triples that were encoded into the chunk decode to
/// themselves.
pub proof fn lemma_decode_triples(
    doc: DocumentModel,
    blob: Seq<u8>,
    index: int,
    start: int,
    points: Seq<[u32; 3]>,
)
    requires
        packed_at(doc, blob, index, start),
        doc.accessors[index].component_type == ComponentType::F32,
        doc.accessors[index].shape == Shape::Vec3,
        doc.accessors[index].count == points.len(),
        blob.subrange(start, start + 12 * points.len()) == triples_bytes(points),
    ensures
        decode_spec(doc, blob, index) == Ok::<ElementsModel, Error>(
            ElementsModel::Triples(points),
        ),
{
    let a = doc.accessors[index];
    lemma_byte_len(a, 12);
    lemma_group3_flatten3(points);
    lemma_words_round_trip(blob, start, flatten3(points));
}

/// Single-precision pairs that were encoded into the chunk decode to
/// themselves.
pub proof fn lemma_decode_pairs(
    doc: DocumentModel,
    blob: Seq<u8>,
    index: int,
    start: int,
    points: Seq<[u32; 2]>,
)
    requires
        packed_at(doc, blob, index, start),
        doc.accessors[index].component_type == ComponentType::F32,
        doc.accessors[index].shape == Shape::Vec2,
        doc.accessors[index].count == points.len(),
        blob.subrange(start, start + 8 * points.len()) == uv_bytes(points),
    ensures
        decode_spec(doc, blob, index) == Ok::<ElementsModel, Error>(ElementsModel::Pairs(points)),
{
    let a = doc.accessors[index];
    lemma_byte_len(a, 8);
    lemma_group2_flatten2(points);
    lemma_words_round_trip(blob, start, flatten2(points));
}

/// Unsigned scalars that were encoded into the chunk decode to themselves.
pub proof fn lemma_decode_scalars(
    doc: DocumentModel,
    blob: Seq<u8>,
    index: int,
    start: int,
    scalars: Seq<u32>,
)
    requires
        packed_at(doc, blob, index, start),
        doc.accessors[index].component_type == ComponentType::U32,
        doc.accessors[index].shape == Shape::Scalar,
        doc.accessors[index].count == scalars.len(),
        blob.subrange(start, start + 4 * scalars.len()) == words_bytes(scalars),
    ensures
        decode_spec(doc, blob, index) == Ok::<ElementsModel, Error>(
            ElementsModel::Scalars(scalars),
        ),
{
    let a = doc.accessors[index];
    lemma_byte_len(a, 4);
    lemma_words_round_trip(blob, start, scalars);
}

/// Where the spans lie in the binary chunk of a model: positions first,
/// then normals, then indices, then, for a textured model, the PNG bytes
/// and, on the next four-byte boundary, the texture coordinates.
pub proof fn lemma_model_blob_layout(
    vertices: Seq<[u32; 3]>,
    indices: Seq<[u32; 3]>,
    normals: Seq<[u32; 3]>,
    texture: TextureModel,
)
    ensures
        ({
            let blob = model_blob(vertices, indices, normals, texture);
            let v = 12 * vertices.len() as int;
            let n = 12 * normals.len() as int;
            let i = 12 * indices.len() as int;
            &&& blob.len() == model_blob_len(
                vertices.len() as int,
                indices.len() as int,
                normals.len() as int,
                texture_lens(texture),
            )
            &&& blob.len() % 4 == 0
            &&& blob.subrange(0, v) == triples_bytes(vertices)
            &&& blob.subrange(v, v + n) == triples_bytes(normals)
            &&& blob.subrange(v + n, v + n + i) == triples_bytes(indices)
            &&& texture matches Some((png, uv)) ==> {
                &&& blob.subrange(v + n + i, v + n + i + png.len()) == png
                &&& blob.subrange(
                    v + n + i + padded_len(png.len() as int),
                    v + n + i + padded_len(png.len() as int) + 8 * uv.len(),
                ) == uv_bytes(uv)
            }
        }),
{
    let blob = model_blob(vertices, indices, normals, texture);
    let a = triples_bytes(vertices);
    let b = triples_bytes(normals);
    let c = triples_bytes(indices);
    let empty = Seq::<u8>::empty();
    lemma_appended(empty, a);
    lemma_appended(appended(empty, a), b);
    lemma_appended(appended(appended(empty, a), b), c);
    let geometry = appended(appended(appended(empty, a), b), c);
    assert(geometry =~= a + b + c);
    assert(geometry.subrange(0, a.len() as int) =~= a);
    assert(geometry.subrange(a.len() as int, (a.len() + b.len()) as int) =~= b);
    assert(geometry.subrange((a.len() + b.len()) as int, (a.len() + b.len() + c.len()) as int)
        =~= c);
    match texture {
        Some((png, uv)) => {
            let d = uv_bytes(uv);
            let g = geometry.len() as int;
            lemma_appended(geometry, png);
            let with_png = appended(geometry, png);
            lemma_appended(with_png, d);
            lemma_padded_len(png.len() as int);
            assert(blob == with_png + d);
            assert(blob.subrange(0, with_png.len() as int) =~= with_png);
            assert(blob.subrange(0, g) =~= with_png.subrange(0, g));
            assert(blob.subrange(0, a.len() as int) =~= a);
            assert(blob.subrange(a.len() as int, (a.len() + b.len()) as int) =~= b);
            assert(blob.subrange((a.len() + b.len()) as int, g) =~= c);
            assert(blob.subrange(g, g + png.len()) =~= with_png.subrange(g, g + png.len()));
            assert(blob.subrange(with_png.len() as int, (with_png.len() + d.len()) as int) =~= d);
        },
        None => {},
    }
}

/// Decoding what was built: for a model with at least one vertex, the
/// accessors of the document built for it decode, against the binary chunk
/// built for it, to the very positions, normals, indices and texture
/// coordinates that went in, bit for bit. The index triples are the decoded
/// scalars taken three at a time.
pub proof fn lemma_model_round_trip(
    vertices: Seq<[u32; 3]>,
    indices: Seq<[u32; 3]>,
    normals: Seq<[u32; 3]>,
    texture: TextureModel,
    translation: Option<[u32; 3]>,
)
    requires
        vertices.len() > 0,
        model_blob_len(
            vertices.len() as int,
            indices.len() as int,
            normals.len() as int,
            texture_lens(texture),
        ) <= u32::MAX,
    ensures
        ({
            let doc = model_document(vertices, indices, normals, texture, translation);
            let blob = model_blob(vertices, indices, normals, texture);
            &&& decode_spec(doc, blob, 0) == Ok::<ElementsModel, Error>(
                ElementsModel::Triples(vertices),
            )
            &&& decode_spec(doc, blob, 1) == Ok::<ElementsModel, Error>(
                ElementsModel::Triples(normals),
            )
            &&& decode_spec(doc, blob, 2) == Ok::<ElementsModel, Error>(
                ElementsModel::Scalars(flatten3(indices)),
            )
            &&& group3(flatten3(indices)) == indices
            &&& texture matches Some((png, uv)) ==> decode_spec(doc, blob, 3) == Ok::<
                ElementsModel,
                Error,
            >(ElementsModel::Pairs(uv))
        }),
{
    let doc = model_document(vertices, indices, normals, texture, translation);
    let blob = model_blob(vertices, indices, normals, texture);
    let v = 12 * vertices.len() as int;
    let n = 12 * normals.len() as int;
    let i = 12 * indices.len() as int;
    lemma_model_blob_layout(vertices, indices, normals, texture);
    lemma_group3_flatten3(indices);
    match texture {
        Some((png, uv)) => {
            lemma_padded_len(png.len() as int);
            let start = v + n + i + padded_len(png.len() as int);
            assert(packed_at(doc, blob, 3, start)) by {
                assert(doc.accessors[3].element_size() == 8);
            }
            lemma_decode_pairs(doc, blob, 3, start, uv);
        },
        None => {},
    }
    assert(packed_at(doc, blob, 0, 0)) by {
        assert(doc.accessors[0].element_size() == 12);
    }
    lemma_decode_triples(doc, blob, 0, 0, vertices);
    assert(packed_at(doc, blob, 1, v)) by {
        assert(doc.accessors[1].element_size() == 12);
    }
    lemma_decode_triples(doc, blob, 1, v, normals);
    assert(packed_at(doc, blob, 2, v + n)) by {
        assert(doc.accessors[2].element_size() == 4);
    }
    assert(4 * flatten3(indices).len() == i);
    lemma_decode_scalars(doc, blob, 2, v + n, flatten3(indices));
}

/// Every reference in the document built for a model names an entity that
/// the document holds, and no attribute of its primitive occurs twice.
pub proof fn lemma_model_closed(
    vertices: Seq<[u32; 3]>,
    indices: Seq<[u32; 3]>,
    normals: Seq<[u32; 3]>,
    texture: TextureModel,
    translation: Option<[u32; 3]>,
)
    ensures
        model_document(vertices, indices, normals, texture, translation).closed(),
        model_document(
            vertices,
            indices,
            normals,
            texture,
            translation,
        ).meshes[0].primitives[0].keys_unique(),
{
}

/// In the document built for a model every buffer view lies inside the
/// buffer, and every accessor inside its buffer view.
pub proof fn lemma_model_spans_fit(
    vertices: Seq<[u32; 3]>,
    indices: Seq<[u32; 3]>,
    normals: Seq<[u32; 3]>,
    texture: TextureModel,
    translation: Option<[u32; 3]>,
)
    requires
        model_blob_len(
            vertices.len() as int,
            indices.len() as int,
            normals.len() as int,
            texture_lens(texture),
        ) <= u32::MAX,
    ensures
        model_document(vertices, indices, normals, texture, translation).spans_fit(),
{
    let doc = model_document(vertices, indices, normals, texture, translation);
    let v = 12 * vertices.len() as int;
    let n = 12 * normals.len() as int;
    let i = 12 * indices.len() as int;
    assert(doc.accessors[0].byte_len() == v) by {
        lemma_byte_len(doc.accessors[0], 12);
    }
    assert(doc.accessors[1].byte_len() == n) by {
        lemma_byte_len(doc.accessors[1], 12);
    }
    assert(doc.accessors[2].byte_len() == i) by {
        lemma_byte_len(doc.accessors[2], 4);
    }
    match texture {
        Some((png, uv)) => {
            lemma_padded_len(png.len() as int);
            assert(doc.accessors[3].byte_len() == 8 * uv.len()) by {
                lemma_byte_len(doc.accessors[3], 8);
            }
            assert(doc.buffer_views[3].byte_offset + doc.buffer_views[3].byte_length
                <= doc.buffers[0].byte_length);
            assert(doc.buffer_views[4].byte_offset + doc.buffer_views[4].byte_length
                <= doc.buffers[0].byte_length);
        },
        None => {},
    }
    assert(doc.buffer_views[0].byte_offset + doc.buffer_views[0].byte_length
        <= doc.buffers[0].byte_length);
    assert(doc.buffer_views[1].byte_offset + doc.buffer_views[1].byte_length
        <= doc.buffers[0].byte_length);
    assert(doc.buffer_views[2].byte_offset + doc.buffer_views[2].byte_length
        <= doc.buffers[0].byte_length);
}

/// Writing then reading: for a model with at least one vertex and any JSON
/// text, the GLB file framed around the text and the model's binary chunk
/// parses, hands the chunk back unchanged, and the chunk decodes to the
/// positions and index triples of the model.
pub proof fn lemma_file_round_trip(
    vertices: Seq<[u32; 3]>,
    indices: Seq<[u32; 3]>,
    normals: Seq<[u32; 3]>,
    texture: TextureModel,
    translation: Option<[u32; 3]>,
    json: Seq<u8>,
)
    requires
        vertices.len() > 0,
        model_blob_len(
            vertices.len() as int,
            indices.len() as int,
            normals.len() as int,
            texture_lens(texture),
        ) <= u32::MAX,
        glb_len(
            json.len() as int,
            model_blob_len(
                vertices.len() as int,
                indices.len() as int,
                normals.len() as int,
                texture_lens(texture),
            ),
        ) <= u32::MAX,
    ensures
        ({
            let doc = model_document(vertices, indices, normals, texture, translation);
            let file = glb_bytes(json, model_blob(vertices, indices, normals, texture));
            &&& glb_parse(file) is Some
            &&& glb_parse(file)->Some_0.bin == model_blob(vertices, indices, normals, texture)
            &&& decode_spec(doc, glb_parse(file)->Some_0.bin, 0) == Ok::<
                ElementsModel,
                Error,
            >(ElementsModel::Triples(vertices))
            &&& decode_spec(doc, glb_parse(file)->Some_0.bin, 2) matches Ok(
                ElementsModel::Scalars(flat),
            ) && group3(flat) == indices
        }),
{
    lemma_model_blob_layout(vertices, indices, normals, texture);
    lemma_model_round_trip(vertices, indices, normals, texture, translation);
    lemma_glb_round_trip(json, model_blob(vertices, indices, normals, texture));
}

} // verus!
