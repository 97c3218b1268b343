use crate::decoder::{decode, decode_spec, Elements, ElementsModel};
use crate::document::{
    Document, DocumentModel, Mode, Primitive, PrimitiveModel, Semantic,
};
use crate::elements::{group3, group_triples};
use crate::error::Error;
use crate::material::png_mime;
use crate::bytes::copy_range;
use vstd::prelude::*;

verus! {

/// The profile of primitives that can be taken apart: triangles with
/// normals, one set of joints and one set of weights, and without tangents,
/// vertex colours or a second set of texture coordinates, joints or weights.
pub open spec fn primitive_supported(p: PrimitiveModel) -> bool {
    &&& p.mode == Mode::Triangles
    &&& p.attribute(Semantic::TexCoords(1)) is None
    &&& p.attribute(Semantic::Colors(0)) is None
    &&& p.attribute(Semantic::Normals) is Some
    &&& p.attribute(Semantic::Tangents) is None
    &&& p.attribute(Semantic::Joints(0)) is Some
    &&& p.attribute(Semantic::Joints(1)) is None
    &&& p.attribute(Semantic::Weights(0)) is Some
    &&& p.attribute(Semantic::Weights(1)) is None
}

/// Accepts the primitives of the supported profile and refuses every other
/// with `UnsupportedFeature`.
pub fn check_primitive(p: &Primitive) -> (r: Result<(), Error>)
    ensures
        r == if primitive_supported(p@) {
            Ok::<(), Error>(())
        } else {
            Err::<(), Error>(Error::UnsupportedFeature)
        },
{
    let ok = p.mode == Mode::Triangles && p.get(Semantic::TexCoords(1)).is_none() && p.get(
        Semantic::Colors(0),
    ).is_none() && p.get(Semantic::Normals).is_some() && p.get(Semantic::Tangents).is_none()
        && p.get(Semantic::Joints(0)).is_some() && p.get(Semantic::Joints(1)).is_none() && p.get(
        Semantic::Weights(0),
    ).is_some() && p.get(Semantic::Weights(1)).is_none();
    if ok {
        Ok(())
    } else {
        Err(Error::UnsupportedFeature)
    }
}

/// The triples of a decoded array; anything but triples is refused with
/// `UnsupportedFeature`.
pub open spec fn triples_of(r: Result<ElementsModel, Error>) -> Result<Seq<[u32; 3]>, Error> {
    match r {
        Ok(ElementsModel::Triples(s)) => Ok(s),
        Ok(_) => Err(Error::UnsupportedFeature),
        Err(e) => Err(e),
    }
}

/// The pairs of a decoded array; anything but pairs is refused with
/// `UnsupportedFeature`.
pub open spec fn pairs_of(r: Result<ElementsModel, Error>) -> Result<Seq<[u32; 2]>, Error> {
    match r {
        Ok(ElementsModel::Pairs(s)) => Ok(s),
        Ok(_) => Err(Error::UnsupportedFeature),
        Err(e) => Err(e),
    }
}

/// The scalars of a decoded array; anything but scalars is refused with
/// `UnsupportedFeature`.
pub open spec fn scalars_of(r: Result<ElementsModel, Error>) -> Result<Seq<u32>, Error> {
    match r {
        Ok(ElementsModel::Scalars(s)) => Ok(s),
        Ok(_) => Err(Error::UnsupportedFeature),
        Err(e) => Err(e),
    }
}

/// Decodes an accessor that must hold single-precision triples.
pub fn decode_triples(doc: &Document, blob: &[u8], index: usize) -> (r: Result<
    Vec<[u32; 3]>,
    Error,
>)
    ensures
        match triples_of(decode_spec(doc@, blob@, index as int)) {
            Ok(s) => r is Ok && r->Ok_0@ == s,
            Err(e) => r == Err::<Vec<[u32; 3]>, Error>(e),
        },
{
    match decode(doc, blob, index) {
        Ok(Elements::Triples(v)) => Ok(v),
        Ok(_) => Err(Error::UnsupportedFeature),
        Err(e) => Err(e),
    }
}

/// Decodes an accessor that must hold single-precision pairs.
pub fn decode_pairs(doc: &Document, blob: &[u8], index: usize) -> (r: Result<
    Vec<[u32; 2]>,
    Error,
>)
    ensures
        match pairs_of(decode_spec(doc@, blob@, index as int)) {
            Ok(s) => r is Ok && r->Ok_0@ == s,
            Err(e) => r == Err::<Vec<[u32; 2]>, Error>(e),
        },
{
    match decode(doc, blob, index) {
        Ok(Elements::Pairs(v)) => Ok(v),
        Ok(_) => Err(Error::UnsupportedFeature),
        Err(e) => Err(e),
    }
}

/// Decodes an accessor that must hold unsigned 32-bit scalars.
pub fn decode_scalars(doc: &Document, blob: &[u8], index: usize) -> (r: Result<Vec<u32>, Error>)
    ensures
        match scalars_of(decode_spec(doc@, blob@, index as int)) {
            Ok(s) => r is Ok && r->Ok_0@ == s,
            Err(e) => r == Err::<Vec<u32>, Error>(e),
        },
{
    match decode(doc, blob, index) {
        Ok(Elements::Scalars(v)) => Ok(v),
        Ok(_) => Err(Error::UnsupportedFeature),
        Err(e) => Err(e),
    }
}

/// The byte range of image `index` in a binary chunk of `blob_len` bytes,
/// as offset and length, or why the image cannot be taken out. The checks
/// come in this order:
///
/// 1. the image exists (`OutOfBounds`), is embedded through a buffer view
///    (`UnsupportedExternalBuffer`) and is declared as PNG
///    (`UnsupportedImageFormat`);
/// 2. the buffer view and its buffer exist (`OutOfBounds`) and the buffer
///    has no URI (`UnsupportedExternalBuffer`);
/// 3. the container has a binary chunk (`MissingBinaryChunk`) and the view
///    ends inside it (`OutOfBounds`).
pub open spec fn image_span(doc: DocumentModel, blob_len: int, index: int) -> Result<
    (int, int),
    Error,
> {
    if !(0 <= index < doc.images.len()) {
        Err(Error::OutOfBounds)
    } else {
        let image = doc.images[index];
        if image.buffer_view is None {
            Err(Error::UnsupportedExternalBuffer)
        } else if image.mime_type != Some(png_mime()) {
            Err(Error::UnsupportedImageFormat)
        } else if image.buffer_view->0 >= doc.buffer_views.len() {
            Err(Error::OutOfBounds)
        } else {
            let v = doc.buffer_views[image.buffer_view->0 as int];
            if v.buffer >= doc.buffers.len() {
                Err(Error::OutOfBounds)
            } else if doc.buffers[v.buffer as int].uri is Some {
                Err(Error::UnsupportedExternalBuffer)
            } else if blob_len == 0 {
                Err(Error::MissingBinaryChunk)
            } else if v.byte_offset + v.byte_length > blob_len {
                Err(Error::OutOfBounds)
            } else {
                Ok((v.byte_offset as int, v.byte_length as int))
            }
        }
    }
}

/// The PNG bytes of image `index`.
pub open spec fn png_data(doc: DocumentModel, blob: Seq<u8>, index: int) -> Result<
    Seq<u8>,
    Error,
> {
    match image_span(doc, blob.len() as int, index) {
        Ok((offset, length)) => Ok(blob.subrange(offset, offset + length)),
        Err(e) => Err(e),
    }
}

/// Copies the PNG bytes of image `index` out of the binary chunk `bin`:
/// the bytes of the image's buffer view, nothing added and nothing left
/// off. See [`image_span`] for the errors and their order.
pub fn extract_png_data_from_image(doc: &Document, bin: &[u8], index: usize) -> (r: Result<
    Vec<u8>,
    Error,
>)
    ensures
        match png_data(doc@, bin@, index as int) {
            Ok(png) => r is Ok && r->Ok_0@ == png,
            Err(e) => r == Err::<Vec<u8>, Error>(e),
        },
{
    if index >= doc.images.len() {
        return Err(Error::OutOfBounds);
    }
    let image = &doc.images[index];
    assert(doc@.images[index as int] == image@);
    let view_index: usize = match image.buffer_view {
        Some(v) => v as usize,
        None => {
            return Err(Error::UnsupportedExternalBuffer);
        },
    };
    let is_png: bool = match &image.mime_type {
        Some(mime) => {
            let png: String = "image/png".to_owned();
            *mime == png
        },
        None => false,
    };
    if !is_png {
        return Err(Error::UnsupportedImageFormat);
    }
    if view_index >= doc.buffer_views.len() {
        return Err(Error::OutOfBounds);
    }
    let v = &doc.buffer_views[view_index];
    let buffer_index: usize = v.buffer as usize;
    if buffer_index >= doc.buffers.len() {
        return Err(Error::OutOfBounds);
    }
    let buffer = &doc.buffers[buffer_index];
    assert(doc@.buffers[buffer_index as int] == buffer@);
    if buffer.uri.is_some() {
        return Err(Error::UnsupportedExternalBuffer);
    }
    if bin.len() == 0 {
        return Err(Error::MissingBinaryChunk);
    }
    let end: u64 = v.byte_offset as u64 + v.byte_length as u64;
    if end > bin.len() as u64 {
        return Err(Error::OutOfBounds);
    }
    Ok(copy_range(bin, v.byte_offset as usize, end as usize))
}

/// What a textured primitive is made of. Numbers of single precision are
/// binary32 bit patterns.
#[derive(Clone, Debug, PartialEq, Eq)]
pub struct PrimitiveData {
    pub vertices: Vec<[u32; 3]>,
    pub normals: Vec<[u32; 3]>,
    pub indices: Vec<[u32; 3]>,
    pub tex_coords: Vec<[u32; 2]>,
    pub png: Vec<u8>,
}

/// The mathematical content of [`PrimitiveData`].
pub ghost struct PrimitiveDataModel {
    pub vertices: Seq<[u32; 3]>,
    pub normals: Seq<[u32; 3]>,
    pub indices: Seq<[u32; 3]>,
    pub tex_coords: Seq<[u32; 2]>,
    pub png: Seq<u8>,
}

impl View for PrimitiveData {
    type V = PrimitiveDataModel;

    open spec fn view(&self) -> PrimitiveDataModel {
        PrimitiveDataModel {
            vertices: self.vertices@,
            normals: self.normals@,
            indices: self.indices@,
            tex_coords: self.tex_coords@,
            png: self.png@,
        }
    }
}

/// The image behind the base-colour texture of a primitive. A primitive
/// without a material, a material without a base-colour texture, and a
/// material with a metallic-roughness texture are refused with
/// `UnsupportedFeature`; a material or texture that the document does not
/// hold with `OutOfBounds`.
pub open spec fn base_color_image(doc: DocumentModel, p: PrimitiveModel) -> Result<int, Error> {
    if p.material is None {
        Err(Error::UnsupportedFeature)
    } else if p.material->0 >= doc.materials.len() {
        Err(Error::OutOfBounds)
    } else {
        let m = doc.materials[p.material->0 as int];
        if m.base_color_texture is None || m.metallic_roughness_texture is Some {
            Err(Error::UnsupportedFeature)
        } else if m.base_color_texture->0.index >= doc.textures.len() {
            Err(Error::OutOfBounds)
        } else {
            Ok(doc.textures[m.base_color_texture->0.index as int].source as int)
        }
    }
}

/// The arrays and the image of a primitive whose accessors and image are
/// known, decoded in this order: image, texture coordinates, positions,
/// normals, indices. The first failure is the result.
pub open spec fn primitive_arrays(
    doc: DocumentModel,
    blob: Seq<u8>,
    image: int,
    uv: int,
    positions: int,
    normals: int,
    indices: int,
) -> Result<PrimitiveDataModel, Error> {
    match png_data(doc, blob, image) {
        Err(e) => Err(e),
        Ok(png) => match pairs_of(decode_spec(doc, blob, uv)) {
            Err(e) => Err(e),
            Ok(tex_coords) => match triples_of(decode_spec(doc, blob, positions)) {
                Err(e) => Err(e),
                Ok(vertices) => match triples_of(decode_spec(doc, blob, normals)) {
                    Err(e) => Err(e),
                    Ok(normal_triples) => match scalars_of(decode_spec(doc, blob, indices)) {
                        Err(e) => Err(e),
                        Ok(flat) => Ok(
                            PrimitiveDataModel {
                                vertices,
                                normals: normal_triples,
                                indices: group3(flat),
                                tex_coords,
                                png,
                            },
                        ),
                    },
                },
            },
        },
    }
}

/// What taking primitive `primitive` of mesh `mesh` apart gives:
///
/// - `OutOfBounds` if the document holds no such primitive;
/// - `UnsupportedFeature` if the primitive is outside the supported profile;
/// - `Ok(None)` if the primitive lacks positions, indices or a first set of
///   texture coordinates: there is nothing to take;
/// - otherwise the first failure of [`base_color_image`] and
///   [`primitive_arrays`], or the arrays and the image.
pub open spec fn extract_spec(doc: DocumentModel, blob: Seq<u8>, mesh: int, primitive: int) -> Result<
    Option<PrimitiveDataModel>,
    Error,
> {
    if !(0 <= mesh < doc.meshes.len()) || !(0 <= primitive < doc.meshes[mesh].primitives.len()) {
        Err(Error::OutOfBounds)
    } else {
        let p = doc.meshes[mesh].primitives[primitive];
        if !primitive_supported(p) {
            Err(Error::UnsupportedFeature)
        } else if p.attribute(Semantic::Positions) is None || p.indices is None || p.attribute(
            Semantic::TexCoords(0),
        ) is None {
            Ok(None)
        } else {
            match base_color_image(doc, p) {
                Err(e) => Err(e),
                Ok(image) => match primitive_arrays(
                    doc,
                    blob,
                    image,
                    p.attribute(Semantic::TexCoords(0))->0 as int,
                    p.attribute(Semantic::Positions)->0 as int,
                    p.attribute(Semantic::Normals)->0 as int,
                    p.indices->0 as int,
                ) {
                    Err(e) => Err(e),
                    Ok(data) => Ok(Some(data)),
                },
            }
        }
    }
}

/// Finds the image behind the base-colour texture of a primitive.
pub fn find_base_color_image(doc: &Document, p: &Primitive) -> (r: Result<usize, Error>)
    ensures
        match base_color_image(doc@, p@) {
            Ok(image) => r == Ok::<usize, Error>(image as usize) && image <= u32::MAX,
            Err(e) => r == Err::<usize, Error>(e),
        },
{
    let material_index: usize = match p.material {
        Some(m) => m as usize,
        None => {
            return Err(Error::UnsupportedFeature);
        },
    };
    if material_index >= doc.materials.len() {
        return Err(Error::OutOfBounds);
    }
    let m = &doc.materials[material_index];
    if m.metallic_roughness_texture.is_some() {
        return Err(Error::UnsupportedFeature);
    }
    let texture_index: usize = match m.base_color_texture {
        Some(info) => info.index as usize,
        None => {
            return Err(Error::UnsupportedFeature);
        },
    };
    if texture_index >= doc.textures.len() {
        return Err(Error::OutOfBounds);
    }
    Ok(doc.textures[texture_index].source as usize)
}

/// Takes primitive `primitive` of mesh `mesh` apart: its positions,
/// normals, index triples and texture coordinates, decoded from the binary
/// chunk, and the PNG bytes of its base-colour texture. Indices left over
/// after the last full triple are dropped. See [`extract_spec`] for the
/// cases.
pub fn extract_primitive(doc: &Document, blob: &[u8], mesh: usize, primitive: usize) -> (r: Result<
    Option<PrimitiveData>,
    Error,
>)
    ensures
        match extract_spec(doc@, blob@, mesh as int, primitive as int) {
            Ok(Some(data)) => r is Ok && r->Ok_0 is Some && r->Ok_0->Some_0@ == data,
            Ok(None) => r is Ok && r->Ok_0 is None,
            Err(e) => r == Err::<Option<PrimitiveData>, Error>(e),
        },
{
    if mesh >= doc.meshes.len() {
        return Err(Error::OutOfBounds);
    }
    let m = &doc.meshes[mesh];
    assert(doc@.meshes[mesh as int] == m@);
    if primitive >= m.primitives.len() {
        return Err(Error::OutOfBounds);
    }
    let p = &m.primitives[primitive];
    assert(m@.primitives[primitive as int] == p@);
    match check_primitive(p) {
        Ok(()) => {},
        Err(e) => {
            return Err(e);
        },
    }
    let (positions, normals, indices, uv) = match (
        p.get(Semantic::Positions),
        p.get(Semantic::Normals),
        p.indices,
        p.get(Semantic::TexCoords(0)),
    ) {
        (Some(ap), Some(an), Some(ai), Some(at0)) => (
            ap as usize,
            an as usize,
            ai as usize,
            at0 as usize,
        ),
        _ => {
            return Ok(None);
        },
    };
    let image: usize = match find_base_color_image(doc, p) {
        Ok(image) => image,
        Err(e) => {
            return Err(e);
        },
    };
    let png = match extract_png_data_from_image(doc, blob, image) {
        Ok(png) => png,
        Err(e) => {
            return Err(e);
        },
    };
    let tex_coords = match decode_pairs(doc, blob, uv) {
        Ok(v) => v,
        Err(e) => {
            return Err(e);
        },
    };
    let vertices = match decode_triples(doc, blob, positions) {
        Ok(v) => v,
        Err(e) => {
            return Err(e);
        },
    };
    let normal_triples = match decode_triples(doc, blob, normals) {
        Ok(v) => v,
        Err(e) => {
            return Err(e);
        },
    };
    let flat = match decode_scalars(doc, blob, indices) {
        Ok(v) => v,
        Err(e) => {
            return Err(e);
        },
    };
    let triangles = group_triples(flat.as_slice());
    Ok(
        Some(
            PrimitiveData {
                vertices,
                normals: normal_triples,
                indices: triangles,
                tex_coords,
                png,
            },
        ),
    )
}

} // verus!
