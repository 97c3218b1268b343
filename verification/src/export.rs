use crate::builder::{appended, Builder};
use crate::document::{
    views, Accessor, AccessorModel, Attribute, Buffer, BufferModel, BufferView, ComponentType,
    Document, DocumentModel, Mesh, MeshModel, Mode, Node, NodeModel, Primitive, PrimitiveModel,
    Scene, SceneModel, Semantic, Shape, Target,
};
use crate::elements::{flatten3, flatten_triples};
use crate::layout::{lemma_padded_len, padded_len};
use crate::material::{
    add_textured_material, array_view, linear_repeat_sampler, png_image, textured_material,
    texture_transform_extension, transformed_texture, uv_accessor, uv_bytes, MaterialTables,
};
use crate::registry::{bounding_coords3d, column3, highest, lowest, Registry};
use crate::word::{encode_words, words_bytes};
use vstd::prelude::*;

verus! {

/// The little-endian bytes of a sequence of triples.
pub open spec fn triples_bytes(points: Seq<[u32; 3]>) -> Seq<u8> {
    words_bytes(flatten3(points))
}

/// The texture of a model: PNG bytes and texture coordinates.
pub type TextureModel = Option<(Seq<u8>, Seq<[u32; 2]>)>;

/// The mathematical content of an optional texture.
pub open spec fn texture_model(material: Option<(&[u8], &[[u32; 2]])>) -> TextureModel {
    match material {
        Some((png, uv)) => Some((png@, uv@)),
        None => None,
    }
}

/// The length of the binary chunk of a model with the given numbers of
/// vertices, index triples and normals, and, if it is textured, the given
/// PNG length and number of texture coordinates.
pub open spec fn model_blob_len(
    vertices: int,
    indices: int,
    normals: int,
    texture: Option<(int, int)>,
) -> int {
    12 * vertices + 12 * normals + 12 * indices + match texture {
        Some((png, uv)) => padded_len(png) + 8 * uv,
        None => 0,
    }
}

/// The lengths of an optional texture.
pub open spec fn texture_lens(texture: TextureModel) -> Option<(int, int)> {
    match texture {
        Some((png, uv)) => Some((png.len() as int, uv.len() as int)),
        None => None,
    }
}

/// The binary chunk of a model: positions, normals, indices, and for a
/// textured model the PNG bytes and the texture coordinates, each span
/// starting on a four-byte boundary.
pub open spec fn model_blob(
    vertices: Seq<[u32; 3]>,
    indices: Seq<[u32; 3]>,
    normals: Seq<[u32; 3]>,
    texture: TextureModel,
) -> Seq<u8> {
    let geometry = appended(
        appended(appended(Seq::empty(), triples_bytes(vertices)), triples_bytes(normals)),
        triples_bytes(indices),
    );
    match texture {
        Some((png, uv)) => appended(appended(geometry, png), uv_bytes(uv)),
        None => geometry,
    }
}

/// The accessor for the single-precision triples `points`, stored in buffer
/// view `view`, with their bounds.
pub open spec fn triples_accessor(view: int, points: Seq<[u32; 3]>) -> AccessorModel {
    AccessorModel {
        buffer_view: Some(view as u32),
        byte_offset: 0,
        count: points.len() as u32,
        component_type: ComponentType::F32,
        shape: Shape::Vec3,
        normalized: false,
        min: Some(
            seq![
                lowest(column3(points, 0)),
                lowest(column3(points, 1)),
                lowest(column3(points, 2)),
            ],
        ),
        max: Some(
            seq![
                highest(column3(points, 0)),
                highest(column3(points, 1)),
                highest(column3(points, 2)),
            ],
        ),
        sparse: false,
    }
}

/// The accessor for `count` unsigned 32-bit indices stored in buffer view
/// `view`.
pub open spec fn index_accessor(view: int, count: int) -> AccessorModel {
    AccessorModel {
        buffer_view: Some(view as u32),
        byte_offset: 0,
        count: count as u32,
        component_type: ComponentType::U32,
        shape: Shape::Scalar,
        normalized: false,
        min: None,
        max: None,
        sparse: false,
    }
}

/// The buffer views of a model, in the order of the spans of its binary
/// chunk.
pub open spec fn model_views(
    vertices: int,
    indices: int,
    normals: int,
    texture: Option<(int, int)>,
) -> Seq<BufferView> {
    let geometry = seq![
        array_view(0, 12 * vertices),
        array_view(12 * vertices, 12 * normals),
        array_view(12 * vertices + 12 * normals, 12 * indices),
    ];
    let end = 12 * vertices + 12 * normals + 12 * indices;
    match texture {
        Some((png, uv)) => geometry.push(array_view(end, png)).push(
            array_view(end + padded_len(png), 8 * uv),
        ),
        None => geometry,
    }
}

/// The accessors of a model: positions, normals, indices, and for a
/// textured model the texture coordinates.
pub open spec fn model_accessors(
    vertices: Seq<[u32; 3]>,
    indices: Seq<[u32; 3]>,
    normals: Seq<[u32; 3]>,
    texture: TextureModel,
) -> Seq<AccessorModel> {
    let geometry = seq![
        triples_accessor(0, vertices),
        triples_accessor(1, normals),
        index_accessor(2, 3 * indices.len() as int),
    ];
    match texture {
        Some((png, uv)) => geometry.push(uv_accessor(4, uv)),
        None => geometry,
    }
}

/// The one primitive of a model: triangles with positions and normals,
/// indexed, with material 0 if the model is textured.
pub open spec fn model_primitive(textured: bool) -> PrimitiveModel {
    PrimitiveModel {
        attributes: seq![
            Attribute { semantic: Semantic::Positions, accessor: 0 },
            Attribute { semantic: Semantic::Normals, accessor: 1 },
        ],
        indices: Some(2),
        mode: Mode::Triangles,
        material: if textured {
            Some(0u32)
        } else {
            None
        },
    }
}

/// The document of a model: one buffer, one scene with one node, which
/// holds one mesh of one primitive; the material tables hold one entry each
/// if the model is textured and none otherwise.
pub open spec fn model_document(
    vertices: Seq<[u32; 3]>,
    indices: Seq<[u32; 3]>,
    normals: Seq<[u32; 3]>,
    texture: TextureModel,
    translation: Option<[u32; 3]>,
) -> DocumentModel {
    let lens = texture_lens(texture);
    let v = vertices.len() as int;
    let i = indices.len() as int;
    let n = normals.len() as int;
    DocumentModel {
        buffers: seq![BufferModel { byte_length: model_blob_len(v, i, n, lens) as u32, uri: None }],
        buffer_views: model_views(v, i, n, lens),
        accessors: model_accessors(vertices, indices, normals, texture),
        meshes: seq![MeshModel { primitives: seq![model_primitive(texture is Some)] }],
        nodes: seq![
            NodeModel {
                mesh: Some(0u32),
                translation,
                rotation: None,
                scale: None,
                children: Seq::empty(),
            },
        ],
        scenes: seq![SceneModel { nodes: seq![0u32] }],
        materials: if texture is Some {
            seq![textured_material(0)]
        } else {
            Seq::empty()
        },
        textures: if texture is Some {
            seq![transformed_texture(0, 0, 3)]
        } else {
            Seq::empty()
        },
        images: if texture is Some {
            seq![png_image(3)]
        } else {
            Seq::empty()
        },
        samplers: if texture is Some {
            seq![linear_repeat_sampler()]
        } else {
            Seq::empty()
        },
        extensions_used: seq![texture_transform_extension()],
    }
}

/// Whether the binary chunk of a model with the given numbers of vertices,
/// index triples and normals and, if it is textured, the given PNG length
/// and number of texture coordinates, fits a 32-bit length.
pub fn model_fits(vertices: usize, indices: usize, normals: usize, texture: Option<(usize, usize)>) -> (r:
    bool)
    ensures
        r == (model_blob_len(
            vertices as int,
            indices as int,
            normals as int,
            match texture {
                Some((png, uv)) => Some((png as int, uv as int)),
                None => None,
            },
        ) <= u32::MAX),
{
    let geometry: u128 = 12 * (vertices as u128) + 12 * (normals as u128) + 12 * (indices as u128);
    let extra: u128 = match texture {
        Some((png, uv)) => (png as u128 + 3) / 4 * 4 + 8 * (uv as u128),
        None => 0,
    };
    geometry + extra <= 0xFFFF_FFFF
}

/// The three words of `a` as a list.
fn triple_words(a: [u32; 3]) -> (out: Vec<u32>)
    ensures
        out@ == seq![a@[0], a@[1], a@[2]],
{
    let mut out: Vec<u32> = Vec::new();
    out.push(a[0]);
    out.push(a[1]);
    out.push(a[2]);
    assert(out@ =~= seq![a@[0], a@[1], a@[2]]);
    out
}

/// Appends the triples `points` to the buffer and registers a view and an
/// accessor with bounds for them.
fn add_triples(builder: &mut Builder, registry: &mut Registry, points: &[[u32; 3]]) -> (index: u32)
    requires
        old(builder)@.len() + 12 * points@.len() <= u32::MAX,
        old(registry).buffer_views().len() < u32::MAX,
        old(registry).accessors().len() < u32::MAX,
    ensures
        index == old(registry).accessors().len(),
        final(builder)@ == appended(old(builder)@, triples_bytes(points@)),
        final(builder)@.len() == old(builder)@.len() + 12 * points@.len(),
        final(registry).buffer_views() == old(registry).buffer_views().push(
            array_view(old(builder)@.len() as int, 12 * points@.len() as int),
        ),
        final(registry).accessors() == old(registry).accessors().push(
            triples_accessor(old(registry).buffer_views().len() as int, points@),
        ),
{
    proof {
        lemma_padded_len(12 * points@.len() as int);
    }
    let words = flatten_triples(points);
    let data = encode_words(words.as_slice());
    let (ofs, len) = builder.append(data.as_slice());
    let view = registry.register_view(
        BufferView {
            buffer: 0,
            byte_offset: ofs,
            byte_length: len,
            byte_stride: None,
            target: Some(Target::ArrayBuffer),
        },
    );
    let (min, max) = bounding_coords3d(points);
    let accessor = Accessor {
        buffer_view: Some(view),
        byte_offset: 0,
        count: points.len() as u32,
        component_type: ComponentType::F32,
        shape: Shape::Vec3,
        normalized: false,
        min: Some(triple_words(min)),
        max: Some(triple_words(max)),
        sparse: false,
    };
    proof {
        assert(accessor@.min->0 =~= triples_accessor(view as int, points@).min->0);
        assert(accessor@.max->0 =~= triples_accessor(view as int, points@).max->0);
        assert(accessor@ == triples_accessor(view as int, points@));
    }
    registry.register_accessor(accessor)
}

/// Appends the index triples `indices`, flattened, to the buffer and
/// registers a view and a scalar accessor for them.
fn add_indices(builder: &mut Builder, registry: &mut Registry, indices: &[[u32; 3]]) -> (index: u32)
    requires
        old(builder)@.len() + 12 * indices@.len() <= u32::MAX,
        old(registry).buffer_views().len() < u32::MAX,
        old(registry).accessors().len() < u32::MAX,
    ensures
        index == old(registry).accessors().len(),
        final(builder)@ == appended(old(builder)@, triples_bytes(indices@)),
        final(builder)@.len() == old(builder)@.len() + 12 * indices@.len(),
        final(registry).buffer_views() == old(registry).buffer_views().push(
            array_view(old(builder)@.len() as int, 12 * indices@.len() as int),
        ),
        final(registry).accessors() == old(registry).accessors().push(
            index_accessor(old(registry).buffer_views().len() as int, 3 * indices@.len() as int),
        ),
{
    proof {
        lemma_padded_len(12 * indices@.len() as int);
    }
    let words = flatten_triples(indices);
    let data = encode_words(words.as_slice());
    let (ofs, len) = builder.append(data.as_slice());
    let view = registry.register_view(
        BufferView {
            buffer: 0,
            byte_offset: ofs,
            byte_length: len,
            byte_stride: None,
            target: Some(Target::ArrayBuffer),
        },
    );
    let accessor = Accessor {
        buffer_view: Some(view),
        byte_offset: 0,
        count: words.len() as u32,
        component_type: ComponentType::U32,
        shape: Shape::Scalar,
        normalized: false,
        min: None,
        max: None,
        sparse: false,
    };
    registry.register_accessor(accessor)
}

/// Builds the document and the binary chunk of a model of one mesh.
///
/// The chunk holds the positions, the normals, the flattened index triples
/// and, for a textured model, the PNG bytes and the texture coordinates,
/// every number as a little-endian word. The document describes the chunk
/// with one buffer view per span and one accessor per array, and holds one
/// triangle primitive in one mesh on one node of one scene.
pub fn build_model(
    vertices: &[[u32; 3]],
    indices: &[[u32; 3]],
    normals: &[[u32; 3]],
    material: Option<(&[u8], &[[u32; 2]])>,
    translation: Option<[u32; 3]>,
) -> (model: (Document, Vec<u8>))
    requires
        model_blob_len(
            vertices@.len() as int,
            indices@.len() as int,
            normals@.len() as int,
            texture_lens(texture_model(material)),
        ) <= u32::MAX,
    ensures
        model.0@ == model_document(
            vertices@,
            indices@,
            normals@,
            texture_model(material),
            translation,
        ),
        model.1@ == model_blob(vertices@, indices@, normals@, texture_model(material)),
        model.1@.len() == model_blob_len(
            vertices@.len() as int,
            indices@.len() as int,
            normals@.len() as int,
            texture_lens(texture_model(material)),
        ),
{
    proof {
        match material {
            Some((png, uv)) => {
                lemma_padded_len(png@.len() as int);
                lemma_padded_len(8 * uv@.len() as int);
            },
            None => {},
        }
    }
    let mut builder = Builder::new();
    let mut registry = Registry::new();
    let positions = add_triples(&mut builder, &mut registry, vertices);
    let normals_index = add_triples(&mut builder, &mut registry, normals);
    let indices_index = add_indices(&mut builder, &mut registry, indices);
    let mut tables = MaterialTables::new();
    let material_index: Option<u32> = match material {
        Some((png, uv)) => Some(
            add_textured_material(&mut builder, &mut registry, &mut tables, png, uv),
        ),
        None => None,
    };
    let mut attributes: Vec<Attribute> = Vec::new();
    attributes.push(Attribute { semantic: Semantic::Positions, accessor: positions });
    attributes.push(Attribute { semantic: Semantic::Normals, accessor: normals_index });
    let primitive = Primitive {
        attributes,
        indices: Some(indices_index),
        mode: Mode::Triangles,
        material: material_index,
    };
    let mut primitives: Vec<Primitive> = Vec::new();
    primitives.push(primitive);
    let mut meshes: Vec<Mesh> = Vec::new();
    meshes.push(Mesh { primitives });
    let mut nodes: Vec<Node> = Vec::new();
    nodes.push(
        Node { mesh: Some(0), translation, rotation: None, scale: None, children: Vec::new() },
    );
    let mut roots: Vec<u32> = Vec::new();
    roots.push(0);
    let mut scenes: Vec<Scene> = Vec::new();
    scenes.push(Scene { nodes: roots });
    let blob = builder.into_bytes();
    let mut buffers: Vec<Buffer> = Vec::new();
    buffers.push(Buffer { byte_length: blob.len() as u32, uri: None });
    let mut extensions_used: Vec<String> = Vec::new();
    extensions_used.push("KHR_texture_transform".to_owned());
    let (buffer_views, accessors) = registry.into_tables();
    let MaterialTables { images, samplers, textures, materials } = tables;
    let doc = Document {
        buffers,
        buffer_views,
        accessors,
        meshes,
        nodes,
        scenes,
        materials,
        textures,
        images,
        samplers,
        extensions_used,
    };
    proof {
        let want = model_document(
            vertices@,
            indices@,
            normals@,
            texture_model(material),
            translation,
        );
        assert(doc@.buffers =~= want.buffers);
        assert(doc@.buffer_views =~= want.buffer_views);
        assert(doc@.accessors =~= want.accessors);
        assert(doc.meshes@[0]@.primitives =~= seq![model_primitive(material is Some)]) by {
            assert(doc.meshes@[0].primitives@[0]@.attributes =~= model_primitive(
                material is Some,
            ).attributes);
        }
        assert(doc@.meshes =~= want.meshes);
        assert(doc.nodes@[0]@.children =~= Seq::<u32>::empty());
        assert(doc@.nodes =~= want.nodes);
        assert(doc.scenes@[0]@.nodes =~= seq![0u32]);
        assert(doc@.scenes =~= want.scenes);
        assert(doc@.materials =~= want.materials);
        assert(doc@.textures =~= want.textures);
        assert(doc@.images =~= want.images);
        assert(doc@.samplers =~= want.samplers);
        assert(doc@.extensions_used =~= want.extensions_used);
    }
    (doc, blob)
}

} // verus!
