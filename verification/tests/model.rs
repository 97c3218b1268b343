use vacation::builder::Builder;
use vacation::decoder::{decode, Elements};
use vacation::document::{
    Accessor, Attribute, Buffer, BufferView, ComponentType, Document, Image, MagFilter, Material,
    Mesh, MinFilter, Mode, Node, Primitive, Sampler, Scene, Semantic, Shape, Target, Texture,
    TextureInfo, TextureTransform, WrappingMode,
};
use vacation::elements::group_triples;
use vacation::export::{build_model, model_fits};
use vacation::extract::{decode_pairs, decode_scalars, decode_triples};
use vacation::material::{add_textured_material, MaterialTables};
use vacation::reader::parse_glb;
use vacation::registry::Registry;
use vacation::writer::write_glb;

fn bits3(p: [f32; 3]) -> [u32; 3] {
    [p[0].to_bits(), p[1].to_bits(), p[2].to_bits()]
}

fn bits2(p: [f32; 2]) -> [u32; 2] {
    [p[0].to_bits(), p[1].to_bits()]
}

fn triangle() -> Vec<[u32; 3]> {
    vec![bits3([0.0, 0.5, 0.0]), bits3([-0.5, -0.5, 0.0]), bits3([0.5, -0.5, 0.0])]
}

fn facing() -> Vec<[u32; 3]> {
    vec![bits3([0.0, 0.0, 1.0]); 3]
}

fn view(offset: u32, length: u32) -> BufferView {
    BufferView {
        buffer: 0,
        byte_offset: offset,
        byte_length: length,
        byte_stride: None,
        target: Some(Target::ArrayBuffer),
    }
}

fn png() -> Vec<u8> {
    vec![0x89, b'P', b'N', b'G', 0x0D, 0x0A, 0x1A, 0x0A, 1, 2, 3]
}

fn uv() -> Vec<[u32; 2]> {
    vec![bits2([0.5, 1.0]), bits2([0.0, 0.0]), bits2([1.0, 0.25])]
}

#[test]
fn triangle_gives_a_chunk_of_48_bytes() {
    let vertices = triangle();
    let indices = vec![[0u32, 1, 2]];
    let (doc, blob) = build_model(&vertices, &indices, &[], None, None);
    assert_eq!(blob.len(), 36 + 12);
    assert_eq!(doc.buffers, vec![Buffer { byte_length: 48, uri: None }]);
    let mut want: Vec<u8> = Vec::new();
    for v in [0.0f32, 0.5, 0.0, -0.5, -0.5, 0.0, 0.5, -0.5, 0.0] {
        want.extend_from_slice(&v.to_le_bytes());
    }
    for i in [0u32, 1, 2] {
        want.extend_from_slice(&i.to_le_bytes());
    }
    assert_eq!(blob, want);
    assert_eq!(decode(&doc, &blob, 0), Ok(Elements::Triples(vertices)));
    assert_eq!(decode(&doc, &blob, 2), Ok(Elements::Scalars(vec![0, 1, 2])));
    assert_eq!(group_triples(&decode_scalars(&doc, &blob, 2).unwrap()), indices);
}

#[test]
fn model_document_without_texture() {
    let vertices = triangle();
    let normals = facing();
    let indices = vec![[0u32, 1, 2]];
    let translation = Some(bits3([0.0, 0.0, 0.3]));
    let (doc, blob) = build_model(&vertices, &indices, &normals, None, translation);
    assert_eq!(blob.len(), 84);
    let want = Document {
        buffers: vec![Buffer { byte_length: 84, uri: None }],
        buffer_views: vec![view(0, 36), view(36, 36), view(72, 12)],
        accessors: vec![
            Accessor {
                buffer_view: Some(0),
                byte_offset: 0,
                count: 3,
                component_type: ComponentType::F32,
                shape: Shape::Vec3,
                normalized: false,
                min: Some(bits3([-0.5, -0.5, 0.0]).to_vec()),
                max: Some(bits3([0.5, 0.5, 0.0]).to_vec()),
                sparse: false,
            },
            Accessor {
                buffer_view: Some(1),
                byte_offset: 0,
                count: 3,
                component_type: ComponentType::F32,
                shape: Shape::Vec3,
                normalized: false,
                min: Some(bits3([0.0, 0.0, 1.0]).to_vec()),
                max: Some(bits3([0.0, 0.0, 1.0]).to_vec()),
                sparse: false,
            },
            Accessor {
                buffer_view: Some(2),
                byte_offset: 0,
                count: 3,
                component_type: ComponentType::U32,
                shape: Shape::Scalar,
                normalized: false,
                min: None,
                max: None,
                sparse: false,
            },
        ],
        meshes: vec![Mesh {
            primitives: vec![Primitive {
                attributes: vec![
                    Attribute { semantic: Semantic::Positions, accessor: 0 },
                    Attribute { semantic: Semantic::Normals, accessor: 1 },
                ],
                indices: Some(2),
                mode: Mode::Triangles,
                material: None,
            }],
        }],
        nodes: vec![Node {
            mesh: Some(0),
            translation,
            rotation: None,
            scale: None,
            children: Vec::new(),
        }],
        scenes: vec![Scene { nodes: vec![0] }],
        materials: Vec::new(),
        textures: Vec::new(),
        images: Vec::new(),
        samplers: Vec::new(),
        extensions_used: vec!["KHR_texture_transform".to_string()],
    };
    assert_eq!(doc, want);
}

#[test]
fn model_document_with_texture() {
    let vertices = triangle();
    let normals = facing();
    let indices = vec![[0u32, 1, 2]];
    let png = png();
    let uv = uv();
    let (doc, blob) = build_model(&vertices, &indices, &normals, Some((&png, &uv)), None);
    assert_eq!(blob.len(), 84 + 12 + 24);
    assert_eq!(doc.buffers, vec![Buffer { byte_length: 120, uri: None }]);
    assert_eq!(
        doc.buffer_views,
        vec![view(0, 36), view(36, 36), view(72, 12), view(84, 11), view(96, 24)]
    );
    assert_eq!(&blob[84..95], &png[..]);
    assert_eq!(blob[95], 0);
    assert_eq!(doc.accessors.len(), 4);
    assert_eq!(
        doc.accessors[3],
        Accessor {
            buffer_view: Some(4),
            byte_offset: 0,
            count: 3,
            component_type: ComponentType::F32,
            shape: Shape::Vec2,
            normalized: false,
            min: Some(bits2([0.0, 0.0]).to_vec()),
            max: Some(bits2([1.0, 1.0]).to_vec()),
            sparse: false,
        }
    );
    assert_eq!(
        doc.images,
        vec![Image { buffer_view: Some(3), mime_type: Some("image/png".to_string()), uri: None }]
    );
    assert_eq!(
        doc.samplers,
        vec![Sampler {
            mag_filter: Some(MagFilter::Linear),
            min_filter: Some(MinFilter::Linear),
            wrap_s: WrappingMode::Repeat,
            wrap_t: WrappingMode::Repeat,
        }]
    );
    assert_eq!(
        doc.textures,
        vec![Texture {
            sampler: Some(0),
            source: 0,
            transform: Some(TextureTransform {
                offset: bits2([0.0, 0.0]),
                rotation: 0.0f32.to_bits(),
                scale: bits2([0.0, 0.0]),
                tex_coord: Some(3),
            }),
        }]
    );
    assert_eq!(
        doc.materials,
        vec![Material {
            base_color_factor: [1.0f32.to_bits(); 4],
            base_color_texture: Some(TextureInfo { index: 0, tex_coord: 0 }),
            metallic_factor: 0.0f32.to_bits(),
            roughness_factor: 0.9f32.to_bits(),
            metallic_roughness_texture: None,
        }]
    );
    assert_eq!(doc.meshes[0].primitives[0].material, Some(0));
    assert_eq!(
        doc.meshes[0].primitives[0].attributes,
        vec![
            Attribute { semantic: Semantic::Positions, accessor: 0 },
            Attribute { semantic: Semantic::Normals, accessor: 1 },
        ]
    );
    assert_eq!(doc.extensions_used, vec!["KHR_texture_transform".to_string()]);
}

#[test]
fn texture_transform_scale_is_zero() {
    let png = png();
    let uv = uv();
    let (doc, _) = build_model(&triangle(), &[[0, 1, 2]], &facing(), Some((&png, &uv)), None);
    let transform = doc.textures[0].transform.unwrap();
    assert_eq!(f32::from_bits(transform.scale[0]), 0.0);
    assert_eq!(f32::from_bits(transform.scale[1]), 0.0);
    assert_eq!(f32::from_bits(transform.rotation), 0.0);
    assert_eq!(f32::from_bits(transform.offset[0]), 0.0);
    assert_eq!(f32::from_bits(transform.offset[1]), 0.0);
}

#[test]
fn every_reference_names_an_existing_entity() {
    let png = png();
    let uv = uv();
    let (doc, _) = build_model(&triangle(), &[[0, 1, 2]], &facing(), Some((&png, &uv)), None);
    for v in &doc.buffer_views {
        assert!((v.buffer as usize) < doc.buffers.len());
    }
    for a in &doc.accessors {
        assert!((a.buffer_view.unwrap() as usize) < doc.buffer_views.len());
    }
    for m in &doc.meshes {
        for p in &m.primitives {
            for a in &p.attributes {
                assert!((a.accessor as usize) < doc.accessors.len());
            }
            assert!((p.indices.unwrap() as usize) < doc.accessors.len());
            assert!((p.material.unwrap() as usize) < doc.materials.len());
        }
    }
    for n in &doc.nodes {
        assert!((n.mesh.unwrap() as usize) < doc.meshes.len());
    }
    for s in &doc.scenes {
        for n in &s.nodes {
            assert!((*n as usize) < doc.nodes.len());
        }
    }
    for m in &doc.materials {
        assert!((m.base_color_texture.unwrap().index as usize) < doc.textures.len());
    }
    for t in &doc.textures {
        assert!((t.source as usize) < doc.images.len());
        assert!((t.sampler.unwrap() as usize) < doc.samplers.len());
        assert!((t.transform.unwrap().tex_coord.unwrap() as usize) < doc.accessors.len());
    }
    for i in &doc.images {
        assert!((i.buffer_view.unwrap() as usize) < doc.buffer_views.len());
    }
}

#[test]
fn arrays_survive_encoding_bit_for_bit() {
    let vertices: Vec<[u32; 3]> = vec![
        bits3([0.1, -0.2, 3.0e-40]),
        bits3([f32::MAX, f32::MIN, -0.0]),
        [f32::NAN.to_bits(), 0x7FC0_1234, 0xFFFF_FFFF],
        bits3([f32::INFINITY, f32::NEG_INFINITY, 1.0]),
    ];
    let normals: Vec<[u32; 3]> = vec![bits3([0.0, 1.0, 0.0]); 4];
    let indices: Vec<[u32; 3]> = vec![[0, 1, 2], [2, 1, 3], [u32::MAX, 0, 7]];
    let png = png();
    let uv = uv();
    let (doc, blob) = build_model(&vertices, &indices, &normals, Some((&png, &uv)), None);
    let file = write_glb(b"{}", &blob);
    let glb = parse_glb(&file).unwrap();
    assert_eq!(glb.bin, blob);
    assert_eq!(decode_triples(&doc, &glb.bin, 0), Ok(vertices));
    assert_eq!(decode_triples(&doc, &glb.bin, 1), Ok(normals));
    assert_eq!(
        decode_scalars(&doc, &glb.bin, 2).map(|flat| group_triples(&flat)),
        Ok(indices)
    );
    assert_eq!(decode_pairs(&doc, &glb.bin, 3), Ok(uv));
}

#[test]
fn model_with_one_vertex_and_no_triangle() {
    let vertices = vec![bits3([1.0, 2.0, 3.0])];
    let (doc, blob) = build_model(&vertices, &[], &[], None, None);
    assert_eq!(blob.len(), 12);
    assert_eq!(decode_triples(&doc, &blob, 0), Ok(vertices));
    assert_eq!(decode_triples(&doc, &blob, 1), Ok(Vec::new()));
    assert_eq!(decode_scalars(&doc, &blob, 2), Ok(Vec::new()));
    assert_eq!(doc.accessors[0].min, Some(bits3([1.0, 2.0, 3.0]).to_vec()));
    assert_eq!(doc.accessors[0].max, Some(bits3([1.0, 2.0, 3.0]).to_vec()));
}

#[test]
fn assembler_adds_to_tables_that_are_in_use() {
    let mut builder = Builder::new();
    builder.append(&[1, 2, 3, 4, 5, 6]);
    let mut registry = Registry::new();
    registry.register_view(view(0, 6));
    let mut tables = MaterialTables::new();
    let png = png();
    let uv = uv();
    let first = add_textured_material(&mut builder, &mut registry, &mut tables, &png, &uv);
    let second = add_textured_material(&mut builder, &mut registry, &mut tables, &png, &uv);
    assert_eq!((first, second), (0, 1));
    assert_eq!(builder.len(), 8 + 2 * (12 + 24));
    assert_eq!(tables.images.len(), 2);
    assert_eq!(tables.images[1].buffer_view, Some(3));
    assert_eq!(tables.textures[1].sampler, Some(1));
    assert_eq!(tables.textures[1].source, 1);
    assert_eq!(tables.textures[1].transform.unwrap().tex_coord, Some(1));
    assert_eq!(tables.materials[1].base_color_texture, Some(TextureInfo { index: 1, tex_coord: 0 }));
    let (views, accessors) = registry.into_tables();
    assert_eq!(
        views,
        vec![view(0, 6), view(8, 11), view(20, 24), view(44, 11), view(56, 24)]
    );
    assert_eq!(accessors.len(), 2);
    assert_eq!(accessors[0].buffer_view, Some(2));
    assert_eq!(accessors[1].buffer_view, Some(4));
    assert_eq!(accessors[1].count, 3);
}

#[test]
fn whole_file_is_valid_for_the_gltf_crate() {
    let vertices = triangle();
    let normals = facing();
    let (doc, blob) = build_model(&vertices, &[[0, 1, 2]], &normals, None, None);
    let v = &doc.buffer_views;
    let json = format!(
        "{{\"asset\":{{\"version\":\"2.0\"}},\"buffers\":[{{\"byteLength\":{}}}],\
         \"bufferViews\":[{{\"buffer\":0,\"byteOffset\":{},\"byteLength\":{}}},\
         {{\"buffer\":0,\"byteOffset\":{},\"byteLength\":{}}},\
         {{\"buffer\":0,\"byteOffset\":{},\"byteLength\":{}}}],\
         \"accessors\":[{{\"bufferView\":0,\"componentType\":{},\"count\":{},\"type\":\"VEC3\",\
         \"min\":[-0.5,-0.5,0.0],\"max\":[0.5,0.5,0.0]}},\
         {{\"bufferView\":1,\"componentType\":{},\"count\":{},\"type\":\"VEC3\"}},\
         {{\"bufferView\":2,\"componentType\":{},\"count\":{},\"type\":\"SCALAR\"}}],\
         \"meshes\":[{{\"primitives\":[{{\"attributes\":{{\"POSITION\":0,\"NORMAL\":1}},\
         \"indices\":2}}]}}],\"nodes\":[{{\"mesh\":0}}],\"scenes\":[{{\"nodes\":[0]}}]}}",
        doc.buffers[0].byte_length,
        v[0].byte_offset,
        v[0].byte_length,
        v[1].byte_offset,
        v[1].byte_length,
        v[2].byte_offset,
        v[2].byte_length,
        doc.accessors[0].component_type.code(),
        doc.accessors[0].count,
        doc.accessors[1].component_type.code(),
        doc.accessors[1].count,
        doc.accessors[2].component_type.code(),
        doc.accessors[2].count,
    );
    let file = write_glb(json.as_bytes(), &blob);
    let loaded = gltf::Gltf::from_slice(&file).unwrap();
    let bin = loaded.blob.clone().unwrap();
    assert_eq!(bin, blob);
    let mesh = loaded.meshes().next().unwrap();
    let primitive = mesh.primitives().next().unwrap();
    let positions = primitive.get(&gltf::Semantic::Positions).unwrap();
    let view = positions.view().unwrap();
    let mut read: Vec<[u32; 3]> = Vec::new();
    for chunk in bin[view.offset()..view.offset() + view.length()].chunks_exact(12) {
        let x = f32::from_le_bytes([chunk[0], chunk[1], chunk[2], chunk[3]]);
        let y = f32::from_le_bytes([chunk[4], chunk[5], chunk[6], chunk[7]]);
        let z = f32::from_le_bytes([chunk[8], chunk[9], chunk[10], chunk[11]]);
        read.push(bits3([x, y, z]));
    }
    assert_eq!(read, vertices);
    assert_eq!(primitive.indices().unwrap().count(), 3);
}

#[test]
fn chunk_length_must_fit_32_bits() {
    assert!(model_fits(0, 0, 0, None));
    assert!(model_fits(3, 1, 3, Some((11, 3))));
    // 12 * 357913941 = 4294967292.
    assert!(model_fits(357913941, 0, 0, None));
    assert!(!model_fits(357913941, 1, 0, None));
    assert!(model_fits(357913940, 0, 0, Some((9, 0))));
    assert!(!model_fits(357913940, 0, 0, Some((13, 0))));
    assert!(!model_fits(357913940, 0, 0, Some((1, 2))));
    assert!(!model_fits(usize::MAX, usize::MAX, usize::MAX, Some((usize::MAX, usize::MAX))));
}
