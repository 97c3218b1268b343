use crate::binary32::{NINE_TENTHS, ONE, ZERO};
use crate::builder::{appended, Builder};
use crate::document::{
    views, Accessor, AccessorModel, BufferView, ComponentType, Image, ImageModel, MagFilter,
    Material, MinFilter, Sampler, Shape, Target, Texture, TextureInfo, TextureTransform,
    WrappingMode,
};
use crate::elements::{flatten2, flatten_pairs};
use crate::layout::{lemma_padded_len, padded_len};
use crate::registry::{bounding_coords2d, column2, highest, lowest, Registry};
use crate::word::{encode_words, words_bytes};
use vstd::prelude::*;

verus! {

/// The MIME type of PNG images.
pub open spec fn png_mime() -> Seq<char> {
    "image/png"@
}

/// The name of the texture-transform extension.
pub open spec fn texture_transform_extension() -> Seq<char> {
    "KHR_texture_transform"@
}

/// The tables that hold what a textured material is made of.
#[derive(Clone, Debug, PartialEq, Eq)]
pub struct MaterialTables {
    pub images: Vec<Image>,
    pub samplers: Vec<Sampler>,
    pub textures: Vec<Texture>,
    pub materials: Vec<Material>,
}

/// The mathematical content of [`MaterialTables`].
pub ghost struct MaterialTablesModel {
    pub images: Seq<ImageModel>,
    pub samplers: Seq<Sampler>,
    pub textures: Seq<Texture>,
    pub materials: Seq<Material>,
}

impl View for MaterialTables {
    type V = MaterialTablesModel;

    open spec fn view(&self) -> MaterialTablesModel {
        MaterialTablesModel {
            images: views(self.images@),
            samplers: self.samplers@,
            textures: self.textures@,
            materials: self.materials@,
        }
    }
}

impl MaterialTables {
    /// Four empty tables.
    pub fn new() -> (t: MaterialTables)
        ensures
            t@ == (MaterialTablesModel {
                images: Seq::empty(),
                samplers: Seq::empty(),
                textures: Seq::empty(),
                materials: Seq::empty(),
            }),
    {
        let t = MaterialTables {
            images: Vec::new(),
            samplers: Vec::new(),
            textures: Vec::new(),
            materials: Vec::new(),
        };
        assert(t@.images =~= Seq::empty());
        t
    }
}

/// A tightly packed view of `byte_length` bytes at `byte_offset` of the
/// embedded buffer.
pub open spec fn array_view(byte_offset: int, byte_length: int) -> BufferView {
    BufferView {
        buffer: 0,
        byte_offset: byte_offset as u32,
        byte_length: byte_length as u32,
        byte_stride: None,
        target: Some(Target::ArrayBuffer),
    }
}

/// The accessor for the texture coordinates `uv`, stored in buffer view
/// `view`, with their bounds.
pub open spec fn uv_accessor(view: int, uv: Seq<[u32; 2]>) -> AccessorModel {
    AccessorModel {
        buffer_view: Some(view as u32),
        byte_offset: 0,
        count: uv.len() as u32,
        component_type: ComponentType::F32,
        shape: Shape::Vec2,
        normalized: false,
        min: Some(seq![lowest(column2(uv, 0)), lowest(column2(uv, 1))]),
        max: Some(seq![highest(column2(uv, 0)), highest(column2(uv, 1))]),
        sparse: false,
    }
}

/// The PNG image stored in buffer view `view`.
pub open spec fn png_image(view: int) -> ImageModel {
    ImageModel { buffer_view: Some(view as u32), mime_type: Some(png_mime()), uri: None }
}

/// The sampler of every texture made here: linear filters, repeat on both
/// axes.
pub open spec fn linear_repeat_sampler() -> Sampler {
    Sampler {
        mag_filter: Some(MagFilter::Linear),
        min_filter: Some(MinFilter::Linear),
        wrap_s: WrappingMode::Repeat,
        wrap_t: WrappingMode::Repeat,
    }
}

/// The texture of image `image` with sampler `sampler`. Its transform has
/// offset (0, 0), rotation 0 and scale (0, 0), and takes its coordinates
/// from `uv_set`.
pub open spec fn transformed_texture(sampler: int, image: int, uv_set: int) -> Texture {
    Texture {
        sampler: Some(sampler as u32),
        source: image as u32,
        transform: Some(
            TextureTransform {
                offset: [ZERO, ZERO],
                rotation: ZERO,
                scale: [ZERO, ZERO],
                tex_coord: Some(uv_set as u32),
            },
        ),
    }
}

/// The material with base colour (1, 1, 1, 1), metallic factor 0, roughness
/// factor 0.9 and `texture` as its base-colour texture on UV set 0.
pub open spec fn textured_material(texture: int) -> Material {
    Material {
        base_color_factor: [ONE, ONE, ONE, ONE],
        base_color_texture: Some(TextureInfo { index: texture as u32, tex_coord: 0 }),
        metallic_factor: ZERO,
        roughness_factor: NINE_TENTHS,
        metallic_roughness_texture: None,
    }
}

/// The little-endian bytes of the texture coordinates `uv`.
pub open spec fn uv_bytes(uv: Seq<[u32; 2]>) -> Seq<u8> {
    words_bytes(flatten2(uv))
}

/// Adds a textured material: the PNG bytes and the texture coordinates go
/// into the binary buffer, each with a buffer view; the coordinates get an
/// accessor with their bounds; an image, a sampler, a texture and a material
/// are added to their tables, each naming the one before it. Returns the
/// index of the new material.
pub fn add_textured_material(
    builder: &mut Builder,
    registry: &mut Registry,
    tables: &mut MaterialTables,
    png: &[u8],
    uv: &[[u32; 2]],
) -> (material: u32)
    requires
        old(builder)@.len() + padded_len(png@.len() as int) + 8 * uv@.len() <= u32::MAX,
        old(registry).buffer_views().len() + 2 <= u32::MAX,
        old(registry).accessors().len() < u32::MAX,
        old(tables)@.images.len() < u32::MAX,
        old(tables)@.samplers.len() < u32::MAX,
        old(tables)@.textures.len() < u32::MAX,
        old(tables)@.materials.len() < u32::MAX,
    ensures
        material == old(tables)@.materials.len(),
        final(builder)@ == appended(appended(old(builder)@, png@), uv_bytes(uv@)),
        final(registry).buffer_views() == old(registry).buffer_views().push(
            array_view(old(builder)@.len() as int, png@.len() as int),
        ).push(
            array_view(
                old(builder)@.len() + padded_len(png@.len() as int),
                8 * uv@.len() as int,
            ),
        ),
        final(registry).accessors() == old(registry).accessors().push(
            uv_accessor((old(registry).buffer_views().len() + 1) as int, uv@),
        ),
        final(tables)@.images == old(tables)@.images.push(
            png_image(old(registry).buffer_views().len() as int),
        ),
        final(tables)@.samplers == old(tables)@.samplers.push(linear_repeat_sampler()),
        final(tables)@.textures == old(tables)@.textures.push(
            transformed_texture(
                old(tables)@.samplers.len() as int,
                old(tables)@.images.len() as int,
                old(registry).accessors().len() as int,
            ),
        ),
        final(tables)@.materials == old(tables)@.materials.push(
            textured_material(old(tables)@.textures.len() as int),
        ),
{
    proof {
        lemma_padded_len(png@.len() as int);
        lemma_padded_len(8 * uv@.len() as int);
    }
    let (png_ofs, png_len) = builder.append(png);
    let uv_words = flatten_pairs(uv);
    let uv_data = encode_words(uv_words.as_slice());
    let (uv_ofs, uv_len) = builder.append(uv_data.as_slice());
    let png_view = registry.register_view(
        BufferView {
            buffer: 0,
            byte_offset: png_ofs,
            byte_length: png_len,
            byte_stride: None,
            target: Some(Target::ArrayBuffer),
        },
    );
    let uv_view = registry.register_view(
        BufferView {
            buffer: 0,
            byte_offset: uv_ofs,
            byte_length: uv_len,
            byte_stride: None,
            target: Some(Target::ArrayBuffer),
        },
    );
    let (min, max) = bounding_coords2d(uv);
    let mut min_words: Vec<u32> = Vec::new();
    min_words.push(min[0]);
    min_words.push(min[1]);
    let mut max_words: Vec<u32> = Vec::new();
    max_words.push(max[0]);
    max_words.push(max[1]);
    let accessor = Accessor {
        buffer_view: Some(uv_view),
        byte_offset: 0,
        count: uv.len() as u32,
        component_type: ComponentType::F32,
        shape: Shape::Vec2,
        normalized: false,
        min: Some(min_words),
        max: Some(max_words),
        sparse: false,
    };
    proof {
        assert(accessor@.min->0 =~= uv_accessor(uv_view as int, uv@).min->0);
        assert(accessor@.max->0 =~= uv_accessor(uv_view as int, uv@).max->0);
        assert(accessor@ == uv_accessor(uv_view as int, uv@));
    }
    let uv_index = registry.register_accessor(accessor);

    let image_index: u32 = tables.images.len() as u32;
    tables.images.push(
        Image { buffer_view: Some(png_view), mime_type: Some("image/png".to_owned()), uri: None },
    );
    let sampler_index: u32 = tables.samplers.len() as u32;
    tables.samplers.push(
        Sampler {
            mag_filter: Some(MagFilter::Linear),
            min_filter: Some(MinFilter::Linear),
            wrap_s: WrappingMode::Repeat,
            wrap_t: WrappingMode::Repeat,
        },
    );
    let texture_index: u32 = tables.textures.len() as u32;
    tables.textures.push(
        Texture {
            sampler: Some(sampler_index),
            source: image_index,
            transform: Some(
                TextureTransform {
                    offset: [ZERO, ZERO],
                    rotation: ZERO,
                    scale: [ZERO, ZERO],
                    tex_coord: Some(uv_index),
                },
            ),
        },
    );
    let material_index: u32 = tables.materials.len() as u32;
    tables.materials.push(
        Material {
            base_color_factor: [ONE, ONE, ONE, ONE],
            base_color_texture: Some(TextureInfo { index: texture_index, tex_coord: 0 }),
            metallic_factor: ZERO,
            roughness_factor: NINE_TENTHS,
            metallic_roughness_texture: None,
        },
    );
    proof {
        assert(tables@.images =~= old(tables)@.images.push(png_image(png_view as int)));
    }
    material_index
}

} // verus!
