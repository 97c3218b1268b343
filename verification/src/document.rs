use vstd::prelude::*;

verus! {

/// The views of the items of `s`, in order.
pub open spec fn views<T: View>(s: Seq<T>) -> Seq<T::V> {
    Seq::new(s.len(), |i: int| s[i]@)
}

/// The characters of an optional text.
pub open spec fn text(s: Option<String>) -> Option<Seq<char>> {
    match s {
        Some(t) => Some(t@),
        None => None,
    }
}

/// The words of an optional list of words.
pub open spec fn words(s: Option<Vec<u32>>) -> Option<Seq<u32>> {
    match s {
        Some(t) => Some(t@),
        None => None,
    }
}

/// The data type of one component of an accessor's elements.
#[derive(Clone, Copy, Debug, PartialEq, Eq, Structural)]
pub enum ComponentType {
    I8,
    U8,
    I16,
    U16,
    U32,
    F32,
}

impl ComponentType {
    /// The size of one component in bytes.
    pub open spec fn spec_size(self) -> int {
        match self {
            ComponentType::I8 => 1,
            ComponentType::U8 => 1,
            ComponentType::I16 => 2,
            ComponentType::U16 => 2,
            ComponentType::U32 => 4,
            ComponentType::F32 => 4,
        }
    }

    /// The size of one component in bytes.
    pub fn size(self) -> (n: u32)
        ensures
            n == self.spec_size(),
    {
        match self {
            ComponentType::I8 => 1,
            ComponentType::U8 => 1,
            ComponentType::I16 => 2,
            ComponentType::U16 => 2,
            ComponentType::U32 => 4,
            ComponentType::F32 => 4,
        }
    }

    /// The code that stands for the component type in a document.
    pub open spec fn spec_code(self) -> u32 {
        match self {
            ComponentType::I8 => 5120,
            ComponentType::U8 => 5121,
            ComponentType::I16 => 5122,
            ComponentType::U16 => 5123,
            ComponentType::U32 => 5125,
            ComponentType::F32 => 5126,
        }
    }

    /// The code that stands for the component type in a document.
    #[verifier::when_used_as_spec(spec_code)]
    pub fn code(self) -> (c: u32)
        ensures
            c == self.spec_code(),
    {
        match self {
            ComponentType::I8 => 5120,
            ComponentType::U8 => 5121,
            ComponentType::I16 => 5122,
            ComponentType::U16 => 5123,
            ComponentType::U32 => 5125,
            ComponentType::F32 => 5126,
        }
    }

    /// The component type that `code` stands for, if any.
    pub fn from_code(code: u32) -> (r: Option<ComponentType>)
        ensures
            match r {
                Some(t) => t.spec_code() == code,
                None => forall|t: ComponentType| t.spec_code() != code,
            },
    {
        if code == 5120 {
            Some(ComponentType::I8)
        } else if code == 5121 {
            Some(ComponentType::U8)
        } else if code == 5122 {
            Some(ComponentType::I16)
        } else if code == 5123 {
            Some(ComponentType::U16)
        } else if code == 5125 {
            Some(ComponentType::U32)
        } else if code == 5126 {
            Some(ComponentType::F32)
        } else {
            None
        }
    }
}

/// The shape of an accessor's elements.
#[derive(Clone, Copy, Debug, PartialEq, Eq, Structural)]
pub enum Shape {
    Scalar,
    Vec2,
    Vec3,
    Vec4,
    Mat2,
    Mat3,
    Mat4,
}

impl Shape {
    /// The number of components in one element.
    pub open spec fn spec_arity(self) -> int {
        match self {
            Shape::Scalar => 1,
            Shape::Vec2 => 2,
            Shape::Vec3 => 3,
            Shape::Vec4 => 4,
            Shape::Mat2 => 4,
            Shape::Mat3 => 9,
            Shape::Mat4 => 16,
        }
    }

    /// The number of components in one element.
    pub fn arity(self) -> (n: u32)
        ensures
            n == self.spec_arity(),
    {
        match self {
            Shape::Scalar => 1,
            Shape::Vec2 => 2,
            Shape::Vec3 => 3,
            Shape::Vec4 => 4,
            Shape::Mat2 => 4,
            Shape::Mat3 => 9,
            Shape::Mat4 => 16,
        }
    }
}

/// A raw buffer: the binary chunk of the container when it has no URI.
#[derive(Clone, Debug, PartialEq, Eq)]
pub struct Buffer {
    pub byte_length: u32,
    pub uri: Option<String>,
}

/// The mathematical content of a [`Buffer`].
pub ghost struct BufferModel {
    pub byte_length: u32,
    pub uri: Option<Seq<char>>,
}

impl View for Buffer {
    type V = BufferModel;

    open spec fn view(&self) -> BufferModel {
        BufferModel { byte_length: self.byte_length, uri: text(self.uri) }
    }
}

/// What a buffer view is meant to be bound to on the GPU.
#[derive(Clone, Copy, Debug, PartialEq, Eq, Structural)]
pub enum Target {
    ArrayBuffer,
    ElementArrayBuffer,
}

/// A byte range of a buffer.
#[derive(Clone, Copy, Debug, PartialEq, Eq, Structural)]
pub struct BufferView {
    pub buffer: u32,
    pub byte_offset: u32,
    pub byte_length: u32,
    pub byte_stride: Option<u32>,
    pub target: Option<Target>,
}

/// A typed array laid over a buffer view.
#[derive(Clone, Debug, PartialEq, Eq)]
pub struct Accessor {
    pub buffer_view: Option<u32>,
    pub byte_offset: u32,
    pub count: u32,
    pub component_type: ComponentType,
    pub shape: Shape,
    pub normalized: bool,
    /// Component-wise lower bound, as binary32 bit patterns.
    pub min: Option<Vec<u32>>,
    /// Component-wise upper bound, as binary32 bit patterns.
    pub max: Option<Vec<u32>>,
    /// Whether the accessor carries a sparse override.
    pub sparse: bool,
}

/// The mathematical content of an [`Accessor`].
pub ghost struct AccessorModel {
    pub buffer_view: Option<u32>,
    pub byte_offset: u32,
    pub count: u32,
    pub component_type: ComponentType,
    pub shape: Shape,
    pub normalized: bool,
    pub min: Option<Seq<u32>>,
    pub max: Option<Seq<u32>>,
    pub sparse: bool,
}

impl View for Accessor {
    type V = AccessorModel;

    open spec fn view(&self) -> AccessorModel {
        AccessorModel {
            buffer_view: self.buffer_view,
            byte_offset: self.byte_offset,
            count: self.count,
            component_type: self.component_type,
            shape: self.shape,
            normalized: self.normalized,
            min: words(self.min),
            max: words(self.max),
            sparse: self.sparse,
        }
    }
}

impl AccessorModel {
    /// The size in bytes of one tightly packed element.
    pub open spec fn element_size(self) -> int {
        self.component_type.spec_size() * self.shape.spec_arity()
    }

    /// The size in bytes of all the elements, tightly packed.
    pub open spec fn byte_len(self) -> int {
        self.count * self.element_size()
    }
}

/// What a vertex attribute means.
#[derive(Clone, Copy, Debug, PartialEq, Eq, Structural)]
pub enum Semantic {
    Positions,
    Normals,
    Tangents,
    Colors(u32),
    TexCoords(u32),
    Joints(u32),
    Weights(u32),
}

/// One entry of a primitive's attribute table.
#[derive(Clone, Copy, Debug, PartialEq, Eq, Structural)]
pub struct Attribute {
    pub semantic: Semantic,
    pub accessor: u32,
}

/// How the vertices of a primitive are connected.
#[derive(Clone, Copy, Debug, PartialEq, Eq, Structural)]
pub enum Mode {
    Points,
    Lines,
    LineLoop,
    LineStrip,
    Triangles,
    TriangleStrip,
    TriangleFan,
}

/// One drawable unit of a mesh.
#[derive(Clone, Debug, PartialEq, Eq)]
pub struct Primitive {
    /// The attribute table; no semantic occurs twice.
    pub attributes: Vec<Attribute>,
    pub indices: Option<u32>,
    pub mode: Mode,
    pub material: Option<u32>,
}

/// The mathematical content of a [`Primitive`].
pub ghost struct PrimitiveModel {
    pub attributes: Seq<Attribute>,
    pub indices: Option<u32>,
    pub mode: Mode,
    pub material: Option<u32>,
}

impl View for Primitive {
    type V = PrimitiveModel;

    open spec fn view(&self) -> PrimitiveModel {
        PrimitiveModel {
            attributes: self.attributes@,
            indices: self.indices,
            mode: self.mode,
            material: self.material,
        }
    }
}

/// The place of the first entry for `semantic` in `attributes` at or after
/// `from`, or the length of the table if there is none.
pub open spec fn attribute_position(attributes: Seq<Attribute>, semantic: Semantic, from: int) -> int
    decreases attributes.len() - from,
{
    if from < 0 || from >= attributes.len() {
        attributes.len() as int
    } else if attributes[from].semantic == semantic {
        from
    } else {
        attribute_position(attributes, semantic, from + 1)
    }
}

impl PrimitiveModel {
    /// The accessor bound to `semantic`, if the table has an entry for it.
    pub open spec fn attribute(self, semantic: Semantic) -> Option<u32> {
        let at = attribute_position(self.attributes, semantic, 0);
        if at < self.attributes.len() {
            Some(self.attributes[at].accessor)
        } else {
            None
        }
    }

    /// No semantic occurs twice in the attribute table.
    pub open spec fn keys_unique(self) -> bool {
        forall|i: int, j: int|
            0 <= i < j < self.attributes.len() ==> self.attributes[i].semantic
                != self.attributes[j].semantic
    }
}

/// What `attribute_position` finds is the first entry for the semantic.
pub proof fn lemma_attribute_position(attributes: Seq<Attribute>, semantic: Semantic, from: int)
    requires
        0 <= from <= attributes.len(),
    ensures
        from <= attribute_position(attributes, semantic, from) <= attributes.len(),
        attribute_position(attributes, semantic, from) < attributes.len()
            ==> attributes[attribute_position(attributes, semantic, from)].semantic == semantic,
        forall|i: int|
            from <= i < attribute_position(attributes, semantic, from)
                ==> attributes[i].semantic != semantic,
    decreases attributes.len() - from,
{
    if from < attributes.len() && attributes[from].semantic != semantic {
        lemma_attribute_position(attributes, semantic, from + 1);
    }
}

impl Primitive {
    /// The accessor bound to `semantic`, if the table has an entry for it:
    /// the accessor of the first entry with that semantic, or `None` where
    /// no entry has it.
    pub fn get(&self, semantic: Semantic) -> (r: Option<u32>)
        ensures
            r == self@.attribute(semantic),
            r is None <==> forall|i: int|
                0 <= i < self.attributes@.len() ==> self.attributes@[i].semantic != semantic,
            r matches Some(a) ==> exists|i: int|
                0 <= i < self.attributes@.len() && self.attributes@[i] == (Attribute {
                    semantic,
                    accessor: a,
                }),
    {
        proof {
            lemma_attribute_position(self.attributes@, semantic, 0);
        }
        let mut i: usize = 0;
        while i < self.attributes.len()
            invariant
                i <= self.attributes@.len(),
                attribute_position(self.attributes@, semantic, 0) == attribute_position(
                    self.attributes@,
                    semantic,
                    i as int,
                ),
            decreases self.attributes@.len() - i,
        {
            if self.attributes[i].semantic == semantic {
                let a: u32 = self.attributes[i].accessor;
                assert(self.attributes@[i as int] == (Attribute { semantic, accessor: a }));
                return Some(a);
            }
            i += 1;
        }
        None
    }
}

/// A set of primitives drawn together.
#[derive(Clone, Debug, PartialEq, Eq)]
pub struct Mesh {
    pub primitives: Vec<Primitive>,
}

/// The mathematical content of a [`Mesh`].
pub ghost struct MeshModel {
    pub primitives: Seq<PrimitiveModel>,
}

impl View for Mesh {
    type V = MeshModel;

    open spec fn view(&self) -> MeshModel {
        MeshModel { primitives: views(self.primitives@) }
    }
}

/// A node of the scene graph. Transform components are binary32 bit
/// patterns.
#[derive(Clone, Debug, PartialEq, Eq)]
pub struct Node {
    pub mesh: Option<u32>,
    pub translation: Option<[u32; 3]>,
    pub rotation: Option<[u32; 4]>,
    pub scale: Option<[u32; 3]>,
    pub children: Vec<u32>,
}

/// The mathematical content of a [`Node`].
pub ghost struct NodeModel {
    pub mesh: Option<u32>,
    pub translation: Option<[u32; 3]>,
    pub rotation: Option<[u32; 4]>,
    pub scale: Option<[u32; 3]>,
    pub children: Seq<u32>,
}

impl View for Node {
    type V = NodeModel;

    open spec fn view(&self) -> NodeModel {
        NodeModel {
            mesh: self.mesh,
            translation: self.translation,
            rotation: self.rotation,
            scale: self.scale,
            children: self.children@,
        }
    }
}

/// A set of root nodes.
#[derive(Clone, Debug, PartialEq, Eq)]
pub struct Scene {
    pub nodes: Vec<u32>,
}

/// The mathematical content of a [`Scene`].
pub ghost struct SceneModel {
    pub nodes: Seq<u32>,
}

impl View for Scene {
    type V = SceneModel;

    open spec fn view(&self) -> SceneModel {
        SceneModel { nodes: self.nodes@ }
    }
}

/// An image, either embedded through a buffer view or named by a URI.
#[derive(Clone, Debug, PartialEq, Eq)]
pub struct Image {
    pub buffer_view: Option<u32>,
    pub mime_type: Option<String>,
    pub uri: Option<String>,
}

/// The mathematical content of an [`Image`].
pub ghost struct ImageModel {
    pub buffer_view: Option<u32>,
    pub mime_type: Option<Seq<char>>,
    pub uri: Option<Seq<char>>,
}

impl View for Image {
    type V = ImageModel;

    open spec fn view(&self) -> ImageModel {
        ImageModel {
            buffer_view: self.buffer_view,
            mime_type: text(self.mime_type),
            uri: text(self.uri),
        }
    }
}

/// Magnification filter of a sampler.
#[derive(Clone, Copy, Debug, PartialEq, Eq, Structural)]
pub enum MagFilter {
    Nearest,
    Linear,
}

/// Minification filter of a sampler.
#[derive(Clone, Copy, Debug, PartialEq, Eq, Structural)]
pub enum MinFilter {
    Nearest,
    Linear,
    NearestMipmapNearest,
    LinearMipmapNearest,
    NearestMipmapLinear,
    LinearMipmapLinear,
}

/// How texture coordinates outside the unit square are treated.
#[derive(Clone, Copy, Debug, PartialEq, Eq, Structural)]
pub enum WrappingMode {
    ClampToEdge,
    MirroredRepeat,
    Repeat,
}

/// Filtering and wrapping policy of a texture.
#[derive(Clone, Copy, Debug, PartialEq, Eq, Structural)]
pub struct Sampler {
    pub mag_filter: Option<MagFilter>,
    pub min_filter: Option<MinFilter>,
    pub wrap_s: WrappingMode,
    pub wrap_t: WrappingMode,
}

/// A transform of texture coordinates. Offset, rotation and scale are
/// binary32 bit patterns.
#[derive(Clone, Copy, Debug, PartialEq, Eq)]
pub struct TextureTransform {
    pub offset: [u32; 2],
    pub rotation: u32,
    pub scale: [u32; 2],
    /// Overrides the UV set of the texture reference.
    pub tex_coord: Option<u32>,
}

/// An image with its sampler.
#[derive(Clone, Copy, Debug, PartialEq, Eq)]
pub struct Texture {
    pub sampler: Option<u32>,
    pub source: u32,
    pub transform: Option<TextureTransform>,
}

/// A reference from a material to a texture.
#[derive(Clone, Copy, Debug, PartialEq, Eq, Structural)]
pub struct TextureInfo {
    pub index: u32,
    pub tex_coord: u32,
}

/// A metallic-roughness material. Factors are binary32 bit patterns.
#[derive(Clone, Copy, Debug, PartialEq, Eq)]
pub struct Material {
    pub base_color_factor: [u32; 4],
    pub base_color_texture: Option<TextureInfo>,
    pub metallic_factor: u32,
    pub roughness_factor: u32,
    pub metallic_roughness_texture: Option<TextureInfo>,
}

/// The document graph: tables of entities that refer to each other by
/// index.
#[derive(Clone, Debug, PartialEq, Eq)]
pub struct Document {
    pub buffers: Vec<Buffer>,
    pub buffer_views: Vec<BufferView>,
    pub accessors: Vec<Accessor>,
    pub meshes: Vec<Mesh>,
    pub nodes: Vec<Node>,
    pub scenes: Vec<Scene>,
    pub materials: Vec<Material>,
    pub textures: Vec<Texture>,
    pub images: Vec<Image>,
    pub samplers: Vec<Sampler>,
    pub extensions_used: Vec<String>,
}

/// The mathematical content of a [`Document`].
pub ghost struct DocumentModel {
    pub buffers: Seq<BufferModel>,
    pub buffer_views: Seq<BufferView>,
    pub accessors: Seq<AccessorModel>,
    pub meshes: Seq<MeshModel>,
    pub nodes: Seq<NodeModel>,
    pub scenes: Seq<SceneModel>,
    pub materials: Seq<Material>,
    pub textures: Seq<Texture>,
    pub images: Seq<ImageModel>,
    pub samplers: Seq<Sampler>,
    pub extensions_used: Seq<Seq<char>>,
}

impl View for Document {
    type V = DocumentModel;

    open spec fn view(&self) -> DocumentModel {
        DocumentModel {
            buffers: views(self.buffers@),
            buffer_views: self.buffer_views@,
            accessors: views(self.accessors@),
            meshes: views(self.meshes@),
            nodes: views(self.nodes@),
            scenes: views(self.scenes@),
            materials: self.materials@,
            textures: self.textures@,
            images: views(self.images@),
            samplers: self.samplers@,
            extensions_used: views(self.extensions_used@),
        }
    }
}

/// Every index in `indices` is below `bound`.
pub open spec fn all_below(indices: Seq<u32>, bound: int) -> bool {
    forall|i: int| 0 <= i < indices.len() ==> indices[i] < bound
}

/// The index, if there is one, is below `bound`.
pub open spec fn below(index: Option<u32>, bound: int) -> bool {
    match index {
        Some(i) => i < bound,
        None => true,
    }
}

impl DocumentModel {
    /// The primitive refers only to accessors and materials of the document.
    pub open spec fn primitive_closed(self, p: PrimitiveModel) -> bool {
        &&& forall|i: int|
            0 <= i < p.attributes.len() ==> p.attributes[i].accessor < self.accessors.len()
        &&& below(p.indices, self.accessors.len() as int)
        &&& below(p.material, self.materials.len() as int)
    }

    /// Every buffer view lies inside its buffer, and the elements of every
    /// accessor, tightly packed, lie inside its buffer view.
    pub open spec fn spans_fit(self) -> bool {
        &&& forall|i: int|
            0 <= i < self.buffer_views.len() && (#[trigger] self.buffer_views[i]).buffer
                < self.buffers.len() ==> self.buffer_views[i].byte_offset
                + self.buffer_views[i].byte_length
                <= self.buffers[self.buffer_views[i].buffer as int].byte_length
        &&& forall|i: int|
            0 <= i < self.accessors.len() && (#[trigger] self.accessors[i]).buffer_view is Some
                && self.accessors[i].buffer_view->0 < self.buffer_views.len()
                ==> self.accessors[i].byte_offset + self.accessors[i].byte_len()
                <= self.buffer_views[self.accessors[i].buffer_view->0 as int].byte_length
    }

    /// Every reference from one entity to another names an entity that the
    /// document holds.
    pub open spec fn closed(self) -> bool {
        &&& forall|i: int|
            0 <= i < self.buffer_views.len() ==> self.buffer_views[i].buffer < self.buffers.len()
        &&& forall|i: int|
            0 <= i < self.accessors.len() ==> below(
                #[trigger] self.accessors[i].buffer_view,
                self.buffer_views.len() as int,
            )
        &&& forall|i: int, j: int|
            0 <= i < self.meshes.len() && 0 <= j < self.meshes[i].primitives.len()
                ==> self.primitive_closed(#[trigger] self.meshes[i].primitives[j])
        &&& forall|i: int|
            0 <= i < self.nodes.len() ==> below(
                #[trigger] self.nodes[i].mesh,
                self.meshes.len() as int,
            )
        &&& forall|i: int|
            0 <= i < self.nodes.len() ==> all_below(
                #[trigger] self.nodes[i].children,
                self.nodes.len() as int,
            )
        &&& forall|i: int|
            0 <= i < self.scenes.len() ==> all_below(
                #[trigger] self.scenes[i].nodes,
                self.nodes.len() as int,
            )
        &&& forall|i: int|
            0 <= i < self.materials.len() ==> (match #[trigger] self.materials[i].base_color_texture {
                Some(info) => info.index < self.textures.len(),
                None => true,
            })
        &&& forall|i: int|
            0 <= i < self.textures.len() ==> self.textures[i].source < self.images.len()
        &&& forall|i: int|
            0 <= i < self.textures.len() ==> below(
                #[trigger] self.textures[i].sampler,
                self.samplers.len() as int,
            )
        &&& forall|i: int|
            0 <= i < self.images.len() ==> below(
                #[trigger] self.images[i].buffer_view,
                self.buffer_views.len() as int,
            )
    }
}

} // verus!
