use crate::handle::FrameBufferHandle;
use vstd::prelude::*;

verus! {

/// How many attributes a layout can hold.
pub const MAX_ATTRIBUTES: usize = 12;

/// How often the contents of a buffer are expected to change.
#[derive(Clone, Copy, Debug, PartialEq, Eq, Structural, Hash)]
pub enum BufferHint {
    /// Filled once at creation and never changed.
    Immutable,
    /// Changed about once a frame.
    Stream,
    /// Changed now and then.
    Dynamic,
}

/// The width of one index of an index buffer.
#[derive(Clone, Copy, Debug, PartialEq, Eq, Structural, Hash)]
pub enum IndexFormat {
    U16,
    U32,
}

impl IndexFormat {
    /// Bytes per index.
    pub open spec fn spec_size(&self) -> int {
        match self {
            IndexFormat::U16 => 2,
            IndexFormat::U32 => 4,
        }
    }

    /// Bytes per index.
    pub fn size(&self) -> (n: u64)
        ensures
            n == self.spec_size(),
    {
        match self {
            IndexFormat::U16 => 2,
            IndexFormat::U32 => 4,
        }
    }
}

/// How vertices are assembled into shapes.
#[derive(Clone, Copy, Debug, PartialEq, Eq, Structural, Hash)]
pub enum Primitive {
    Points,
    Lines,
    LineStrip,
    Triangles,
    TriangleStrip,
}

/// The number type of one component of a vertex attribute.
#[derive(Clone, Copy, Debug, PartialEq, Eq, Structural, Hash)]
pub enum VertexFormat {
    Byte,
    UByte,
    Short,
    UShort,
    Float,
}

/// The names a vertex attribute can have.
#[derive(Clone, Copy, Debug, PartialEq, Eq, Structural, Hash)]
pub enum VertexAttribute {
    Position,
    Normal,
    Tangent,
    Bitangent,
    Color0,
    Color1,
    Indice,
    Weight,
    Texcoord0,
    Texcoord1,
    Texcoord2,
    Texcoord3,
}

/// One attribute as a vertex buffer stores it.
#[derive(Clone, Copy, Debug, PartialEq, Eq, Structural, Hash)]
pub struct VertexAttributeDesc {
    pub name: VertexAttribute,
    pub format: VertexFormat,
    pub size: u8,
    pub normalized: bool,
}

/// How the bytes of one vertex are laid out: the first `len` of `elements`,
/// each at its `offset`, in `stride` bytes.
#[derive(Clone, Copy, Debug, PartialEq, Eq, Hash)]
pub struct VertexLayout {
    pub stride: u8,
    pub len: u8,
    pub offset: [u8; 12],
    pub elements: [VertexAttributeDesc; 12],
}

/// The attributes a pipeline's program reads: the first `len` of `elements`,
/// each with its number of components.
#[derive(Clone, Copy, Debug, PartialEq, Eq, Hash)]
pub struct AttributeLayout {
    pub len: u8,
    pub elements: [(VertexAttribute, u8); 12],
}

impl AttributeLayout {
    /// The names of the attributes in use, in order.
    pub open spec fn names(&self) -> Seq<VertexAttribute> {
        Seq::new(self.spec_count(), |i: int| self.elements[i].0)
    }

    /// How many of `elements` are in use.
    pub open spec fn spec_count(&self) -> nat {
        if self.len as nat <= 12 {
            self.len as nat
        } else {
            12
        }
    }

    /// How many of `elements` are in use.
    pub fn count(&self) -> (n: usize)
        ensures
            n == self.spec_count(),
    {
        if self.len <= 12 {
            self.len as usize
        } else {
            12
        }
    }
}

/// What a vertex buffer is created with.
#[derive(Clone, Copy, Debug, PartialEq, Eq, Hash)]
pub struct VertexBufferSetup {
    pub hint: BufferHint,
    pub layout: VertexLayout,
    /// The number of vertices.
    pub num: u32,
}

impl VertexBufferSetup {
    /// The size of the buffer in bytes.
    pub open spec fn spec_len(&self) -> int {
        self.num * self.layout.stride
    }

    /// The size of the buffer in bytes.
    pub fn len(&self) -> (n: u64)
        ensures
            n == self.spec_len(),
    {
        assert(self.num * self.layout.stride <= 0xffff_ffff * 0xff) by (nonlinear_arith)
            requires
                self.num <= 0xffff_ffff,
                self.layout.stride <= 0xff,
        ;
        (self.num as u64) * (self.layout.stride as u64)
    }
}

/// What an index buffer is created with.
#[derive(Clone, Copy, Debug, PartialEq, Eq, Structural, Hash)]
pub struct IndexBufferSetup {
    pub hint: BufferHint,
    pub format: IndexFormat,
    /// The number of indices.
    pub num: u32,
}

impl IndexBufferSetup {
    /// The size of the buffer in bytes.
    pub open spec fn spec_len(&self) -> int {
        self.num * self.format.spec_size()
    }

    /// The size of the buffer in bytes.
    pub fn len(&self) -> (n: u64)
        ensures
            n == self.spec_len(),
    {
        let size = self.format.size();
        assert(self.num * size <= 0xffff_ffff * 4) by (nonlinear_arith)
            requires
                self.num <= 0xffff_ffff,
                size <= 4,
        ;
        (self.num as u64) * size
    }
}

#[derive(Clone, Copy, Debug, PartialEq, Eq, Structural, Hash)]
pub enum CullFace {
    Nothing,
    Front,
    Back,
}

#[derive(Clone, Copy, Debug, PartialEq, Eq, Structural, Hash)]
pub enum FrontFaceOrder {
    Clockwise,
    CounterClockwise,
}

#[derive(Clone, Copy, Debug, PartialEq, Eq, Structural, Hash)]
pub enum Comparison {
    Never,
    Less,
    LessOrEqual,
    Greater,
    GreaterOrEqual,
    Equal,
    NotEqual,
    Always,
}

#[derive(Clone, Copy, Debug, PartialEq, Eq, Structural, Hash)]
pub enum Equation {
    Add,
    Subtract,
    ReverseSubtract,
}

#[derive(Clone, Copy, Debug, PartialEq, Eq, Structural, Hash)]
pub enum BlendValue {
    SourceColor,
    SourceAlpha,
    DestinationColor,
    DestinationAlpha,
}

#[derive(Clone, Copy, Debug, PartialEq, Eq, Structural, Hash)]
pub enum BlendFactor {
    Zero,
    One,
    Value(BlendValue),
    OneMinusValue(BlendValue),
}

/// The fixed-function state a pipeline draws with. The two numbers of
/// `depth_write_offset` are the bit patterns of single-precision floats.
#[derive(Clone, Copy, Debug, PartialEq, Eq, Hash)]
pub struct RenderState {
    pub cull_face: CullFace,
    pub front_face_order: FrontFaceOrder,
    pub depth_test: Comparison,
    pub depth_write: bool,
    pub depth_write_offset: Option<(u32, u32)>,
    pub color_blend: Option<(Equation, BlendFactor, BlendFactor)>,
    pub color_write: (bool, bool, bool, bool),
}

/// What a pipeline is created with.
#[derive(Clone, Copy, Debug, PartialEq, Eq, Hash)]
pub struct PipelineStateSetup {
    pub layout: AttributeLayout,
    pub state: RenderState,
}

/// A colour; each channel is the bit pattern of a single-precision float.
#[derive(Clone, Copy, Debug, PartialEq, Eq, Structural, Hash)]
pub struct Color {
    pub r: u32,
    pub g: u32,
    pub b: u32,
    pub a: u32,
}

/// What a view is created with. `clear_depth` is the bit pattern of a
/// single-precision float.
#[derive(Clone, Copy, Debug, PartialEq, Eq, Hash)]
pub struct ViewStateSetup {
    /// Where the view draws to; the default backbuffer if `None`.
    pub framebuffer: Option<FrameBufferHandle>,
    pub clear_color: Option<Color>,
    pub clear_depth: Option<u32>,
    pub clear_stencil: Option<i32>,
    /// Position, and size if it is not that of the frame.
    pub viewport: ((u16, u16), Option<(u16, u16)>),
    /// Draw calls are realized in the order they were submitted.
    pub sequence: bool,
    /// Views of non-zero order are flushed first, the highest first.
    pub order: u32,
}

#[derive(Clone, Copy, Debug, PartialEq, Eq, Structural, Hash)]
pub enum TextureFormat {
    U8,
    U8U8,
    U8U8U8,
    U8U8U8U8,
    U5U6U5,
    U4U4U4U4,
    U5U5U5U1,
}

#[derive(Clone, Copy, Debug, PartialEq, Eq, Structural, Hash)]
pub enum TextureAddress {
    Repeat,
    Mirror,
    Clamp,
    MirrorClamp,
}

#[derive(Clone, Copy, Debug, PartialEq, Eq, Structural, Hash)]
pub enum TextureFilter {
    Nearest,
    Linear,
}

/// What a texture filled by the application is created with.
#[derive(Clone, Copy, Debug, PartialEq, Eq, Hash)]
pub struct TextureSetup {
    pub format: TextureFormat,
    pub address: TextureAddress,
    pub filter: TextureFilter,
    pub mipmap: bool,
    pub dimensions: (u32, u32),
}

#[derive(Clone, Copy, Debug, PartialEq, Eq, Structural, Hash)]
pub enum RenderTextureFormat {
    RGB8,
    RGBA4,
    RGBA8,
    Depth16,
    Depth24,
    Depth32,
    Depth24Stencil8,
}

/// What a texture that is drawn into is created with.
#[derive(Clone, Copy, Debug, PartialEq, Eq, Hash)]
pub struct RenderTextureSetup {
    pub format: RenderTextureFormat,
    pub dimensions: (u32, u32),
}

/// What a render buffer is created with.
#[derive(Clone, Copy, Debug, PartialEq, Eq, Hash)]
pub struct RenderBufferSetup {
    pub format: RenderTextureFormat,
    pub dimensions: (u32, u32),
}

/// A value bound to a uniform of a program. Every float is held as its bit
/// pattern; a matrix comes with the flag that asks for its transpose.
#[derive(Clone, Copy, Debug, PartialEq, Eq, Hash)]
pub enum UniformVariable {
    I32(i32),
    F32(u32),
    Vector2f([u32; 2]),
    Vector3f([u32; 3]),
    Vector4f([u32; 4]),
    Matrix2f([[u32; 2]; 2], bool),
    Matrix3f([[u32; 3]; 3], bool),
    Matrix4f([[u32; 4]; 4], bool),
}

/// The kinds of value a uniform can take.
#[derive(Clone, Copy, Debug, PartialEq, Eq, Structural, Hash)]
pub enum UniformVariableType {
    I32,
    F32,
    Vector2f,
    Vector3f,
    Vector4f,
    Matrix2f,
    Matrix3f,
    Matrix4f,
}

impl UniformVariable {
    /// The kind of this value.
    pub open spec fn spec_variable_type(&self) -> UniformVariableType {
        match self {
            UniformVariable::I32(_) => UniformVariableType::I32,
            UniformVariable::F32(_) => UniformVariableType::F32,
            UniformVariable::Vector2f(_) => UniformVariableType::Vector2f,
            UniformVariable::Vector3f(_) => UniformVariableType::Vector3f,
            UniformVariable::Vector4f(_) => UniformVariableType::Vector4f,
            UniformVariable::Matrix2f(_, _) => UniformVariableType::Matrix2f,
            UniformVariable::Matrix3f(_, _) => UniformVariableType::Matrix3f,
            UniformVariable::Matrix4f(_, _) => UniformVariableType::Matrix4f,
        }
    }

    /// The kind of this value.
    pub fn variable_type(&self) -> (kind: UniformVariableType)
        ensures
            kind == self.spec_variable_type(),
    {
        match self {
            UniformVariable::I32(_) => UniformVariableType::I32,
            UniformVariable::F32(_) => UniformVariableType::F32,
            UniformVariable::Vector2f(_) => UniformVariableType::Vector2f,
            UniformVariable::Vector3f(_) => UniformVariableType::Vector3f,
            UniformVariable::Vector4f(_) => UniformVariableType::Vector4f,
            UniformVariable::Matrix2f(_, _) => UniformVariableType::Matrix2f,
            UniformVariable::Matrix3f(_, _) => UniformVariableType::Matrix3f,
            UniformVariable::Matrix4f(_, _) => UniformVariableType::Matrix4f,
        }
    }
}

} // verus!
