use crate::resource::{
    AttributeLayout, BlendFactor, BufferHint, Color, Comparison, CullFace, Equation,
    FrontFaceOrder, IndexFormat, Primitive, RenderTextureFormat, TextureAddress, TextureFilter,
    TextureFormat, UniformVariable, VertexAttribute, VertexLayout,
};
use vstd::prelude::*;

verus! {

/// The two kinds of buffer the backend keeps.
#[derive(Clone, Copy, Debug, PartialEq, Eq, Structural, Hash)]
pub enum BufferKind {
    Vertex,
    Index,
}

/// The binding target of vertex buffers, as the backend numbers it.
pub const ARRAY_BUFFER: u32 = 0x8892;

/// The first colour attachment of a framebuffer, as the backend numbers it;
/// the others follow it.
pub const COLOR_ATTACHMENT0: u32 = 0x8CE0;

/// The depth attachment of a framebuffer, as the backend numbers it.
pub const DEPTH_ATTACHMENT: u32 = 0x8D00;

/// The attachment of a framebuffer for depth and stencil together, as the
/// backend numbers it.
pub const DEPTH_STENCIL_ATTACHMENT: u32 = 0x821A;

/// Reads `gl::ARRAY_BUFFER`. Not proved: that the constant has the value
/// that the OpenGL registry gives `GL_ARRAY_BUFFER`, 0x8892.
#[verifier::external_body]
pub(crate) fn gl_array_buffer() -> (target: u32)
    ensures
        target == ARRAY_BUFFER,
{
    gl::ARRAY_BUFFER
}

/// Reads `gl::COLOR_ATTACHMENT0`. Not proved: that the constant has the
/// value that the OpenGL registry gives `GL_COLOR_ATTACHMENT0`, 0x8CE0.
#[verifier::external_body]
pub(crate) fn gl_color_attachment0() -> (location: u32)
    ensures
        location == COLOR_ATTACHMENT0,
{
    gl::COLOR_ATTACHMENT0
}

/// Reads `gl::DEPTH_ATTACHMENT`. Not proved: that the constant has the
/// value that the OpenGL registry gives `GL_DEPTH_ATTACHMENT`, 0x8D00.
#[verifier::external_body]
pub(crate) fn gl_depth_attachment() -> (location: u32)
    ensures
        location == DEPTH_ATTACHMENT,
{
    gl::DEPTH_ATTACHMENT
}

/// Reads `gl::DEPTH_STENCIL_ATTACHMENT`. Not proved: that the constant has
/// the value that the OpenGL registry gives `GL_DEPTH_STENCIL_ATTACHMENT`,
/// 0x821A.
#[verifier::external_body]
pub(crate) fn gl_depth_stencil_attachment() -> (location: u32)
    ensures
        location == DEPTH_STENCIL_ATTACHMENT,
{
    gl::DEPTH_STENCIL_ATTACHMENT
}

/// One call into the graphics backend, with what is handed to it. The device
/// makes none of them itself: it says which are to be made, in which order.
/// Bytes that fill a buffer or a texture, and the sources of a program,
/// travel beside the call.
#[derive(Clone, Copy, Debug, PartialEq, Eq, Hash)]
#[allow(inconsistent_fields)]
pub enum BackendCall {
    /// Make framebuffer `id` the target (0 is the default backbuffer), and,
    /// if `check` is set, make sure it is complete.
    BindFramebuffer { id: u32, check: bool },
    /// Clear the channels that are given a value.
    Clear { color: Option<Color>, depth: Option<u32>, stencil: Option<i32> },
    SetViewport { position: (u16, u16), size: (u32, u32) },
    BindProgram { id: u32 },
    SetCullFace(CullFace),
    SetFrontFaceOrder(FrontFaceOrder),
    SetDepthTest(Comparison),
    SetDepthWrite { enable: bool, offset: Option<(u32, u32)> },
    SetColorBlend(Option<(Equation, BlendFactor, BlendFactor)>),
    SetColorWrite(bool, bool, bool, bool),
    /// Answers with the location of the attribute in the program, or -1.
    GetAttributeLocation { program: u32, attribute: VertexAttribute },
    BindUniform { location: i32, variable: UniformVariable },
    BindTexture { slot: u32, id: u32 },
    /// Bind the buffer to the target of this number.
    BindBuffer { target: u32, id: u32 },
    BindAttributeLayout { attributes: AttributeLayout, layout: VertexLayout },
    DrawElements { primitive: Primitive, len: u32, format: IndexFormat, from: u32 },
    DrawArrays { primitive: Primitive, from: u32, len: u32 },
    /// Ask the backend whether an earlier call left an error behind.
    Check,
    /// Answers with the new buffer. `filled` says that bytes come with the call.
    CreateBuffer { kind: BufferKind, hint: BufferHint, size: u64, filled: bool },
    /// Overwrite `size` bytes of the buffer from `offset` on.
    UpdateBuffer { id: u32, kind: BufferKind, offset: u64, size: u64 },
    DeleteBuffer { id: u32 },
    /// Answers with the new render buffer.
    CreateRenderBuffer { format: RenderTextureFormat, dimensions: (u32, u32) },
    DeleteRenderBuffer { id: u32 },
    /// Answers with the new framebuffer.
    CreateFramebuffer,
    DeleteFramebuffer { id: u32 },
    /// Attach the texture to the framebuffer that is the target, at the
    /// attachment of this number.
    BindFramebufferWithTexture { location: u32, id: u32 },
    /// Attach the render buffer to the framebuffer that is the target, at
    /// the attachment of this number.
    BindFramebufferWithRenderbuffer { location: u32, id: u32 },
    /// Answers with the new texture, which is filled with the bytes that
    /// come with the call.
    CreateTexture {
        format: TextureFormat,
        address: TextureAddress,
        filter: TextureFilter,
        mipmap: bool,
        dimensions: (u32, u32),
    },
    /// Answers with a new, empty texture to draw into; it repeats, is
    /// filtered linearly and has no mipmaps.
    CreateRenderTexture { format: RenderTextureFormat, dimensions: (u32, u32) },
    DeleteTexture { id: u32 },
    /// Answers with the new program, built from the two sources that come
    /// with the call.
    CreateProgram,
    DeleteProgram { id: u32 },
}

} // verus!
