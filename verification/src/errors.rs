use crate::handle::TextureHandle;
use crate::resource::VertexAttribute;
use vstd::prelude::*;

verus! {

/// What the graphics backend reported when a call failed. The device hands it
/// on as it is.
#[derive(Clone, Copy, Debug, PartialEq, Eq, Structural, Hash)]
pub struct BackendError {
    pub code: u32,
}

/// Why an operation of the device failed.
#[derive(Debug, PartialEq, Eq)]
pub enum Error {
    /// A handle reaches nothing in its table.
    InvalidHandle,
    /// A resource was to be created where one lives already.
    DuplicatedHandle,
    /// A range reaches beyond what it indexes.
    OutOfBounds,
    /// A buffer created as immutable was to be updated.
    InvalidUpdateStaticResource,
    /// The program has no uniform of this name.
    UniformNotFound(Vec<u8>),
    /// The program has no sampler of this name.
    TextureNotFound(Vec<u8>),
    /// The program has no attribute of this name.
    AttributeNotFound(VertexAttribute),
    /// A draw call binds, under this name, a texture handle that reaches nothing.
    InvalidTexture(TextureHandle, Vec<u8>),
    /// A texture filled by the application was to be attached to a framebuffer.
    NotRenderTexture,
    /// The backend failed.
    Backend(BackendError),
}

/// An `Error` with each name as the sequence of its bytes.
pub ghost enum ErrorModel {
    InvalidHandle,
    DuplicatedHandle,
    OutOfBounds,
    InvalidUpdateStaticResource,
    UniformNotFound(Seq<u8>),
    TextureNotFound(Seq<u8>),
    AttributeNotFound(VertexAttribute),
    InvalidTexture(TextureHandle, Seq<u8>),
    NotRenderTexture,
    Backend(BackendError),
}

impl View for Error {
    type V = ErrorModel;

    open spec fn view(&self) -> ErrorModel {
        match self {
            Error::InvalidHandle => ErrorModel::InvalidHandle,
            Error::DuplicatedHandle => ErrorModel::DuplicatedHandle,
            Error::OutOfBounds => ErrorModel::OutOfBounds,
            Error::InvalidUpdateStaticResource => ErrorModel::InvalidUpdateStaticResource,
            Error::UniformNotFound(name) => ErrorModel::UniformNotFound(name@),
            Error::TextureNotFound(name) => ErrorModel::TextureNotFound(name@),
            Error::AttributeNotFound(attribute) => ErrorModel::AttributeNotFound(*attribute),
            Error::InvalidTexture(texture, name) => ErrorModel::InvalidTexture(*texture, name@),
            Error::NotRenderTexture => ErrorModel::NotRenderTexture,
            Error::Backend(error) => ErrorModel::Backend(*error),
        }
    }
}

} // verus!
