use crate::backend::{
    gl_color_attachment0, gl_depth_attachment, gl_depth_stencil_attachment, BackendCall, BufferKind,
    COLOR_ATTACHMENT0, DEPTH_ATTACHMENT, DEPTH_STENCIL_ATTACHMENT,
};
use crate::errors::{BackendError, Error};
use crate::frame::{TexturesPtr, UniformsPtr};
use crate::handle::{
    FrameBufferHandle, IndexBufferHandle, PipelineStateHandle, RenderBufferHandle, TextureHandle,
    VertexBufferHandle, ViewStateHandle,
};
use crate::resource::{
    BufferHint, IndexBufferSetup, PipelineStateSetup, Primitive, RenderBufferSetup,
    RenderTextureFormat, RenderTextureSetup, TextureSetup, UniformVariable, VertexBufferSetup,
    ViewStateSetup,
};
use crate::named::{lemma_named_updated, named_models, named_updated, names_distinct, set_named};
use crate::sort::Ranked;
use crate::table::{
    slot_occupied, slots_changed_at, slots_filled, slots_removed, slots_set, DataVec,
};
use vstd::prelude::*;
use vstd::string::StringSliceAdditionalSpecFns;

verus! {

/// A vertex buffer of the backend, with what it was created with.
#[derive(Clone, Copy, Debug)]
pub struct VertexBufferObject {
    pub id: u32,
    pub setup: VertexBufferSetup,
}

/// An index buffer of the backend, with what it was created with.
#[derive(Clone, Copy, Debug)]
pub struct IndexBufferObject {
    pub id: u32,
    pub setup: IndexBufferSetup,
}

/// A program of the backend, with what it was created with and the values
/// last given to its uniforms by name.
#[derive(Debug)]
pub struct PipelineStateObject {
    pub id: u32,
    pub setup: PipelineStateSetup,
    pub uniforms: Vec<(Vec<u8>, UniformVariable)>,
}

/// A view: what it was created with, and the draw calls submitted to it
/// since the frame began.
#[derive(Debug)]
pub struct ViewStateObject {
    pub drawcalls: Vec<DrawCall>,
    pub setup: ViewStateSetup,
}

/// What either kind of texture was created with.
#[derive(Clone, Copy, Debug)]
pub enum GenericTextureSetup {
    Normal(TextureSetup),
    Render(RenderTextureSetup),
}

/// A texture of the backend, with what it was created with.
#[derive(Clone, Copy, Debug)]
pub struct TextureObject {
    pub id: u32,
    pub setup: GenericTextureSetup,
}

/// A render buffer of the backend, with what it was created with.
#[derive(Clone, Copy, Debug)]
pub struct RenderBufferObject {
    pub id: u32,
    pub setup: RenderBufferSetup,
}

/// A framebuffer of the backend.
#[derive(Clone, Copy, Debug)]
pub struct FrameBufferObject {
    pub id: u32,
}

/// A request to draw, kept until the frame is flushed.
#[derive(Clone, Copy, Debug, PartialEq, Eq)]
pub struct DrawCall {
    pub priority: u64,
    pub view: ViewStateHandle,
    pub pipeline: PipelineStateHandle,
    pub uniforms: UniformsPtr,
    pub textures: TexturesPtr,
    pub vb: VertexBufferHandle,
    pub ib: Option<IndexBufferHandle>,
    pub primitive: Primitive,
    pub from: u32,
    pub len: u32,
}

impl Ranked for DrawCall {
    open spec fn rank(&self) -> u64 {
        self.priority
    }

    fn get_rank(&self) -> (r: u64) {
        self.priority
    }
}

/// The number of the attachment that a texture or render buffer of this
/// format goes to: for a colour format that of the colour attachment
/// numbered `slot`, if there is such a number.
pub open spec fn attachment_of(format: RenderTextureFormat, slot: u32) -> Option<u32> {
    match format {
        RenderTextureFormat::RGB8 | RenderTextureFormat::RGBA4 | RenderTextureFormat::RGBA8 =>
            if COLOR_ATTACHMENT0 + slot <= u32::MAX {
                Some((COLOR_ATTACHMENT0 + slot) as u32)
            } else {
                None
            },
        RenderTextureFormat::Depth16 | RenderTextureFormat::Depth24 | RenderTextureFormat::Depth32 =>
            Some(DEPTH_ATTACHMENT),
        RenderTextureFormat::Depth24Stencil8 => Some(DEPTH_STENCIL_ATTACHMENT),
    }
}

/// The tables of every kind of resource, the draw calls that wait in the
/// views, and the pipeline that the backend has bound.
///
/// The device makes no call into the backend. An operation that needs the
/// backend returns the calls to make; the caller makes them in order, stops
/// at the first that fails, and hands the backend's answer back where the
/// device asks for it.
pub struct Device {
    pub vertex_buffers: DataVec<VertexBufferObject>,
    pub index_buffers: DataVec<IndexBufferObject>,
    pub pipelines: DataVec<PipelineStateObject>,
    pub views: DataVec<ViewStateObject>,
    pub textures: DataVec<TextureObject>,
    pub render_buffers: DataVec<RenderBufferObject>,
    pub framebuffers: DataVec<FrameBufferObject>,
    pub active_pipeline: Option<PipelineStateHandle>,
}

impl Device {
    /// The draw calls that wait in the view `handle` reaches.
    pub open spec fn queue(&self, handle: ViewStateHandle) -> Option<Seq<DrawCall>> {
        match self.views.lookup(handle.0) {
            Some(view) => Some(view.drawcalls@),
            None => None,
        }
    }

    /// The values last given to the uniforms of the pipeline `handle` reaches.
    pub open spec fn uniforms(&self, handle: PipelineStateHandle) -> Option<
        Seq<(Seq<u8>, UniformVariable)>,
    > {
        match self.pipelines.lookup(handle.0) {
            Some(pipeline) => Some(named_models(pipeline.uniforms@)),
            None => None,
        }
    }

    /// A device without resources.
    pub fn new() -> (device: Self)
        ensures
            device.vertex_buffers@.len() == 0,
            device.index_buffers@.len() == 0,
            device.pipelines@.len() == 0,
            device.views@.len() == 0,
            device.textures@.len() == 0,
            device.render_buffers@.len() == 0,
            device.framebuffers@.len() == 0,
            device.active_pipeline is None,
    {
        Device {
            vertex_buffers: DataVec::new(),
            index_buffers: DataVec::new(),
            pipelines: DataVec::new(),
            views: DataVec::new(),
            textures: DataVec::new(),
            render_buffers: DataVec::new(),
            framebuffers: DataVec::new(),
            active_pipeline: None,
        }
    }

    /// Begins a frame: empties the queue of every view and forgets which
    /// pipeline is bound. The call returned makes the default backbuffer the
    /// target.
    pub fn run_one_frame(&mut self) -> (call: BackendCall)
        ensures
            call == (BackendCall::BindFramebuffer { id: 0, check: false }),
            final(self).active_pipeline is None,
            final(self).views@.len() == old(self).views@.len(),
            forall|i: int|
                0 <= i < old(self).views@.len() ==> match (#[trigger] old(self).views@[i]) {
                    Some(before) => final(self).views@[i] is Some && final(self).views@[i]->0.version
                        == before.version && final(self).views@[i]->0.value.setup
                        == before.value.setup && final(self).views@[i]->0.value.drawcalls@.len()
                        == 0,
                    None => final(self).views@[i] is None,
                },
            *final(self) == (Device {
                views: final(self).views,
                active_pipeline: final(self).active_pipeline,
                ..*old(self)
            }),
    {
        let n = self.views.buf.len();
        let mut i: usize = 0;
        while i < n
            invariant
                i <= n,
                n == old(self).views@.len(),
                self.views@.len() == n,
                forall|k: int|
                    0 <= k < i ==> match (#[trigger] old(self).views@[k]) {
                        Some(before) => self.views@[k] is Some && self.views@[k]->0.version
                            == before.version && self.views@[k]->0.value.setup == before.value.setup
                            && self.views@[k]->0.value.drawcalls@.len() == 0,
                        None => self.views@[k] is None,
                    },
                forall|k: int| i <= k < n ==> self.views@[k] == old(self).views@[k],
                *self == (Device { views: self.views, ..*old(self) }),
            decreases n - i,
        {
            match &mut self.views.buf[i] {
                Some(entry) => {
                    entry.value.drawcalls.clear();
                },
                None => {},
            }
            i += 1;
        }
        self.active_pipeline = None;
        BackendCall::BindFramebuffer { id: 0, check: false }
    }

    /// Queues a draw call in `view`. Fails, and changes nothing, if `view`
    /// reaches no view.
    pub fn submit(
        &mut self,
        priority: u64,
        view: ViewStateHandle,
        pipeline: PipelineStateHandle,
        textures: TexturesPtr,
        uniforms: UniformsPtr,
        vb: VertexBufferHandle,
        ib: Option<IndexBufferHandle>,
        primitive: Primitive,
        from: u32,
        len: u32,
    ) -> (r: Result<(), Error>)
        ensures
            match old(self).views.lookup(view.0) {
                None => r == Err::<(), Error>(Error::InvalidHandle) && *final(self) == *old(self),
                Some(before) => {
                    &&& r is Ok
                    &&& *final(self) == (Device { views: final(self).views, ..*old(self) })
                    &&& final(self).views@.len() == old(self).views@.len()
                    &&& forall|i: int|
                        0 <= i < old(self).views@.len() && i != view.0.index ==> final(self).views@[i] == old(self).views@[i]
                    &&& final(self).views.lookup(view.0) is Some
                    &&& final(self).views.lookup(view.0)->0.setup == before.setup
                    &&& final(self).queue(view) == Some(
                        before.drawcalls@.push(
                            DrawCall {
                                priority,
                                view,
                                pipeline,
                                uniforms,
                                textures,
                                vb,
                                ib,
                                primitive,
                                from,
                                len,
                            },
                        ),
                    )
                },
            },
    {
        match self.views.get_mut(view.0) {
            Some(vo) => {
                vo.drawcalls.push(
                    DrawCall {
                        priority,
                        view,
                        pipeline,
                        uniforms,
                        textures,
                        vb,
                        ib,
                        primitive,
                        from,
                        len,
                    },
                );
                Ok(())
            },
            None => Err(Error::InvalidHandle),
        }
    }
}

impl Device {
    /// Asks for a vertex buffer to be created. Fails if slot `handle` is
    /// taken. The call returned creates the buffer; its answer goes to
    /// `finish_create_vertex_buffer`.
    pub fn create_vertex_buffer(
        &self,
        handle: VertexBufferHandle,
        setup: VertexBufferSetup,
        data: Option<&[u8]>,
    ) -> (r: Result<BackendCall, Error>)
        ensures
            r == if slot_occupied(self.vertex_buffers@, handle.0.index) {
                Err::<BackendCall, Error>(Error::DuplicatedHandle)
            } else {
                Ok::<BackendCall, Error>(
                    BackendCall::CreateBuffer {
                        kind: BufferKind::Vertex,
                        hint: setup.hint,
                        size: setup.spec_len() as u64,
                        filled: data is Some,
                    },
                )
            },
    {
        if self.vertex_buffers.occupied(handle.0.index) {
            return Err(Error::DuplicatedHandle);
        }
        Ok(
            BackendCall::CreateBuffer {
                kind: BufferKind::Vertex,
                hint: setup.hint,
                size: setup.len(),
                filled: data.is_some(),
            },
        )
    }

    /// Takes the backend's answer to the creation of a vertex buffer. If the
    /// backend failed, or slot `handle` is taken, nothing changes. Else the
    /// buffer is stored, and the call returned asks the backend whether all
    /// went well; the buffer stays stored if it did not.
    pub fn finish_create_vertex_buffer(
        &mut self,
        handle: VertexBufferHandle,
        setup: VertexBufferSetup,
        created: Result<u32, BackendError>,
    ) -> (r: Result<BackendCall, Error>)
        ensures
            match created {
                Err(error) => r == Err::<BackendCall, Error>(Error::Backend(error)) && *final(self)
                    == *old(self),
                Ok(id) => if slot_occupied(old(self).vertex_buffers@, handle.0.index) {
                    r == Err::<BackendCall, Error>(Error::DuplicatedHandle) && *final(self) == *old(
                        self,
                    )
                } else {
                    &&& r == Ok::<BackendCall, Error>(BackendCall::Check)
                    &&& final(self).vertex_buffers@ == slots_set(
                        old(self).vertex_buffers@,
                        handle.0,
                        VertexBufferObject { id, setup },
                    )
                    &&& *final(self) == (Device {
                        vertex_buffers: final(self).vertex_buffers,
                        ..*old(self)
                    })
                },
            },
    {
        match created {
            Err(error) => Err(Error::Backend(error)),
            Ok(id) => {
                if self.vertex_buffers.occupied(handle.0.index) {
                    return Err(Error::DuplicatedHandle);
                }
                self.vertex_buffers.set(handle.0, VertexBufferObject { id, setup });
                Ok(BackendCall::Check)
            },
        }
    }

    /// Asks for `data` to be written to a vertex buffer from byte `offset`
    /// on. Fails if `handle` reaches nothing; else if the bytes do not fit
    /// in the buffer; else if the buffer was created as immutable.
    pub fn update_vertex_buffer(&self, handle: VertexBufferHandle, offset: usize, data: &[u8]) -> (r:
        Result<BackendCall, Error>)
        ensures
            r == match self.vertex_buffers.lookup(handle.0) {
                None => Err::<BackendCall, Error>(Error::InvalidHandle),
                Some(vbo) => if offset + data@.len() > vbo.setup.spec_len() {
                    Err(Error::OutOfBounds)
                } else if vbo.setup.hint == BufferHint::Immutable {
                    Err(Error::InvalidUpdateStaticResource)
                } else {
                    Ok(
                        BackendCall::UpdateBuffer {
                            id: vbo.id,
                            kind: BufferKind::Vertex,
                            offset: offset as u64,
                            size: data@.len() as u64,
                        },
                    )
                },
            },
    {
        match self.vertex_buffers.get(handle.0) {
            None => Err(Error::InvalidHandle),
            Some(vbo) => {
                if data.len() as u128 + offset as u128 > vbo.setup.len() as u128 {
                    return Err(Error::OutOfBounds);
                }
                match vbo.setup.hint {
                    BufferHint::Immutable => Err(Error::InvalidUpdateStaticResource),
                    _ => Ok(
                        BackendCall::UpdateBuffer {
                            id: vbo.id,
                            kind: BufferKind::Vertex,
                            offset: offset as u64,
                            size: data.len() as u64,
                        },
                    ),
                }
            },
        }
    }

    /// Frees the slot of a vertex buffer. The call returned deletes the
    /// buffer. Fails, and changes nothing, if `handle` reaches nothing.
    pub fn delete_vertex_buffer(&mut self, handle: VertexBufferHandle) -> (r: Result<
        BackendCall,
        Error,
    >)
        ensures
            match old(self).vertex_buffers.lookup(handle.0) {
                None => r == Err::<BackendCall, Error>(Error::InvalidHandle) && *final(self)
                    == *old(self),
                Some(vbo) => {
                    &&& r == Ok::<BackendCall, Error>(BackendCall::DeleteBuffer { id: vbo.id })
                    &&& final(self).vertex_buffers@ == slots_removed(
                        old(self).vertex_buffers@,
                        handle.0,
                    )
                    &&& *final(self) == (Device {
                        vertex_buffers: final(self).vertex_buffers,
                        ..*old(self)
                    })
                },
            },
    {
        match self.vertex_buffers.remove(handle.0) {
            Some(vbo) => Ok(BackendCall::DeleteBuffer { id: vbo.id }),
            None => Err(Error::InvalidHandle),
        }
    }

    /// Asks for an index buffer to be created. Fails if slot `handle` is
    /// taken. The call returned creates the buffer; its answer goes to
    /// `finish_create_index_buffer`.
    pub fn create_index_buffer(
        &self,
        handle: IndexBufferHandle,
        setup: IndexBufferSetup,
        data: Option<&[u8]>,
    ) -> (r: Result<BackendCall, Error>)
        ensures
            r == if slot_occupied(self.index_buffers@, handle.0.index) {
                Err::<BackendCall, Error>(Error::DuplicatedHandle)
            } else {
                Ok::<BackendCall, Error>(
                    BackendCall::CreateBuffer {
                        kind: BufferKind::Index,
                        hint: setup.hint,
                        size: setup.spec_len() as u64,
                        filled: data is Some,
                    },
                )
            },
    {
        if self.index_buffers.occupied(handle.0.index) {
            return Err(Error::DuplicatedHandle);
        }
        Ok(
            BackendCall::CreateBuffer {
                kind: BufferKind::Index,
                hint: setup.hint,
                size: setup.len(),
                filled: data.is_some(),
            },
        )
    }

    /// Takes the backend's answer to the creation of an index buffer. If the
    /// backend failed, or slot `handle` is taken, nothing changes. Else the
    /// buffer is stored, and the call returned asks the backend whether all
    /// went well; the buffer stays stored if it did not.
    pub fn finish_create_index_buffer(
        &mut self,
        handle: IndexBufferHandle,
        setup: IndexBufferSetup,
        created: Result<u32, BackendError>,
    ) -> (r: Result<BackendCall, Error>)
        ensures
            match created {
                Err(error) => r == Err::<BackendCall, Error>(Error::Backend(error)) && *final(self)
                    == *old(self),
                Ok(id) => if slot_occupied(old(self).index_buffers@, handle.0.index) {
                    r == Err::<BackendCall, Error>(Error::DuplicatedHandle) && *final(self) == *old(
                        self,
                    )
                } else {
                    &&& r == Ok::<BackendCall, Error>(BackendCall::Check)
                    &&& final(self).index_buffers@ == slots_set(
                        old(self).index_buffers@,
                        handle.0,
                        IndexBufferObject { id, setup },
                    )
                    &&& *final(self) == (Device {
                        index_buffers: final(self).index_buffers,
                        ..*old(self)
                    })
                },
            },
    {
        match created {
            Err(error) => Err(Error::Backend(error)),
            Ok(id) => {
                if self.index_buffers.occupied(handle.0.index) {
                    return Err(Error::DuplicatedHandle);
                }
                self.index_buffers.set(handle.0, IndexBufferObject { id, setup });
                Ok(BackendCall::Check)
            },
        }
    }

    /// Asks for `data` to be written to an index buffer from byte `offset`
    /// on. Fails if `handle` reaches nothing; else if the bytes do not fit
    /// in the buffer; else if the buffer was created as immutable.
    pub fn update_index_buffer(&self, handle: IndexBufferHandle, offset: usize, data: &[u8]) -> (r:
        Result<BackendCall, Error>)
        ensures
            r == match self.index_buffers.lookup(handle.0) {
                None => Err::<BackendCall, Error>(Error::InvalidHandle),
                Some(ibo) => if offset + data@.len() > ibo.setup.spec_len() {
                    Err(Error::OutOfBounds)
                } else if ibo.setup.hint == BufferHint::Immutable {
                    Err(Error::InvalidUpdateStaticResource)
                } else {
                    Ok(
                        BackendCall::UpdateBuffer {
                            id: ibo.id,
                            kind: BufferKind::Index,
                            offset: offset as u64,
                            size: data@.len() as u64,
                        },
                    )
                },
            },
    {
        match self.index_buffers.get(handle.0) {
            None => Err(Error::InvalidHandle),
            Some(ibo) => {
                if data.len() as u128 + offset as u128 > ibo.setup.len() as u128 {
                    return Err(Error::OutOfBounds);
                }
                match ibo.setup.hint {
                    BufferHint::Immutable => Err(Error::InvalidUpdateStaticResource),
                    _ => Ok(
                        BackendCall::UpdateBuffer {
                            id: ibo.id,
                            kind: BufferKind::Index,
                            offset: offset as u64,
                            size: data.len() as u64,
                        },
                    ),
                }
            },
        }
    }

    /// Frees the slot of an index buffer. The call returned deletes the
    /// buffer. Fails, and changes nothing, if `handle` reaches nothing.
    pub fn delete_index_buffer(&mut self, handle: IndexBufferHandle) -> (r: Result<
        BackendCall,
        Error,
    >)
        ensures
            match old(self).index_buffers.lookup(handle.0) {
                None => r == Err::<BackendCall, Error>(Error::InvalidHandle) && *final(self)
                    == *old(self),
                Some(ibo) => {
                    &&& r == Ok::<BackendCall, Error>(BackendCall::DeleteBuffer { id: ibo.id })
                    &&& final(self).index_buffers@ == slots_removed(
                        old(self).index_buffers@,
                        handle.0,
                    )
                    &&& *final(self) == (Device {
                        index_buffers: final(self).index_buffers,
                        ..*old(self)
                    })
                },
            },
    {
        match self.index_buffers.remove(handle.0) {
            Some(ibo) => Ok(BackendCall::DeleteBuffer { id: ibo.id }),
            None => Err(Error::InvalidHandle),
        }
    }
}

/// The number of the attachment that a texture or render buffer of this
/// format goes to: for a colour format that of the colour attachment
/// numbered `slot`, if there is such a number.
pub fn attachment_for(format: RenderTextureFormat, slot: u32) -> (location: Option<u32>)
    ensures
        location == attachment_of(format, slot),
{
    match format {
        RenderTextureFormat::RGB8 | RenderTextureFormat::RGBA4 | RenderTextureFormat::RGBA8 =>
            gl_color_attachment0().checked_add(slot),
        RenderTextureFormat::Depth16 | RenderTextureFormat::Depth24 | RenderTextureFormat::Depth32 =>
            Some(gl_depth_attachment()),
        RenderTextureFormat::Depth24Stencil8 => Some(gl_depth_stencil_attachment()),
    }
}

impl Device {
    /// Asks for a render buffer to be created. Fails if slot `handle` is
    /// taken. The call returned creates the render buffer; its answer goes
    /// to `finish_create_render_buffer`.
    pub fn create_render_buffer(&self, handle: RenderBufferHandle, setup: RenderBufferSetup) -> (r:
        Result<BackendCall, Error>)
        ensures
            r == if slot_occupied(self.render_buffers@, handle.0.index) {
                Err::<BackendCall, Error>(Error::DuplicatedHandle)
            } else {
                Ok::<BackendCall, Error>(
                    BackendCall::CreateRenderBuffer {
                        format: setup.format,
                        dimensions: setup.dimensions,
                    },
                )
            },
    {
        if self.render_buffers.occupied(handle.0.index) {
            return Err(Error::DuplicatedHandle);
        }
        Ok(BackendCall::CreateRenderBuffer { format: setup.format, dimensions: setup.dimensions })
    }

    /// Takes the backend's answer to the creation of a render buffer, and
    /// stores the render buffer. If the backend failed, or slot `handle` is
    /// taken, nothing changes.
    pub fn finish_create_render_buffer(
        &mut self,
        handle: RenderBufferHandle,
        setup: RenderBufferSetup,
        created: Result<u32, BackendError>,
    ) -> (r: Result<(), Error>)
        ensures
            match created {
                Err(error) => r == Err::<(), Error>(Error::Backend(error)) && *final(self) == *old(
                    self,
                ),
                Ok(id) => if slot_occupied(old(self).render_buffers@, handle.0.index) {
                    r == Err::<(), Error>(Error::DuplicatedHandle) && *final(self) == *old(self)
                } else {
                    &&& r is Ok
                    &&& final(self).render_buffers@ == slots_set(
                        old(self).render_buffers@,
                        handle.0,
                        RenderBufferObject { id, setup },
                    )
                    &&& *final(self) == (Device {
                        render_buffers: final(self).render_buffers,
                        ..*old(self)
                    })
                },
            },
    {
        match created {
            Err(error) => Err(Error::Backend(error)),
            Ok(id) => {
                if self.render_buffers.occupied(handle.0.index) {
                    return Err(Error::DuplicatedHandle);
                }
                self.render_buffers.set(handle.0, RenderBufferObject { id, setup });
                Ok(())
            },
        }
    }

    /// Frees the slot of a render buffer. The call returned deletes the
    /// render buffer. Fails, and changes nothing, if `handle` reaches nothing.
    pub fn delete_render_buffer(&mut self, handle: RenderBufferHandle) -> (r: Result<
        BackendCall,
        Error,
    >)
        ensures
            match old(self).render_buffers.lookup(handle.0) {
                None => r == Err::<BackendCall, Error>(Error::InvalidHandle) && *final(self)
                    == *old(self),
                Some(rbo) => {
                    &&& r == Ok::<BackendCall, Error>(
                        BackendCall::DeleteRenderBuffer { id: rbo.id },
                    )
                    &&& final(self).render_buffers@ == slots_removed(
                        old(self).render_buffers@,
                        handle.0,
                    )
                    &&& *final(self) == (Device {
                        render_buffers: final(self).render_buffers,
                        ..*old(self)
                    })
                },
            },
    {
        match self.render_buffers.remove(handle.0) {
            Some(rbo) => Ok(BackendCall::DeleteRenderBuffer { id: rbo.id }),
            None => Err(Error::InvalidHandle),
        }
    }

    /// Asks for a framebuffer to be created. Fails if slot `handle` is
    /// taken. The call returned creates the framebuffer; its answer goes to
    /// `finish_create_framebuffer`.
    pub fn create_framebuffer(&self, handle: FrameBufferHandle) -> (r: Result<BackendCall, Error>)
        ensures
            r == if slot_occupied(self.framebuffers@, handle.0.index) {
                Err::<BackendCall, Error>(Error::DuplicatedHandle)
            } else {
                Ok::<BackendCall, Error>(BackendCall::CreateFramebuffer)
            },
    {
        if self.framebuffers.occupied(handle.0.index) {
            return Err(Error::DuplicatedHandle);
        }
        Ok(BackendCall::CreateFramebuffer)
    }

    /// Takes the backend's answer to the creation of a framebuffer, and
    /// stores the framebuffer. If the backend failed, or slot `handle` is
    /// taken, nothing changes.
    pub fn finish_create_framebuffer(
        &mut self,
        handle: FrameBufferHandle,
        created: Result<u32, BackendError>,
    ) -> (r: Result<(), Error>)
        ensures
            match created {
                Err(error) => r == Err::<(), Error>(Error::Backend(error)) && *final(self) == *old(
                    self,
                ),
                Ok(id) => if slot_occupied(old(self).framebuffers@, handle.0.index) {
                    r == Err::<(), Error>(Error::DuplicatedHandle) && *final(self) == *old(self)
                } else {
                    &&& r is Ok
                    &&& final(self).framebuffers@ == slots_set(
                        old(self).framebuffers@,
                        handle.0,
                        FrameBufferObject { id },
                    )
                    &&& *final(self) == (Device {
                        framebuffers: final(self).framebuffers,
                        ..*old(self)
                    })
                },
            },
    {
        match created {
            Err(error) => Err(Error::Backend(error)),
            Ok(id) => {
                if self.framebuffers.occupied(handle.0.index) {
                    return Err(Error::DuplicatedHandle);
                }
                self.framebuffers.set(handle.0, FrameBufferObject { id });
                Ok(())
            },
        }
    }

    /// Asks for a texture to be attached to a framebuffer. Fails if `handle`
    /// or `texture` reaches nothing, if the texture is not one to draw into,
    /// or if it has a colour format and the backend has no number for colour
    /// attachment `slot`. Of the two calls returned the first makes the
    /// framebuffer the target, the second attaches the texture where its
    /// format belongs.
    pub fn update_framebuffer_with_texture(
        &self,
        handle: FrameBufferHandle,
        texture: TextureHandle,
        slot: u32,
    ) -> (r: Result<(BackendCall, BackendCall), Error>)
        ensures
            r == match self.framebuffers.lookup(handle.0) {
                None => Err::<(BackendCall, BackendCall), Error>(Error::InvalidHandle),
                Some(fbo) => match self.textures.lookup(texture.0) {
                    None => Err(Error::InvalidHandle),
                    Some(to) => match to.setup {
                        GenericTextureSetup::Render(setup) => match attachment_of(
                            setup.format,
                            slot,
                        ) {
                            Some(location) => Ok(
                                (
                                    BackendCall::BindFramebuffer { id: fbo.id, check: false },
                                    BackendCall::BindFramebufferWithTexture { location, id: to.id },
                                ),
                            ),
                            None => Err(Error::OutOfBounds),
                        },
                        GenericTextureSetup::Normal(_) => Err(Error::NotRenderTexture),
                    },
                },
            },
    {
        let fbo = match self.framebuffers.get(handle.0) {
            Some(fbo) => fbo,
            None => {
                return Err(Error::InvalidHandle);
            },
        };
        let to = match self.textures.get(texture.0) {
            Some(to) => to,
            None => {
                return Err(Error::InvalidHandle);
            },
        };
        match to.setup {
            GenericTextureSetup::Render(setup) => match attachment_for(setup.format, slot) {
                Some(location) => Ok(
                    (
                        BackendCall::BindFramebuffer { id: fbo.id, check: false },
                        BackendCall::BindFramebufferWithTexture { location, id: to.id },
                    ),
                ),
                None => Err(Error::OutOfBounds),
            },
            GenericTextureSetup::Normal(_) => Err(Error::NotRenderTexture),
        }
    }

    /// Asks for a render buffer to be attached to a framebuffer. Fails if
    /// `handle` or `buf` reaches nothing, or if the render buffer has a
    /// colour format and the backend has no number for colour attachment
    /// `slot`. Of the two calls returned the first makes the framebuffer the
    /// target, the second attaches the render buffer where its format
    /// belongs.
    pub fn update_framebuffer_with_renderbuffer(
        &self,
        handle: FrameBufferHandle,
        buf: RenderBufferHandle,
        slot: u32,
    ) -> (r: Result<(BackendCall, BackendCall), Error>)
        ensures
            r == match self.framebuffers.lookup(handle.0) {
                None => Err::<(BackendCall, BackendCall), Error>(Error::InvalidHandle),
                Some(fbo) => match self.render_buffers.lookup(buf.0) {
                    None => Err(Error::InvalidHandle),
                    Some(rbo) => match attachment_of(rbo.setup.format, slot) {
                        Some(location) => Ok(
                            (
                                BackendCall::BindFramebuffer { id: fbo.id, check: false },
                                BackendCall::BindFramebufferWithRenderbuffer {
                                    location,
                                    id: rbo.id,
                                },
                            ),
                        ),
                        None => Err(Error::OutOfBounds),
                    },
                },
            },
    {
        let fbo = match self.framebuffers.get(handle.0) {
            Some(fbo) => fbo,
            None => {
                return Err(Error::InvalidHandle);
            },
        };
        let rbo = match self.render_buffers.get(buf.0) {
            Some(rbo) => rbo,
            None => {
                return Err(Error::InvalidHandle);
            },
        };
        match attachment_for(rbo.setup.format, slot) {
            Some(location) => Ok(
                (
                    BackendCall::BindFramebuffer { id: fbo.id, check: false },
                    BackendCall::BindFramebufferWithRenderbuffer { location, id: rbo.id },
                ),
            ),
            None => Err(Error::OutOfBounds),
        }
    }

    /// Frees the slot of a framebuffer. The call returned deletes the
    /// framebuffer. Fails, and changes nothing, if `handle` reaches nothing.
    pub fn delete_framebuffer(&mut self, handle: FrameBufferHandle) -> (r: Result<
        BackendCall,
        Error,
    >)
        ensures
            match old(self).framebuffers.lookup(handle.0) {
                None => r == Err::<BackendCall, Error>(Error::InvalidHandle) && *final(self)
                    == *old(self),
                Some(fbo) => {
                    &&& r == Ok::<BackendCall, Error>(BackendCall::DeleteFramebuffer { id: fbo.id })
                    &&& final(self).framebuffers@ == slots_removed(
                        old(self).framebuffers@,
                        handle.0,
                    )
                    &&& *final(self) == (Device {
                        framebuffers: final(self).framebuffers,
                        ..*old(self)
                    })
                },
            },
    {
        match self.framebuffers.remove(handle.0) {
            Some(fbo) => Ok(BackendCall::DeleteFramebuffer { id: fbo.id }),
            None => Err(Error::InvalidHandle),
        }
    }

    /// Asks for a texture to draw into to be created. Fails if slot `handle`
    /// is taken. The call returned creates the texture; its answer goes to
    /// `finish_create_render_texture`.
    pub fn create_render_texture(&self, handle: TextureHandle, setup: RenderTextureSetup) -> (r:
        Result<BackendCall, Error>)
        ensures
            r == if slot_occupied(self.textures@, handle.0.index) {
                Err::<BackendCall, Error>(Error::DuplicatedHandle)
            } else {
                Ok::<BackendCall, Error>(
                    BackendCall::CreateRenderTexture {
                        format: setup.format,
                        dimensions: setup.dimensions,
                    },
                )
            },
    {
        if self.textures.occupied(handle.0.index) {
            return Err(Error::DuplicatedHandle);
        }
        Ok(BackendCall::CreateRenderTexture { format: setup.format, dimensions: setup.dimensions })
    }

    /// Takes the backend's answer to the creation of a texture to draw into,
    /// and stores the texture. If the backend failed, or slot `handle` is
    /// taken, nothing changes.
    pub fn finish_create_render_texture(
        &mut self,
        handle: TextureHandle,
        setup: RenderTextureSetup,
        created: Result<u32, BackendError>,
    ) -> (r: Result<(), Error>)
        ensures
            match created {
                Err(error) => r == Err::<(), Error>(Error::Backend(error)) && *final(self) == *old(
                    self,
                ),
                Ok(id) => if slot_occupied(old(self).textures@, handle.0.index) {
                    r == Err::<(), Error>(Error::DuplicatedHandle) && *final(self) == *old(self)
                } else {
                    &&& r is Ok
                    &&& final(self).textures@ == slots_set(
                        old(self).textures@,
                        handle.0,
                        TextureObject { id, setup: GenericTextureSetup::Render(setup) },
                    )
                    &&& *final(self) == (Device { textures: final(self).textures, ..*old(self) })
                },
            },
    {
        match created {
            Err(error) => Err(Error::Backend(error)),
            Ok(id) => {
                if self.textures.occupied(handle.0.index) {
                    return Err(Error::DuplicatedHandle);
                }
                self.textures.set(
                    handle.0,
                    TextureObject { id, setup: GenericTextureSetup::Render(setup) },
                );
                Ok(())
            },
        }
    }

    /// Asks for a texture filled with `data` to be created. Fails if slot
    /// `handle` is taken. The call returned creates the texture; its answer
    /// goes to `finish_create_texture`.
    pub fn create_texture(&self, handle: TextureHandle, setup: TextureSetup, data: &[u8]) -> (r:
        Result<BackendCall, Error>)
        ensures
            r == if slot_occupied(self.textures@, handle.0.index) {
                Err::<BackendCall, Error>(Error::DuplicatedHandle)
            } else {
                Ok::<BackendCall, Error>(
                    BackendCall::CreateTexture {
                        format: setup.format,
                        address: setup.address,
                        filter: setup.filter,
                        mipmap: setup.mipmap,
                        dimensions: setup.dimensions,
                    },
                )
            },
    {
        if self.textures.occupied(handle.0.index) {
            return Err(Error::DuplicatedHandle);
        }
        Ok(
            BackendCall::CreateTexture {
                format: setup.format,
                address: setup.address,
                filter: setup.filter,
                mipmap: setup.mipmap,
                dimensions: setup.dimensions,
            },
        )
    }

    /// Takes the backend's answer to the creation of a texture, and stores
    /// the texture. If the backend failed, or slot `handle` is taken,
    /// nothing changes.
    pub fn finish_create_texture(
        &mut self,
        handle: TextureHandle,
        setup: TextureSetup,
        created: Result<u32, BackendError>,
    ) -> (r: Result<(), Error>)
        ensures
            match created {
                Err(error) => r == Err::<(), Error>(Error::Backend(error)) && *final(self) == *old(
                    self,
                ),
                Ok(id) => if slot_occupied(old(self).textures@, handle.0.index) {
                    r == Err::<(), Error>(Error::DuplicatedHandle) && *final(self) == *old(self)
                } else {
                    &&& r is Ok
                    &&& final(self).textures@ == slots_set(
                        old(self).textures@,
                        handle.0,
                        TextureObject { id, setup: GenericTextureSetup::Normal(setup) },
                    )
                    &&& *final(self) == (Device { textures: final(self).textures, ..*old(self) })
                },
            },
    {
        match created {
            Err(error) => Err(Error::Backend(error)),
            Ok(id) => {
                if self.textures.occupied(handle.0.index) {
                    return Err(Error::DuplicatedHandle);
                }
                self.textures.set(
                    handle.0,
                    TextureObject { id, setup: GenericTextureSetup::Normal(setup) },
                );
                Ok(())
            },
        }
    }

    /// Frees the slot of a texture of either kind. The call returned deletes
    /// the texture. Fails, and changes nothing, if `handle` reaches nothing.
    pub fn delete_texture(&mut self, handle: TextureHandle) -> (r: Result<BackendCall, Error>)
        ensures
            match old(self).textures.lookup(handle.0) {
                None => r == Err::<BackendCall, Error>(Error::InvalidHandle) && *final(self)
                    == *old(self),
                Some(to) => {
                    &&& r == Ok::<BackendCall, Error>(BackendCall::DeleteTexture { id: to.id })
                    &&& final(self).textures@ == slots_removed(old(self).textures@, handle.0)
                    &&& *final(self) == (Device { textures: final(self).textures, ..*old(self) })
                },
            },
    {
        match self.textures.remove(handle.0) {
            Some(to) => Ok(BackendCall::DeleteTexture { id: to.id }),
            None => Err(Error::InvalidHandle),
        }
    }

    /// Creates a view with an empty queue. Fails, and changes nothing, if
    /// slot `handle` is taken.
    pub fn create_view(&mut self, handle: ViewStateHandle, setup: ViewStateSetup) -> (r: Result<
        (),
        Error,
    >)
        ensures
            if slot_occupied(old(self).views@, handle.0.index) {
                r == Err::<(), Error>(Error::DuplicatedHandle) && *final(self) == *old(self)
            } else {
                &&& r is Ok
                &&& slots_filled(old(self).views@, final(self).views@, handle.0)
                &&& final(self).views.lookup(handle.0) is Some
                &&& final(self).views.lookup(handle.0)->0.setup == setup
                &&& final(self).queue(handle) == Some(Seq::<DrawCall>::empty())
                &&& *final(self) == (Device { views: final(self).views, ..*old(self) })
            },
    {
        if self.views.occupied(handle.0.index) {
            return Err(Error::DuplicatedHandle);
        }
        self.views.set(handle.0, ViewStateObject { drawcalls: Vec::new(), setup });
        Ok(())
    }

    /// Deletes a view with the draw calls that wait in it. Fails, and
    /// changes nothing, if `handle` reaches nothing.
    pub fn delete_view(&mut self, handle: ViewStateHandle) -> (r: Result<(), Error>)
        ensures
            match old(self).views.lookup(handle.0) {
                None => r == Err::<(), Error>(Error::InvalidHandle) && *final(self) == *old(self),
                Some(_) => {
                    &&& r is Ok
                    &&& final(self).views@ == slots_removed(old(self).views@, handle.0)
                    &&& *final(self) == (Device { views: final(self).views, ..*old(self) })
                },
            },
    {
        match self.views.remove(handle.0) {
            Some(_) => Ok(()),
            None => Err(Error::InvalidHandle),
        }
    }

    /// Asks for a pipeline to be created. Fails if slot `handle` is taken.
    /// The call returned builds the program from the two sources; its
    /// answer goes to `link_pipeline`.
    pub fn create_pipeline(
        &self,
        handle: PipelineStateHandle,
        setup: PipelineStateSetup,
        vs_src: &str,
        fs_src: &str,
    ) -> (r: Result<BackendCall, Error>)
        ensures
            r == if slot_occupied(self.pipelines@, handle.0.index) {
                Err::<BackendCall, Error>(Error::DuplicatedHandle)
            } else {
                Ok::<BackendCall, Error>(BackendCall::CreateProgram)
            },
    {
        if self.pipelines.occupied(handle.0.index) {
            return Err(Error::DuplicatedHandle);
        }
        Ok(BackendCall::CreateProgram)
    }

    /// Stores a pipeline whose program was built and has every attribute of
    /// `setup`, with no value given to any uniform yet. Fails, and changes
    /// nothing, if slot `handle` is taken. The call returned asks the
    /// backend whether all went well; the pipeline stays stored if it did
    /// not.
    pub fn finish_create_pipeline(
        &mut self,
        handle: PipelineStateHandle,
        setup: PipelineStateSetup,
        program: u32,
    ) -> (r: Result<BackendCall, Error>)
        ensures
            if slot_occupied(old(self).pipelines@, handle.0.index) {
                r == Err::<BackendCall, Error>(Error::DuplicatedHandle) && *final(self) == *old(
                    self,
                )
            } else {
                &&& r == Ok::<BackendCall, Error>(BackendCall::Check)
                &&& slots_filled(old(self).pipelines@, final(self).pipelines@, handle.0)
                &&& final(self).pipelines.lookup(handle.0) is Some
                &&& final(self).pipelines.lookup(handle.0)->0.id == program
                &&& final(self).pipelines.lookup(handle.0)->0.setup == setup
                &&& final(self).uniforms(handle) == Some(Seq::<(Seq<u8>, UniformVariable)>::empty())
                &&& *final(self) == (Device { pipelines: final(self).pipelines, ..*old(self) })
            },
    {
        if self.pipelines.occupied(handle.0.index) {
            return Err(Error::DuplicatedHandle);
        }
        self.pipelines.set(
            handle.0,
            PipelineStateObject { id: program, setup, uniforms: Vec::new() },
        );
        assert(named_models(Seq::<(Vec<u8>, UniformVariable)>::empty()) =~= Seq::<
            (Seq<u8>, UniformVariable),
        >::empty());
        Ok(BackendCall::Check)
    }

    /// Gives the uniform `name` of a pipeline the value `variable`, to be
    /// bound whenever the pipeline is. Fails, and changes nothing, if
    /// `handle` reaches nothing.
    pub fn update_pipeline_uniform(
        &mut self,
        handle: PipelineStateHandle,
        name: &str,
        variable: &UniformVariable,
    ) -> (r: Result<(), Error>)
        ensures
            match old(self).pipelines.lookup(handle.0) {
                None => r == Err::<(), Error>(Error::InvalidHandle) && *final(self) == *old(self),
                Some(before) => {
                    &&& r is Ok
                    &&& slots_changed_at(old(self).pipelines@, final(self).pipelines@, handle.0)
                    &&& final(self).pipelines.lookup(handle.0)->0.id == before.id
                    &&& final(self).pipelines.lookup(handle.0)->0.setup == before.setup
                    &&& final(self).uniforms(handle) == Some(
                        named_updated(
                            named_models(before.uniforms@),
                            name.spec_bytes(),
                            *variable,
                        ),
                    )
                    &&& names_distinct(named_models(before.uniforms@)) ==> names_distinct(
                        final(self).uniforms(handle)->0,
                    )
                    &&& *final(self) == (Device { pipelines: final(self).pipelines, ..*old(self) })
                },
            },
    {
        match self.pipelines.get_mut(handle.0) {
            Some(pso) => {
                proof {
                    let before = named_models(pso.uniforms@);
                    if names_distinct(before) {
                        lemma_named_updated(before, name.spec_bytes(), *variable, name.spec_bytes());
                    }
                }
                set_named(&mut pso.uniforms, name.as_bytes(), *variable);
                Ok(())
            },
            None => Err(Error::InvalidHandle),
        }
    }

    /// Frees the slot of a pipeline. The call returned deletes its program.
    /// Fails, and changes nothing, if `handle` reaches nothing.
    pub fn delete_pipeline(&mut self, handle: PipelineStateHandle) -> (r: Result<
        BackendCall,
        Error,
    >)
        ensures
            match old(self).pipelines.lookup(handle.0) {
                None => r == Err::<BackendCall, Error>(Error::InvalidHandle) && *final(self)
                    == *old(self),
                Some(pso) => {
                    &&& r == Ok::<BackendCall, Error>(BackendCall::DeleteProgram { id: pso.id })
                    &&& final(self).pipelines@ == slots_removed(old(self).pipelines@, handle.0)
                    &&& *final(self) == (Device { pipelines: final(self).pipelines, ..*old(self) })
                },
            },
    {
        match self.pipelines.remove(handle.0) {
            Some(pso) => Ok(BackendCall::DeleteProgram { id: pso.id }),
            None => Err(Error::InvalidHandle),
        }
    }
}

} // verus!
