use crate::handle::TextureHandle;
use crate::resource::UniformVariable;
use vstd::prelude::*;
use vstd::slice::slice_subrange;
use vstd::string::StringSliceAdditionalSpecFns;

verus! {

/// Reaches a name written to a `TaskBuffer`: `len` bytes from `offset` on.
#[derive(Clone, Copy, Debug, PartialEq, Eq, Structural, Hash)]
pub struct NamePtr {
    pub offset: usize,
    pub len: usize,
}

/// Reaches a run of uniform bindings written to a `TaskBuffer`: `len` of them
/// from number `offset` on.
#[derive(Clone, Copy, Debug, PartialEq, Eq, Structural, Hash)]
pub struct UniformsPtr {
    pub offset: usize,
    pub len: usize,
}

/// Reaches a run of texture bindings written to a `TaskBuffer`: `len` of them
/// from number `offset` on.
#[derive(Clone, Copy, Debug, PartialEq, Eq, Structural, Hash)]
pub struct TexturesPtr {
    pub offset: usize,
    pub len: usize,
}

/// The `len` items of `items` from `offset` on, if there are that many.
pub open spec fn run_of<T>(items: Seq<T>, offset: usize, len: usize) -> Option<Seq<T>> {
    if offset + len <= items.len() {
        Some(items.subrange(offset as int, offset + len))
    } else {
        None
    }
}

/// What the draw calls of one frame bind by name: names, values for uniforms
/// and textures for samplers, written one after the other and read back
/// through the pointer each write returned.
pub struct TaskBuffer {
    pub names: Vec<u8>,
    pub uniforms: Vec<(NamePtr, UniformVariable)>,
    pub textures: Vec<(NamePtr, TextureHandle)>,
}

impl TaskBuffer {
    /// The name `ptr` reaches.
    pub open spec fn name(&self, ptr: NamePtr) -> Option<Seq<u8>> {
        run_of(self.names@, ptr.offset, ptr.len)
    }

    /// The uniform bindings `ptr` reaches.
    pub open spec fn uniforms_at(&self, ptr: UniformsPtr) -> Option<
        Seq<(NamePtr, UniformVariable)>,
    > {
        run_of(self.uniforms@, ptr.offset, ptr.len)
    }

    /// The texture bindings `ptr` reaches.
    pub open spec fn textures_at(&self, ptr: TexturesPtr) -> Option<
        Seq<(NamePtr, TextureHandle)>,
    > {
        run_of(self.textures@, ptr.offset, ptr.len)
    }

    /// A buffer that holds nothing.
    pub fn new() -> (buf: Self)
        ensures
            buf.names@.len() == 0,
            buf.uniforms@.len() == 0,
            buf.textures@.len() == 0,
    {
        TaskBuffer { names: Vec::new(), uniforms: Vec::new(), textures: Vec::new() }
    }

    /// Drops all that was written. No pointer handed out before reaches
    /// anything but an empty run from then on.
    pub fn clear(&mut self)
        ensures
            final(self).names@.len() == 0,
            final(self).uniforms@.len() == 0,
            final(self).textures@.len() == 0,
    {
        self.names.clear();
        self.uniforms.clear();
        self.textures.clear();
    }

    /// Writes `bytes` as a name. The pointer returned reaches them, and every
    /// pointer that reached something reaches the same as before.
    pub fn extend_from_slice(&mut self, bytes: &[u8]) -> (ptr: NamePtr)
        ensures
            final(self).names@ == old(self).names@ + bytes@,
            final(self).uniforms == old(self).uniforms,
            final(self).textures == old(self).textures,
            ptr.offset == old(self).names@.len(),
            ptr.len == bytes@.len(),
            final(self).name(ptr) == Some(bytes@),
            forall|p: NamePtr| #[trigger]
                old(self).name(p) is Some ==> final(self).name(p) == old(self).name(p),
    {
        let offset = self.names.len();
        self.names.extend_from_slice(bytes);
        let ptr = NamePtr { offset, len: bytes.len() };
        proof {
            assert(self.names@.subrange(offset as int, offset + bytes@.len()) =~= bytes@);
            assert forall|p: NamePtr| #[trigger] old(self).name(p) is Some implies self.name(p)
                == old(self).name(p) by {
                assert(self.names@.subrange(p.offset as int, p.offset + p.len) =~= old(
                    self,
                ).names@.subrange(p.offset as int, p.offset + p.len));
            }
        }
        ptr
    }

    /// Writes the bytes of `name` as a name.
    pub fn extend_from_str(&mut self, name: &str) -> (ptr: NamePtr)
        ensures
            final(self).names@ == old(self).names@ + name.spec_bytes(),
            final(self).uniforms == old(self).uniforms,
            final(self).textures == old(self).textures,
            ptr.offset == old(self).names@.len(),
            ptr.len == name.spec_bytes().len(),
            final(self).name(ptr) == Some(name.spec_bytes()),
            forall|p: NamePtr| #[trigger]
                old(self).name(p) is Some ==> final(self).name(p) == old(self).name(p),
    {
        self.extend_from_slice(name.as_bytes())
    }

    /// Writes a run of uniform bindings. The pointer returned reaches them,
    /// and every pointer that reached something reaches the same as before.
    pub fn extend_from_uniforms(&mut self, items: &[(NamePtr, UniformVariable)]) -> (ptr:
        UniformsPtr)
        ensures
            final(self).uniforms@ == old(self).uniforms@ + items@,
            final(self).names == old(self).names,
            final(self).textures == old(self).textures,
            ptr.offset == old(self).uniforms@.len(),
            ptr.len == items@.len(),
            final(self).uniforms_at(ptr) == Some(items@),
            forall|p: UniformsPtr| #[trigger]
                old(self).uniforms_at(p) is Some ==> final(self).uniforms_at(p) == old(
                    self,
                ).uniforms_at(p),
    {
        let offset = self.uniforms.len();
        let mut i: usize = 0;
        while i < items.len()
            invariant
                i <= items@.len(),
                self.uniforms@ == old(self).uniforms@ + items@.take(i as int),
                self.names == old(self).names,
                self.textures == old(self).textures,
            decreases items.len() - i,
        {
            self.uniforms.push(items[i]);
            assert(items@.take(i + 1) =~= items@.take(i as int).push(items@[i as int]));
            i += 1;
        }
        let ptr = UniformsPtr { offset, len: items.len() };
        proof {
            assert(items@.take(i as int) =~= items@);
            assert(self.uniforms@.subrange(offset as int, offset + items@.len()) =~= items@);
            assert forall|p: UniformsPtr| #[trigger]
                old(self).uniforms_at(p) is Some implies self.uniforms_at(p) == old(
                self,
            ).uniforms_at(p) by {
                assert(self.uniforms@.subrange(p.offset as int, p.offset + p.len) =~= old(
                    self,
                ).uniforms@.subrange(p.offset as int, p.offset + p.len));
            }
        }
        ptr
    }

    /// Writes a run of texture bindings. The pointer returned reaches them,
    /// and every pointer that reached something reaches the same as before.
    pub fn extend_from_textures(&mut self, items: &[(NamePtr, TextureHandle)]) -> (ptr:
        TexturesPtr)
        ensures
            final(self).textures@ == old(self).textures@ + items@,
            final(self).names == old(self).names,
            final(self).uniforms == old(self).uniforms,
            ptr.offset == old(self).textures@.len(),
            ptr.len == items@.len(),
            final(self).textures_at(ptr) == Some(items@),
            forall|p: TexturesPtr| #[trigger]
                old(self).textures_at(p) is Some ==> final(self).textures_at(p) == old(
                    self,
                ).textures_at(p),
    {
        let offset = self.textures.len();
        let mut i: usize = 0;
        while i < items.len()
            invariant
                i <= items@.len(),
                self.textures@ == old(self).textures@ + items@.take(i as int),
                self.names == old(self).names,
                self.uniforms == old(self).uniforms,
            decreases items.len() - i,
        {
            self.textures.push(items[i]);
            assert(items@.take(i + 1) =~= items@.take(i as int).push(items@[i as int]));
            i += 1;
        }
        let ptr = TexturesPtr { offset, len: items.len() };
        proof {
            assert(items@.take(i as int) =~= items@);
            assert(self.textures@.subrange(offset as int, offset + items@.len()) =~= items@);
            assert forall|p: TexturesPtr| #[trigger]
                old(self).textures_at(p) is Some implies self.textures_at(p) == old(
                self,
            ).textures_at(p) by {
                assert(self.textures@.subrange(p.offset as int, p.offset + p.len) =~= old(
                    self,
                ).textures@.subrange(p.offset as int, p.offset + p.len));
            }
        }
        ptr
    }

    /// The bytes of the name `ptr` reaches, if it reaches one.
    pub fn as_bytes(&self, ptr: NamePtr) -> (r: Option<&[u8]>)
        ensures
            match r {
                Some(bytes) => self.name(ptr) == Some(bytes@),
                None => self.name(ptr) is None,
            },
    {
        let n = self.names.len();
        if ptr.len <= n && ptr.offset <= n - ptr.len {
            Some(slice_subrange(self.names.as_slice(), ptr.offset, ptr.offset + ptr.len))
        } else {
            None
        }
    }

    /// The uniform bindings `ptr` reaches, if it reaches a run of them.
    pub fn as_uniforms(&self, ptr: UniformsPtr) -> (r: Option<&[(NamePtr, UniformVariable)]>)
        ensures
            match r {
                Some(items) => self.uniforms_at(ptr) == Some(items@),
                None => self.uniforms_at(ptr) is None,
            },
    {
        let n = self.uniforms.len();
        if ptr.len <= n && ptr.offset <= n - ptr.len {
            Some(slice_subrange(self.uniforms.as_slice(), ptr.offset, ptr.offset + ptr.len))
        } else {
            None
        }
    }

    /// The texture bindings `ptr` reaches, if it reaches a run of them.
    pub fn as_textures(&self, ptr: TexturesPtr) -> (r: Option<&[(NamePtr, TextureHandle)]>)
        ensures
            match r {
                Some(items) => self.textures_at(ptr) == Some(items@),
                None => self.textures_at(ptr) is None,
            },
    {
        let n = self.textures.len();
        if ptr.len <= n && ptr.offset <= n - ptr.len {
            Some(slice_subrange(self.textures.as_slice(), ptr.offset, ptr.offset + ptr.len))
        } else {
            None
        }
    }
}

/// The buffers of two frames: the one that is being recorded, and the one
/// recorded before it, which is being flushed. Swapping them is the only
/// way in which what was recorded gets to be flushed, so nothing is written
/// to a buffer while it is read.
pub struct DoubleFrame {
    pub first: TaskBuffer,
    pub second: TaskBuffer,
    /// Whether `second` is the buffer that is being recorded.
    pub flipped: bool,
}

impl DoubleFrame {
    /// The buffer that is being recorded.
    pub open spec fn front(&self) -> TaskBuffer {
        if self.flipped {
            self.second
        } else {
            self.first
        }
    }

    /// The buffer that is being flushed.
    pub open spec fn back(&self) -> TaskBuffer {
        if self.flipped {
            self.first
        } else {
            self.second
        }
    }

    /// Two buffers that hold nothing.
    pub fn new() -> (frames: DoubleFrame)
        ensures
            frames.front().names@.len() == 0,
            frames.front().uniforms@.len() == 0,
            frames.front().textures@.len() == 0,
            frames.back().names@.len() == 0,
            frames.back().uniforms@.len() == 0,
            frames.back().textures@.len() == 0,
    {
        DoubleFrame { first: TaskBuffer::new(), second: TaskBuffer::new(), flipped: false }
    }

    /// The buffer to record into. The buffer that is being flushed stays as
    /// it is, whatever is recorded.
    pub fn recording(&mut self) -> (buf: &mut TaskBuffer)
        ensures
            *buf == old(self).front(),
            final(self).front() == *final(buf),
            final(self).back() == old(self).back(),
            final(self).flipped == old(self).flipped,
    {
        if self.flipped {
            &mut self.second
        } else {
            &mut self.first
        }
    }

    /// The buffer to flush.
    pub fn flushing(&self) -> (buf: &TaskBuffer)
        ensures
            *buf == self.back(),
    {
        if self.flipped {
            &self.first
        } else {
            &self.second
        }
    }

    /// Begins the next frame: what was recorded is now to be flushed, and
    /// the buffer that was flushed is emptied and recorded into.
    pub fn swap_frames(&mut self)
        ensures
            final(self).back() == old(self).front(),
            final(self).flipped != old(self).flipped,
            final(self).front().names@.len() == 0,
            final(self).front().uniforms@.len() == 0,
            final(self).front().textures@.len() == 0,
    {
        if self.flipped {
            self.first.clear();
        } else {
            self.second.clear();
        }
        self.flipped = !self.flipped;
    }
}

} // verus!
