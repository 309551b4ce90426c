use vstd::prelude::*;

verus! {

/// Names one slot of a table, and one use of that slot.
///
/// A slot is reused after its object is deleted. Each reuse is handed out
/// under a new `version`, so that a handle kept from an earlier use no longer
/// reaches anything.
#[derive(Clone, Copy, Debug, PartialEq, Eq, Structural, Hash)]
pub struct Handle {
    pub index: u32,
    pub version: u32,
}

impl Handle {
    /// The handle of slot `index` in its use number `version`.
    pub fn new(index: u32, version: u32) -> (h: Handle)
        ensures
            h.index == index,
            h.version == version,
    {
        Handle { index, version }
    }

    /// The slot this handle names.
    pub fn index(&self) -> (i: u32)
        ensures
            i == self.index,
    {
        self.index
    }

    /// The use of the slot this handle names.
    pub fn version(&self) -> (v: u32)
        ensures
            v == self.version,
    {
        self.version
    }
}

#[derive(Clone, Copy, Debug, PartialEq, Eq, Structural, Hash)]
pub struct VertexBufferHandle(pub Handle);

#[derive(Clone, Copy, Debug, PartialEq, Eq, Structural, Hash)]
pub struct IndexBufferHandle(pub Handle);

#[derive(Clone, Copy, Debug, PartialEq, Eq, Structural, Hash)]
pub struct PipelineStateHandle(pub Handle);

#[derive(Clone, Copy, Debug, PartialEq, Eq, Structural, Hash)]
pub struct ViewStateHandle(pub Handle);

#[derive(Clone, Copy, Debug, PartialEq, Eq, Structural, Hash)]
pub struct TextureHandle(pub Handle);

#[derive(Clone, Copy, Debug, PartialEq, Eq, Structural, Hash)]
pub struct RenderBufferHandle(pub Handle);

#[derive(Clone, Copy, Debug, PartialEq, Eq, Structural, Hash)]
pub struct FrameBufferHandle(pub Handle);

/// Hands out handles, and takes them back.
///
/// A slot that was taken back is handed out again under the next version,
/// so no handle is handed out twice. A slot whose versions are used up is
/// never handed out again.
pub struct HandlePool {
    /// The version each slot is in.
    pub versions: Vec<u32>,
    /// Whether the handle of each slot, in its version, is out.
    pub alive: Vec<bool>,
    /// The slots that can be handed out again.
    pub free: Vec<u32>,
}

impl HandlePool {
    /// What holds of every pool that these functions made.
    pub open spec fn wf(&self) -> bool {
        &&& self.versions@.len() == self.alive@.len()
        &&& self.versions@.len() <= u32::MAX
        &&& forall|i: int|
            0 <= i < self.alive@.len() && self.alive@[i] ==> (#[trigger] self.versions@[i])
                < u32::MAX
        &&& forall|k: int|
            0 <= k < self.free@.len() ==> {
                let slot = #[trigger] self.free@[k];
                slot < self.versions@.len() && !self.alive@[slot as int] && self.versions@[slot as int]
                    < u32::MAX
            }
        &&& forall|j: int, k: int|
            0 <= j < k < self.free@.len() ==> self.free@[j] != self.free@[k]
    }

    /// Whether `handle` is out: it was handed out and not taken back.
    pub open spec fn spec_is_alive(&self, handle: Handle) -> bool {
        &&& handle.index < self.versions@.len()
        &&& self.alive@[handle.index as int]
        &&& self.versions@[handle.index as int] == handle.version
    }

    /// Whether `handle` was ever handed out.
    pub open spec fn issued(&self, handle: Handle) -> bool {
        &&& handle.index < self.versions@.len()
        &&& (handle.version < self.versions@[handle.index as int] || (self.alive@[handle.index as int]
            && handle.version == self.versions@[handle.index as int]))
    }

    /// A pool that has handed out nothing.
    pub fn new() -> (pool: HandlePool)
        ensures
            pool.wf(),
            forall|handle: Handle| !pool.issued(handle),
    {
        HandlePool { versions: Vec::new(), alive: Vec::new(), free: Vec::new() }
    }

    /// Hands out a handle that was never handed out before, or nothing if
    /// every slot is in use or used up. All other handles stay as they are.
    pub fn create(&mut self) -> (r: Option<Handle>)
        requires
            old(self).wf(),
        ensures
            final(self).wf(),
            match r {
                Some(handle) => {
                    &&& !old(self).issued(handle)
                    &&& final(self).is_alive(handle)
                    &&& forall|other: Handle|
                        other != handle ==> final(self).is_alive(other) == old(self).is_alive(other)
                            && final(self).issued(other) == old(self).issued(other)
                },
                None => *final(self) == *old(self) && old(self).free@.len() == 0 && old(
                    self,
                ).versions@.len() == u32::MAX,
            },
    {
        if self.free.len() == 0 {
            let n = self.versions.len();
            if n >= 0xffff_ffff {
                return None;
            }
            self.versions.push(0);
            self.alive.push(true);
            return Some(Handle { index: n as u32, version: 0 });
        }
        let last = self.free.len() - 1;
        let slot = self.free[last];
        self.free.truncate(last);
        let index = slot as usize;
        let version = self.versions[index];
        self.alive[index] = true;
        assert forall|k: int| 0 <= k < self.free@.len() implies {
            let other = #[trigger] self.free@[k];
            other < self.versions@.len() && !self.alive@[other as int] && self.versions@[other as int]
                < u32::MAX
        } by {
            assert(self.free@[k] == old(self).free@[k]);
        }
        Some(Handle { index: slot, version })
    }

    /// Takes `handle` back, and says whether it was out. A handle that was
    /// taken back is never out again. All other handles stay as they are.
    pub fn free(&mut self, handle: Handle) -> (was_alive: bool)
        requires
            old(self).wf(),
        ensures
            final(self).wf(),
            was_alive == old(self).is_alive(handle),
            !final(self).is_alive(handle),
            !was_alive ==> *final(self) == *old(self),
            forall|other: Handle|
                other != handle ==> final(self).is_alive(other) == old(self).is_alive(other),
            forall|other: Handle| old(self).issued(other) ==> final(self).issued(other),
            forall|other: Handle|
                other.index != handle.index ==> final(self).issued(other) == old(self).issued(
                    other,
                ),
    {
        if !self.is_alive(handle) {
            return false;
        }
        let index = handle.index as usize;
        let next = handle.version + 1;
        self.alive[index] = false;
        self.versions[index] = next;
        if next < u32::MAX {
            self.free.push(handle.index);
            assert forall|k: int| 0 <= k < self.free@.len() implies {
                let other = #[trigger] self.free@[k];
                other < self.versions@.len() && !self.alive@[other as int]
                    && self.versions@[other as int] < u32::MAX
            } by {
                if k < old(self).free@.len() {
                    assert(self.free@[k] == old(self).free@[k]);
                }
            }
            assert forall|j: int, k: int| 0 <= j < k < self.free@.len() implies self.free@[j]
                != self.free@[k] by {
                assert(self.free@[j] == old(self).free@[j]);
                if k < old(self).free@.len() {
                    assert(self.free@[k] == old(self).free@[k]);
                }
            }
        } else {
            assert forall|k: int| 0 <= k < self.free@.len() implies {
                let other = #[trigger] self.free@[k];
                other < self.versions@.len() && !self.alive@[other as int]
                    && self.versions@[other as int] < u32::MAX
            } by {
                assert(self.free@[k] == old(self).free@[k]);
            }
        }
        true
    }

    /// Whether `handle` is out.
    #[verifier::when_used_as_spec(spec_is_alive)]
    pub fn is_alive(&self, handle: Handle) -> (alive: bool)
        requires
            self.wf(),
        ensures
            alive == self.is_alive(handle),
    {
        let index = handle.index as usize;
        index < self.versions.len() && self.alive[index] && self.versions[index] == handle.version
    }
}

} // verus!
