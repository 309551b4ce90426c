use crate::handle::Handle;
use vstd::prelude::*;

verus! {

/// What an occupied slot holds: the value, and the version of the handle it
/// was stored under.
pub struct Entry<T> {
    pub version: u32,
    pub value: T,
}

/// What `handle` reaches in `slots`: the value of its slot, if the slot is
/// occupied and was filled under the handle's own version.
pub open spec fn slot_lookup<T>(slots: Seq<Option<Entry<T>>>, handle: Handle) -> Option<T> {
    if handle.index < slots.len() {
        match slots[handle.index as int] {
            Some(entry) => if entry.version == handle.version {
                Some(entry.value)
            } else {
                None
            },
            None => None,
        }
    } else {
        None
    }
}

/// Whether slot `index` of `slots` holds a value, under whatever version.
pub open spec fn slot_occupied<T>(slots: Seq<Option<Entry<T>>>, index: u32) -> bool {
    index < slots.len() && slots[index as int] is Some
}

/// `slots`, with free slots added at the end until there are at least `len`.
pub open spec fn slots_grown<T>(slots: Seq<Option<Entry<T>>>, len: nat) -> Seq<Option<Entry<T>>> {
    if slots.len() >= len {
        slots
    } else {
        slots + Seq::new((len - slots.len()) as nat, |i: int| None::<Entry<T>>)
    }
}

/// `slots` after `value` was stored under `handle`.
pub open spec fn slots_set<T>(slots: Seq<Option<Entry<T>>>, handle: Handle, value: T) -> Seq<
    Option<Entry<T>>,
> {
    slots_grown(slots, (handle.index + 1) as nat).update(
        handle.index as int,
        Some(Entry { version: handle.version, value }),
    )
}

/// `slots` after what `handle` reaches was taken out.
pub open spec fn slots_removed<T>(slots: Seq<Option<Entry<T>>>, handle: Handle) -> Seq<
    Option<Entry<T>>,
> {
    if slot_lookup(slots, handle) is Some {
        slots.update(handle.index as int, None)
    } else {
        slots
    }
}

/// `after` is `before` with a value stored under `handle`.
pub open spec fn slots_filled<T>(
    before: Seq<Option<Entry<T>>>,
    after: Seq<Option<Entry<T>>>,
    handle: Handle,
) -> bool {
    &&& handle.index < after.len()
    &&& after[handle.index as int] is Some
    &&& after == slots_set(before, handle, after[handle.index as int]->0.value)
}

/// `after` is `before` but for the value that `handle` reaches.
pub open spec fn slots_changed_at<T>(
    before: Seq<Option<Entry<T>>>,
    after: Seq<Option<Entry<T>>>,
    handle: Handle,
) -> bool {
    &&& slot_lookup(before, handle) is Some
    &&& slot_lookup(after, handle) is Some
    &&& after == before.update(
        handle.index as int,
        Some(Entry { version: handle.version, value: slot_lookup(after, handle)->0 }),
    )
}

/// Sparse storage indexed by handle.
pub struct DataVec<T> {
    pub buf: Vec<Option<Entry<T>>>,
}

impl<T> View for DataVec<T> {
    type V = Seq<Option<Entry<T>>>;

    open spec fn view(&self) -> Seq<Option<Entry<T>>> {
        self.buf@
    }
}

impl<T> DataVec<T> {
    /// What `handle` reaches in this table.
    pub open spec fn lookup(&self, handle: Handle) -> Option<T> {
        slot_lookup(self@, handle)
    }

    /// A table without slots.
    pub fn new() -> (table: Self)
        ensures
            table@ == Seq::<Option<Entry<T>>>::empty(),
    {
        DataVec { buf: Vec::new() }
    }

    /// The number of slots, free ones included.
    pub fn len(&self) -> (n: usize)
        ensures
            n == self@.len(),
    {
        self.buf.len()
    }

    /// Whether slot `index` holds a value, under whatever version.
    pub fn occupied(&self, index: u32) -> (b: bool)
        ensures
            b == slot_occupied(self@, index),
    {
        let i = index as usize;
        i < self.buf.len() && self.buf[i].is_some()
    }

    /// The value in slot `index`, under whatever version it was stored.
    pub fn at(&self, index: usize) -> (r: Option<&T>)
        ensures
            match r {
                Some(value) => index < self@.len() && self@[index as int] is Some
                    && self@[index as int]->0.value == *value,
                None => index >= self@.len() || self@[index as int] is None,
            },
    {
        if index < self.buf.len() {
            match &self.buf[index] {
                Some(entry) => Some(&entry.value),
                None => None,
            }
        } else {
            None
        }
    }

    /// The value `handle` reaches, if any.
    pub fn get(&self, handle: Handle) -> (r: Option<&T>)
        ensures
            match r {
                Some(value) => self.lookup(handle) == Some(*value),
                None => self.lookup(handle) is None,
            },
    {
        let i = handle.index as usize;
        if i < self.buf.len() {
            match &self.buf[i] {
                Some(entry) => if entry.version == handle.version {
                    Some(&entry.value)
                } else {
                    None
                },
                None => None,
            }
        } else {
            None
        }
    }

    /// The value `handle` reaches, if any, open to change. Nothing else in the
    /// table changes.
    pub fn get_mut(&mut self, handle: Handle) -> (r: Option<&mut T>)
        ensures
            match r {
                Some(value) => old(self).lookup(handle) == Some(*value) && final(self)@ == old(
                    self,
                )@.update(
                    handle.index as int,
                    Some(Entry { version: handle.version, value: *final(value) }),
                ),
                None => old(self).lookup(handle) is None && *final(self) == *old(self),
            },
    {
        let i = handle.index as usize;
        if self.get(handle).is_none() {
            return None;
        }
        match &mut self.buf[i] {
            Some(entry) => Some(&mut entry.value),
            None => None,
        }
    }

    /// Stores `value` under `handle`, adding free slots as needed and
    /// replacing whatever the slot held.
    pub fn set(&mut self, handle: Handle, value: T)
        ensures
            final(self)@ == slots_set(old(self)@, handle, value),
    {
        let i = handle.index as usize;
        while self.buf.len() <= i
            invariant
                i == handle.index,
                self.buf@ == slots_grown(old(self)@, self.buf@.len()),
                self.buf@.len() <= i + 1 || self.buf@.len() == old(self)@.len(),
                self.buf@.len() >= old(self)@.len(),
            decreases i + 1 - self.buf.len(),
        {
            self.buf.push(None);
        }
        self.buf[i] = Some(Entry { version: handle.version, value });
    }

    /// Takes out the value `handle` reaches, if any, and leaves its slot free.
    pub fn remove(&mut self, handle: Handle) -> (r: Option<T>)
        ensures
            r == old(self).lookup(handle),
            final(self)@ == slots_removed(old(self)@, handle),
            r is None ==> *final(self) == *old(self),
    {
        let i = handle.index as usize;
        if self.buf.len() <= i {
            None
        } else {
            let reached = match &self.buf[i] {
                Some(entry) => entry.version == handle.version,
                None => false,
            };
            if reached {
                let mut taken: Option<Entry<T>> = None;
                std::mem::swap(&mut taken, &mut self.buf[i]);
                match taken {
                    Some(entry) => Some(entry.value),
                    None => None,
                }
            } else {
                None
            }
        }
    }
}

/// After a value was stored under a handle, the handle reaches that value.
pub proof fn lemma_lookup_after_set<T>(slots: Seq<Option<Entry<T>>>, handle: Handle, value: T)
    ensures
        slot_lookup(slots_set(slots, handle, value), handle) == Some(value),
{
}

/// After what a handle reaches was taken out, the handle reaches nothing.
pub proof fn lemma_lookup_after_remove<T>(slots: Seq<Option<Entry<T>>>, handle: Handle)
    ensures
        slot_lookup(slots_removed(slots, handle), handle) is None,
{
}

/// Storing under one handle leaves what handles of other slots reach as it was.
pub proof fn lemma_set_keeps_other_slots<T>(
    slots: Seq<Option<Entry<T>>>,
    handle: Handle,
    value: T,
    other: Handle,
)
    requires
        other.index != handle.index,
    ensures
        slot_lookup(slots_set(slots, handle, value), other) == slot_lookup(slots, other),
{
}

/// Taking out what one handle reaches leaves what every other handle reaches
/// as it was.
pub proof fn lemma_remove_keeps_others<T>(
    slots: Seq<Option<Entry<T>>>,
    handle: Handle,
    other: Handle,
)
    requires
        other != handle,
    ensures
        slot_lookup(slots_removed(slots, handle), other) == slot_lookup(slots, other),
{
}

/// A handle kept from an earlier use of a slot reaches nothing once the slot
/// is filled again under a new version.
pub proof fn lemma_stale_handle_reaches_nothing<T>(
    slots: Seq<Option<Entry<T>>>,
    handle: Handle,
    value: T,
    stale: Handle,
)
    requires
        stale.index == handle.index,
        stale.version != handle.version,
    ensures
        slot_lookup(slots_set(slots, handle, value), stale) is None,
{
}

} // verus!
