//! The resource heap: a fixed-capacity arena of reference-counted slots.
//!
//! One arena serves one kind of native resource. A slot is free, or it owns one
//! live resource and a count of at least one. The handle of a slot is its
//! address in the range of the arena, which is fixed when the arena is made.
//! Free slots are kept on a stack: the slot released last is handed out
//! first, and a new arena hands out its slots from the first to the last.

use vstd::prelude::*;
use crate::address::AddressRange;

verus! {

/// No free slot remains.
#[derive(Debug, Clone, Copy, PartialEq, Eq, Structural)]
pub struct OutOfMemory;

/// The address of a slot, as it is given to the managed runtime.
#[derive(Debug, Clone, Copy, PartialEq, Eq, Structural)]
pub struct Handle(pub usize);

/// What an occupied slot holds.
#[derive(Debug)]
pub struct Slot<T> {
    pub resource: T,
    /// The number of references to the resource, at least one.
    pub refs: usize,
}

/// What a release did.
#[derive(Debug)]
pub enum Released<T> {
    /// The address is no handle of a live resource of this arena: nothing
    /// was changed.
    Unknown,
    /// The count was lowered and is still positive: it is now the number
    /// given.
    Shared(usize),
    /// The last reference is gone. The slot is free again and the resource
    /// is handed back, for the caller to tear down.
    Freed(T),
}

/// The state of an arena: what each slot holds, and the stack of free slots.
pub struct HeapModel<T> {
    pub slots: Seq<Option<Slot<T>>>,
    /// The free slots. The last one is handed out next.
    pub free: Seq<usize>,
}

impl<T> HeapModel<T> {
    /// The number of slots.
    pub open spec fn capacity(self) -> nat {
        self.slots.len()
    }

    /// The number of occupied slots.
    pub open spec fn live(self) -> int {
        self.slots.len() - self.free.len()
    }

    /// Slot `index` holds a resource.
    pub open spec fn occupied(self, index: int) -> bool {
        0 <= index < self.slots.len() && self.slots[index] is Some
    }

    /// The slots can be counted, the stack of free slots holds each free
    /// slot once and no other, and each occupied slot has a count of at
    /// least one.
    pub open spec fn wf(self) -> bool {
        &&& self.slots.len() <= usize::MAX
        &&& forall|k: int|
            0 <= k < self.free.len() ==> (#[trigger] self.free[k]) < self.slots.len()
                && self.slots[self.free[k] as int] is None
        &&& forall|k: int, l: int|
            0 <= k < l < self.free.len() ==> #[trigger] self.free[k] != #[trigger] self.free[l]
        &&& forall|i: int|
            0 <= i < self.slots.len() && (#[trigger] self.slots[i]) is None
                ==> self.free.contains(i as usize)
        &&& forall|i: int|
            0 <= i < self.slots.len() && (#[trigger] self.slots[i]) is Some
                ==> self.slots[i].unwrap().refs >= 1
    }

    /// An arena of `capacity` free slots, the first of which is handed out
    /// first.
    pub open spec fn empty(capacity: nat) -> HeapModel<T> {
        HeapModel {
            slots: Seq::new(capacity, |i: int| None),
            free: Seq::new(capacity, |k: int| (capacity - 1 - k) as usize),
        }
    }

    /// No free slot remains.
    pub open spec fn full(self) -> bool {
        self.free.len() == 0
    }

    /// The slot that the next allocation takes.
    pub open spec fn next_free(self) -> int
        recommends
            !self.full(),
    {
        self.free.last() as int
    }

    /// The arena after `resource` went into the next free slot, with a count
    /// of one.
    pub open spec fn allocate(self, resource: T) -> HeapModel<T>
        recommends
            !self.full(),
    {
        HeapModel {
            slots: self.slots.update(self.next_free(), Some(Slot { resource, refs: 1 })),
            free: self.free.drop_last(),
        }
    }

    /// The arena after an attempt to allocate: unchanged where it was full.
    pub open spec fn try_allocate(self, resource: T) -> HeapModel<T> {
        if self.full() {
            self
        } else {
            self.allocate(resource)
        }
    }

    /// The arena after the count of slot `index` went up by one.
    pub open spec fn retain(self, index: int) -> HeapModel<T>
        recommends
            self.occupied(index),
    {
        let slot = self.slots[index].unwrap();
        HeapModel {
            slots: self.slots.update(
                index,
                Some(Slot { resource: slot.resource, refs: (slot.refs + 1) as usize }),
            ),
            free: self.free,
        }
    }

    /// The arena after one reference to slot `index` went away: the count is
    /// one lower, or, where it was one, the slot is free and on top of the
    /// stack.
    pub open spec fn release(self, index: int) -> HeapModel<T>
        recommends
            self.occupied(index),
    {
        let slot = self.slots[index].unwrap();
        if slot.refs > 1 {
            HeapModel {
                slots: self.slots.update(
                    index,
                    Some(Slot { resource: slot.resource, refs: (slot.refs - 1) as usize }),
                ),
                free: self.free,
            }
        } else {
            HeapModel { slots: self.slots.update(index, None), free: self.free.push(index as usize) }
        }
    }

    /// The arena after the resources of `resources` were allocated one after
    /// the other, each attempt leaving a full arena as it is.
    pub open spec fn try_allocate_all(self, resources: Seq<T>) -> HeapModel<T>
        decreases resources.len(),
    {
        if resources.len() == 0 {
            self
        } else {
            self.try_allocate_all(resources.drop_last()).try_allocate(resources.last())
        }
    }
}

/// A new arena is well formed, and all of its slots are free.
pub proof fn lemma_empty_is_wf<T>(capacity: nat)
    requires
        capacity <= usize::MAX,
    ensures
        HeapModel::<T>::empty(capacity).wf(),
        HeapModel::<T>::empty(capacity).live() == 0,
        HeapModel::<T>::empty(capacity).capacity() == capacity,
        capacity > 0 ==> HeapModel::<T>::empty(capacity).next_free() == 0,
{
    let m = HeapModel::<T>::empty(capacity);
    assert forall|i: int| 0 <= i < m.slots.len() && (#[trigger] m.slots[i]) is None implies m.free.contains(
        i as usize,
    ) by {
        assert(m.free[capacity - 1 - i] == i as usize);
    }
}

/// In a well-formed arena the free slots and the occupied ones add up to the
/// capacity: no more slots are on the stack than the arena has.
pub proof fn lemma_free_within_capacity<T>(m: HeapModel<T>)
    requires
        m.wf(),
    ensures
        m.free.len() <= m.slots.len(),
        0 <= m.live() <= m.capacity(),
        m.full() <==> m.live() == m.capacity(),
{
    lemma_distinct_below(m.free, m.slots.len());
}

/// A sequence of distinct numbers below `bound` has at most `bound` items.
proof fn lemma_distinct_below(s: Seq<usize>, bound: nat)
    requires
        forall|k: int| 0 <= k < s.len() ==> (#[trigger] s[k]) < bound,
        forall|k: int, l: int| 0 <= k < l < s.len() ==> #[trigger] s[k] != #[trigger] s[l],
    ensures
        s.len() <= bound,
    decreases bound,
{
    if s.len() == 0 {
    } else if bound == 0 {
        assert(s[0] < bound);
    } else {
        // Drop the item that equals `bound - 1`, if there is one.
        let top = (bound - 1) as usize;
        if exists|k: int| 0 <= k < s.len() && s[k] == top {
            let k = choose|k: int| 0 <= k < s.len() && s[k] == top;
            let rest = s.remove(k);
            assert forall|a: int| 0 <= a < rest.len() implies (#[trigger] rest[a]) < (bound
                - 1) as nat by {
                if a < k {
                    assert(rest[a] == s[a]);
                    assert(s[a] != s[k]);
                } else {
                    assert(rest[a] == s[a + 1]);
                    assert(s[k] != s[a + 1]);
                }
            }
            assert forall|a: int, b: int| 0 <= a < b < rest.len() implies #[trigger] rest[a]
                != #[trigger] rest[b] by {
                let a2 = if a < k {
                    a
                } else {
                    a + 1
                };
                let b2 = if b < k {
                    b
                } else {
                    b + 1
                };
                assert(rest[a] == s[a2]);
                assert(rest[b] == s[b2]);
                assert(s[a2] != s[b2]);
            }
            lemma_distinct_below(rest, (bound - 1) as nat);
        } else {
            assert forall|a: int| 0 <= a < s.len() implies (#[trigger] s[a]) < (bound - 1) as nat by {
                assert(s[a] < bound);
                assert(s[a] != top);
            }
            lemma_distinct_below(s, (bound - 1) as nat);
        }
    }
}

/// An allocation into a well-formed arena that is not full leaves it well
/// formed, with one more occupied slot.
pub proof fn lemma_allocate_keeps_wf<T>(m: HeapModel<T>, resource: T)
    requires
        m.wf(),
        !m.full(),
    ensures
        m.allocate(resource).wf(),
        m.allocate(resource).live() == m.live() + 1,
        m.allocate(resource).capacity() == m.capacity(),
        m.allocate(resource).occupied(m.next_free()),
        !m.occupied(m.next_free()),
{
    let after = m.allocate(resource);
    let taken = m.next_free();
    let last = m.free.len() - 1;
    assert(m.free[last] < m.slots.len());
    assert(0 <= taken < m.slots.len());
    assert forall|i: int|
        0 <= i < after.slots.len() && (#[trigger] after.slots[i]) is None implies after.free.contains(
        i as usize,
    ) by {
        assert(i != taken);
        assert(m.slots[i] is None);
        let k = choose|k: int| 0 <= k < m.free.len() && m.free[k] == i as usize;
        assert(k != last);
        assert(after.free[k] == i as usize);
    }
    assert forall|k: int| 0 <= k < after.free.len() implies (#[trigger] after.free[k])
        < after.slots.len() && after.slots[after.free[k] as int] is None by {
        assert(after.free[k] == m.free[k]);
        assert(m.free[k] != m.free[last]);
    }
}

/// A release of an occupied slot of a well-formed arena leaves it well
/// formed. Where the last reference went, the slot is free and is the one
/// the next allocation takes.
pub proof fn lemma_release_keeps_wf<T>(m: HeapModel<T>, index: int)
    requires
        m.wf(),
        m.occupied(index),
        index <= usize::MAX,
    ensures
        m.release(index).wf(),
        m.release(index).capacity() == m.capacity(),
        m.slots[index].unwrap().refs > 1 ==> m.release(index).live() == m.live() && m.release(
            index,
        ).occupied(index),
        m.slots[index].unwrap().refs <= 1 ==> m.release(index).live() == m.live() - 1
            && !m.release(index).occupied(index) && m.release(index).next_free() == index,
{
    let after = m.release(index);
    if m.slots[index].unwrap().refs > 1 {
        assert forall|i: int|
            0 <= i < after.slots.len() && (#[trigger] after.slots[i]) is None implies after.free.contains(
            i as usize,
        ) by {
            assert(m.slots[i] is None);
        }
    } else {
        assert forall|i: int|
            0 <= i < after.slots.len() && (#[trigger] after.slots[i]) is None implies after.free.contains(
            i as usize,
        ) by {
            if i == index {
                assert(after.free[m.free.len() as int] == index as usize);
            } else {
                assert(m.slots[i] is None);
                let k = choose|k: int| 0 <= k < m.free.len() && m.free[k] == i as usize;
                assert(after.free[k] == i as usize);
            }
        }
        assert forall|k: int, l: int| 0 <= k < l < after.free.len() implies #[trigger] after.free[k]
            != #[trigger] after.free[l] by {
            if l == m.free.len() {
                assert(after.free[k] == m.free[k]);
                assert(m.slots[m.free[k] as int] is None);
            }
        }
    }
}

/// Round trip: to allocate a resource and release its handle gives the arena
/// back as it was. The slot is on top of the free stack again, so the next
/// allocation takes it.
pub proof fn lemma_allocate_release_round_trip<T>(m: HeapModel<T>, resource: T)
    requires
        m.wf(),
        !m.full(),
    ensures
        m.allocate(resource).release(m.next_free()) == m,
        m.allocate(resource).release(m.next_free()).next_free() == m.next_free(),
{
    let after = m.allocate(resource).release(m.next_free());
    assert(after.slots =~= m.slots);
    assert(after.free =~= m.free);
}

/// Exhaustion: of the allocations made one after the other on a well-formed
/// arena, as many succeed as it has free slots, and each one after that finds
/// it full. On a new arena of capacity `n` the first `n` succeed and the next
/// one does not.
pub proof fn lemma_allocations_fill_the_arena<T>(m: HeapModel<T>, resources: Seq<T>)
    requires
        m.wf(),
    ensures
        m.try_allocate_all(resources).wf(),
        m.try_allocate_all(resources).capacity() == m.capacity(),
        m.live() + resources.len() <= m.capacity() ==> m.try_allocate_all(resources).live()
            == m.live() + resources.len(),
        m.live() + resources.len() >= m.capacity() ==> m.try_allocate_all(resources).full(),
    decreases resources.len(),
{
    lemma_free_within_capacity(m);
    if resources.len() > 0 {
        let before = m.try_allocate_all(resources.drop_last());
        lemma_allocations_fill_the_arena(m, resources.drop_last());
        lemma_free_within_capacity(before);
        if !before.full() {
            lemma_allocate_keeps_wf(before, resources.last());
            lemma_free_within_capacity(before.allocate(resources.last()));
        }
    }
}

/// An arena of reference-counted slots for resources of type `T`.
pub struct ResourceHeap<T> {
    range: AddressRange,
    slots: Vec<Option<Slot<T>>>,
    free: Vec<usize>,
}

impl<T> View for ResourceHeap<T> {
    type V = HeapModel<T>;

    closed spec fn view(&self) -> HeapModel<T> {
        HeapModel { slots: self.slots@, free: self.free@ }
    }
}

impl<T> ResourceHeap<T> {
    /// The addresses of the arena.
    pub closed spec fn spec_range(&self) -> AddressRange {
        self.range
    }

    /// The range has one slot for each slot of the arena, and the state is
    /// well formed.
    pub open spec fn wf(&self) -> bool {
        &&& self.spec_range().wf()
        &&& self.spec_range().slots == self@.slots.len()
        &&& self@.wf()
    }

    /// `addr` lies in the range of the arena.
    pub open spec fn spec_owns(&self, addr: usize) -> bool {
        self.spec_range().spec_contains(addr)
    }

    /// The occupied slot that `addr` is the handle of.
    pub open spec fn live_index(&self, addr: usize) -> Option<int> {
        match self.spec_range().spec_index_of(addr) {
            Some(index) => if self@.occupied(index) {
                Some(index)
            } else {
                None
            },
            None => None,
        }
    }

    /// An arena of `capacity` free slots whose handles are `stride` apart,
    /// the first of them `base`. There is none where a slot would be empty
    /// or the range would leave the address space.
    pub fn new(base: usize, stride: usize, capacity: usize) -> (r: Option<ResourceHeap<T>>)
        ensures
            r is Some <==> stride > 0 && base + capacity * stride <= usize::MAX,
            r is Some ==> r.unwrap().wf() && r.unwrap()@ == HeapModel::<T>::empty(capacity as nat)
                && r.unwrap().spec_range() == (AddressRange { base, stride, slots: capacity }),
    {
        let range = match AddressRange::new(base, stride, capacity) {
            Some(range) => range,
            None => {
                return None;
            },
        };
        let mut slots: Vec<Option<Slot<T>>> = Vec::new();
        let mut free: Vec<usize> = Vec::new();
        let mut made: usize = 0;
        while made < capacity
            invariant
                made <= capacity,
                slots@.len() == made,
                free@.len() == made,
                forall|i: int| 0 <= i < made ==> (#[trigger] slots@[i]) is None,
                forall|k: int| 0 <= k < made ==> (#[trigger] free@[k]) == capacity - 1 - k,
            decreases capacity - made,
        {
            slots.push(None);
            free.push(capacity - 1 - made);
            made = made + 1;
        }
        let heap = ResourceHeap { range, slots, free };
        proof {
            let model = HeapModel::<T>::empty(capacity as nat);
            assert(heap@.slots =~= model.slots);
            assert(heap@.free =~= model.free);
            lemma_empty_is_wf::<T>(capacity as nat);
        }
        Some(heap)
    }

    /// The addresses of the arena.
    pub fn range(&self) -> (r: AddressRange)
        ensures
            r == self.spec_range(),
    {
        self.range
    }

    /// The number of slots.
    pub fn capacity(&self) -> (n: usize)
        requires
            self.wf(),
        ensures
            n == self@.capacity(),
    {
        self.slots.len()
    }

    /// The number of occupied slots.
    pub fn live(&self) -> (n: usize)
        requires
            self.wf(),
        ensures
            n == self@.live(),
    {
        proof {
            lemma_free_within_capacity(self@);
        }
        self.slots.len() - self.free.len()
    }

    /// Whether `addr` lies in the range of the arena. Nothing is
    /// dereferenced.
    pub fn owns_address(&self, addr: usize) -> (b: bool)
        requires
            self.wf(),
        ensures
            b == self.spec_owns(addr),
    {
        self.range.contains(addr)
    }

    /// Puts `resource` into the free slot that was released last, or, where
    /// none was released, into the first slot that was never used, with a
    /// count of one, and returns the handle of the slot. Fails when no free
    /// slot remains, and then leaves the arena as it is.
    pub fn allocate(&mut self, resource: T) -> (r: Result<Handle, OutOfMemory>)
        requires
            old(self).wf(),
        ensures
            final(self).wf(),
            final(self).spec_range() == old(self).spec_range(),
            final(self)@ == old(self)@.try_allocate(resource),
            r is Err <==> old(self)@.full(),
            r is Ok ==> r.unwrap().0 == old(self).spec_range().spec_address_of(
                old(self)@.next_free(),
            ) && final(self).spec_owns(r.unwrap().0) && final(self).live_index(r.unwrap().0)
                == Some(old(self)@.next_free()),
    {
        let ghost before = self@;
        match self.free.pop() {
            None => Err(OutOfMemory),
            Some(index) => {
                proof {
                    lemma_allocate_keeps_wf(before, resource);
                    assert(before.free[before.free.len() - 1] == index);
                }
                self.slots.set(index, Some(Slot { resource, refs: 1 }));
                let addr = self.range.address_of(index);
                Ok(Handle(addr))
            },
        }
    }

    /// The slot of a live handle.
    fn slot_of(&self, addr: usize) -> (r: Option<usize>)
        requires
            self.wf(),
        ensures
            r is Some <==> self.live_index(addr) is Some,
            r is Some ==> r.unwrap() == self.live_index(addr).unwrap() && r.unwrap()
                < self@.slots.len(),
    {
        match self.range.index_of(addr) {
            None => None,
            Some(index) => {
                if self.slots[index].is_some() {
                    Some(index)
                } else {
                    None
                }
            },
        }
    }

    /// The count of the resource that `addr` is the handle of.
    pub fn ref_count(&self, addr: usize) -> (r: Option<usize>)
        requires
            self.wf(),
        ensures
            r is Some <==> self.live_index(addr) is Some,
            r is Some ==> r.unwrap() == self@.slots[self.live_index(addr).unwrap()].unwrap().refs,
    {
        match self.slot_of(addr) {
            None => None,
            Some(index) => match &self.slots[index] {
                Some(slot) => Some(slot.refs),
                None => None,
            },
        }
    }

    /// Counts one more reference to the resource that `addr` is the handle
    /// of. Returns whether it did: not where `addr` is no live handle of this
    /// arena, nor where the count could not be held.
    pub fn retain(&mut self, addr: usize) -> (b: bool)
        requires
            old(self).wf(),
        ensures
            final(self).wf(),
            final(self).spec_range() == old(self).spec_range(),
            b <==> old(self).live_index(addr) is Some && old(self)@.slots[old(self).live_index(
                addr,
            ).unwrap()].unwrap().refs < usize::MAX,
            b ==> final(self)@ == old(self)@.retain(old(self).live_index(addr).unwrap()),
            !b ==> final(self)@ == old(self)@,
    {
        let index = match self.slot_of(addr) {
            Some(index) => index,
            None => {
                return false;
            },
        };
        let ghost before = self@;
        let mut taken: Option<Slot<T>> = None;
        self.slots.set_and_swap(index, &mut taken);
        match taken {
            Some(slot) => {
                if slot.refs < usize::MAX {
                    self.slots.set(index, Some(Slot { resource: slot.resource, refs: slot.refs + 1 }));
                    proof {
                        assert(self@.slots =~= before.retain(index as int).slots);
                        assert forall|i: int|
                            0 <= i < self@.slots.len() && (#[trigger] self@.slots[i]) is None implies self@.free.contains(
                            i as usize,
                        ) by {
                            assert(before.slots[i] is None);
                        }
                    }
                    true
                } else {
                    self.slots.set(index, Some(slot));
                    proof {
                        assert(self@.slots =~= before.slots);
                    }
                    false
                }
            },
            None => {
                proof {
                    assert(self@.slots =~= before.slots);
                }
                false
            },
        }
    }

    /// Takes one reference from the resource that `addr` is the handle of.
    /// When the last one goes, the slot returns to the free slots and the
    /// resource is handed back for teardown. An address that is no live
    /// handle of this arena changes nothing.
    pub fn release(&mut self, addr: usize) -> (r: Released<T>)
        requires
            old(self).wf(),
        ensures
            final(self).wf(),
            old(self).released(addr, final(self), r),
            final(self).spec_range() == old(self).spec_range(),
            match old(self).live_index(addr) {
                None => r is Unknown && final(self)@ == old(self)@,
                Some(index) => {
                    let slot = old(self)@.slots[index].unwrap();
                    &&& final(self)@ == old(self)@.release(index)
                    &&& slot.refs > 1 ==> r == Released::<T>::Shared((slot.refs - 1) as usize)
                    &&& slot.refs == 1 ==> r == Released::Freed(slot.resource)
                },
            },
    {
        let index = match self.slot_of(addr) {
            Some(index) => index,
            None => {
                return Released::Unknown;
            },
        };
        let ghost before = self@;
        proof {
            lemma_release_keeps_wf(before, index as int);
        }
        let mut taken: Option<Slot<T>> = None;
        self.slots.set_and_swap(index, &mut taken);
        match taken {
            Some(slot) => {
                if slot.refs > 1 {
                    let left = slot.refs - 1;
                    self.slots.set(index, Some(Slot { resource: slot.resource, refs: left }));
                    proof {
                        assert(self@.slots =~= before.release(index as int).slots);
                    }
                    Released::Shared(left)
                } else {
                    self.free.push(index);
                    proof {
                        assert(self@.slots =~= before.release(index as int).slots);
                    }
                    Released::Freed(slot.resource)
                }
            },
            None => {
                proof {
                    assert(self@.slots =~= before.slots);
                }
                Released::Unknown
            },
        }
    }

    /// `after` is this arena after one reference was taken from the
    /// resource that `addr` is the handle of, and `r` is what that release
    /// did: the count is one lower, or, where it was one, the slot is free
    /// and the resource is handed back. An address that is no live handle of
    /// the arena changes nothing.
    pub open spec fn released(&self, addr: usize, after: &ResourceHeap<T>, r: Released<T>) -> bool {
        &&& after.spec_range() == self.spec_range()
        &&& match self.live_index(addr) {
            None => r is Unknown && after@ == self@,
            Some(index) => {
                let slot = self@.slots[index].unwrap();
                &&& after@ == self@.release(index)
                &&& slot.refs > 1 ==> r == Released::<T>::Shared((slot.refs - 1) as usize)
                &&& slot.refs == 1 ==> r == Released::Freed(slot.resource)
            },
        }
    }

    /// The arena with `resource` in place of the resource of slot `index`.
    pub open spec fn with_resource(&self, index: int, resource: T) -> HeapModel<T> {
        HeapModel {
            slots: self@.slots.update(
                index,
                Some(Slot { resource, refs: self@.slots[index].unwrap().refs }),
            ),
            free: self@.free,
        }
    }

    /// A mutable reference to the resource that `handle` names, if it is
    /// live in this arena, for effects that update a resource in place.
    /// Whatever is written through it, the slot keeps its count and the
    /// other slots stay as they are.
    pub fn project(&mut self, handle: Handle) -> (r: Option<&mut T>)
        requires
            old(self).wf(),
        ensures
            final(self).wf(),
            final(self).spec_range() == old(self).spec_range(),
            r is Some <==> old(self).live_index(handle.0) is Some,
            r is None ==> final(self)@ == old(self)@,
            r is Some ==> *r.unwrap() == old(self)@.slots[old(self).live_index(
                handle.0,
            ).unwrap()].unwrap().resource && final(self)@ == old(self).with_resource(
                old(self).live_index(handle.0).unwrap(),
                *final(r.unwrap()),
            ),
    {
        let index = match self.slot_of(handle.0) {
            Some(index) => index,
            None => {
                return None;
            },
        };
        match &mut self.slots[index] {
            Some(slot) => Some(&mut slot.resource),
            None => None,
        }
    }

    /// The resource that `handle` names, if it is live in this arena.
    pub fn get(&self, handle: Handle) -> (r: Option<&T>)
        requires
            self.wf(),
        ensures
            r is Some <==> self.live_index(handle.0) is Some,
            r is Some ==> *r.unwrap() == self@.slots[self.live_index(
                handle.0,
            ).unwrap()].unwrap().resource,
    {
        match self.slot_of(handle.0) {
            None => None,
            Some(index) => match &self.slots[index] {
                Some(slot) => Some(&slot.resource),
                None => None,
            },
        }
    }
}

/// Round trip: the handle that an allocation returns is owned by the arena
/// and names the resource that went in, with a count of one.
pub proof fn lemma_allocated_handle_names_the_resource<T>(
    before: &ResourceHeap<T>,
    after: &ResourceHeap<T>,
    resource: T,
    handle: Handle,
)
    requires
        before.wf(),
        !before@.full(),
        after.spec_range() == before.spec_range(),
        after@ == before@.try_allocate(resource),
        handle.0 == before.spec_range().spec_address_of(before@.next_free()),
    ensures
        after.wf(),
        after.spec_owns(handle.0),
        after.live_index(handle.0) == Some(before@.next_free()),
        after@.slots[after.live_index(handle.0).unwrap()] == Some(Slot { resource, refs: 1 }),
{
    lemma_allocate_keeps_wf(before@, resource);
    before.spec_range().lemma_address_in_range(before@.next_free());
}

/// A live handle of an arena lies in the range of the arena, and an address
/// outside the range is no handle of it.
pub proof fn lemma_live_handle_is_owned<T>(heap: &ResourceHeap<T>, addr: usize)
    requires
        heap.wf(),
    ensures
        heap.live_index(addr) is Some ==> heap.spec_owns(addr),
        !heap.spec_owns(addr) ==> heap.live_index(addr) is None,
{
}

/// An arena does not own the handles of another arena whose range shares no
/// address with its own, and does not take them for handles of its own.
pub proof fn lemma_handle_of_other_arena_is_not_owned<T, U>(
    heap: &ResourceHeap<T>,
    other: &ResourceHeap<U>,
    addr: usize,
)
    requires
        heap.wf(),
        other.wf(),
        heap.spec_range().disjoint(other.spec_range()),
        other.live_index(addr) is Some,
    ensures
        !heap.spec_owns(addr),
        heap.live_index(addr) is None,
{
}

} // verus!
