//! The arena of music streams and the registry of the streams that play.
//!
//! A music stream has to be advanced once in each frame for as long as it
//! lives. The registry holds the handle of each live stream, apart from the
//! counting of references, so that the sweep of a frame finds the streams
//! without looking into the slots. A handle enters the registry when its
//! stream is allocated and leaves it exactly when the slot is released.

use vstd::prelude::*;
use crate::address::AddressRange;
use crate::heap::{
    lemma_allocate_keeps_wf, lemma_release_keeps_wf, Handle, HeapModel, OutOfMemory, Released,
    ResourceHeap,
};

verus! {

/// No handle stands twice in the sequence.
pub open spec fn no_duplicates(handles: Seq<Handle>) -> bool {
    forall|i: int, j: int|
        0 <= i < j < handles.len() ==> #[trigger] handles[i] != #[trigger] handles[j]
}

/// Where `handle` stands in the sequence.
pub open spec fn place_of(handles: Seq<Handle>, handle: Handle) -> int {
    choose|k: int| 0 <= k < handles.len() && handles[k] == handle
}

/// The sequence without the handle at `at`: the last handle takes its place.
pub open spec fn swap_removed(handles: Seq<Handle>, at: int) -> Seq<Handle> {
    handles.update(at, handles.last()).drop_last()
}

/// The arena of music streams with its registry.
pub struct MusicStreams<T> {
    heap: ResourceHeap<T>,
    streams: Vec<Handle>,
}

impl<T> MusicStreams<T> {
    /// The arena.
    pub closed spec fn spec_heap(&self) -> ResourceHeap<T> {
        self.heap
    }

    /// The handles of the streams to advance, in the order of the sweep.
    pub closed spec fn registry(&self) -> Seq<Handle> {
        self.streams@
    }

    /// The arena is well formed, and the registry holds each live handle of
    /// the arena once and nothing else.
    pub open spec fn wf(&self) -> bool {
        &&& self.spec_heap().wf()
        &&& no_duplicates(self.registry())
        &&& forall|handle: Handle|
            self.registry().contains(handle) <==> (#[trigger] self.spec_heap().live_index(
                handle.0,
            )) is Some
    }

    /// `after` is this arena after one reference was taken from the music
    /// stream that `addr` is the handle of, and `r` is what that release
    /// did. Where the last reference went, the handle has left the registry
    /// and the last handle of the registry stands in its place.
    pub open spec fn released(&self, addr: usize, after: &MusicStreams<T>, r: Released<T>) -> bool {
        &&& self.spec_heap().released(addr, &after.spec_heap(), r)
        &&& after.registry() == if r is Freed {
            swap_removed(self.registry(), place_of(self.registry(), Handle(addr)))
        } else {
            self.registry()
        }
    }

    /// An arena of `capacity` music streams without a stream, unless a slot
    /// would be empty or the range would leave the address space.
    pub fn new(base: usize, stride: usize, capacity: usize) -> (streams: Option<MusicStreams<T>>)
        ensures
            streams is Some <==> stride > 0 && base + capacity * stride <= usize::MAX,
            streams is Some ==> streams.unwrap().wf() && streams.unwrap().registry().len() == 0
                && streams.unwrap().spec_heap()@ == HeapModel::<T>::empty(capacity as nat)
                && streams.unwrap().spec_heap().spec_range() == (AddressRange {
                base,
                stride,
                slots: capacity,
            }),
    {
        match ResourceHeap::new(base, stride, capacity) {
            None => None,
            Some(heap) => {
                let streams = MusicStreams { heap, streams: Vec::new() };
                proof {
                    assert forall|handle: Handle|
                        streams.registry().contains(handle) <==> (
                        #[trigger] streams.spec_heap().live_index(handle.0)) is Some by {
                        let index = streams.spec_heap().spec_range().spec_index_of(handle.0);
                        if index is Some {
                            streams.spec_heap().spec_range().lemma_index_in_range(handle.0);
                        }
                    }
                }
                Some(streams)
            },
        }
    }

    /// The arena.
    pub fn heap(&self) -> (heap: &ResourceHeap<T>)
        ensures
            *heap == self.spec_heap(),
    {
        &self.heap
    }

    /// Puts a music stream into the arena and its handle into the registry.
    /// Fails when the arena is full, and then changes nothing.
    pub fn alloc_music_stream(&mut self, music: T) -> (r: Result<Handle, OutOfMemory>)
        requires
            old(self).wf(),
        ensures
            final(self).wf(),
            final(self).spec_heap().spec_range() == old(self).spec_heap().spec_range(),
            final(self).spec_heap()@ == old(self).spec_heap()@.try_allocate(music),
            r is Err <==> old(self).spec_heap()@.full(),
            r is Err ==> final(self).registry() == old(self).registry(),
            r is Ok ==> final(self).registry() == old(self).registry().push(r.unwrap())
                && final(self).spec_heap().live_index(r.unwrap().0) == Some(
                old(self).spec_heap()@.next_free(),
            ),
    {
        let ghost before = self.spec_heap();
        let ghost listed = self.streams@;
        match self.heap.allocate(music) {
            Err(full) => {
                proof {
                    assert forall|other: Handle|
                        self.registry().contains(other) <==> (
                        #[trigger] self.spec_heap().live_index(other.0)) is Some by {
                        assert(self.spec_heap().live_index(other.0) == before.live_index(
                            other.0,
                        ));
                    }
                }
                Err(full)
            },
            Ok(handle) => {
                proof {
                    lemma_allocate_keeps_wf(before@, music);
                    assert(before.live_index(handle.0) is None);
                    assert(!listed.contains(handle));
                }
                self.streams.push(handle);
                proof {
                    let taken = before@.next_free();
                    assert(no_duplicates(self.streams@)) by {
                        assert forall|i: int, j: int| 0 <= i < j < self.streams@.len() implies (
                        #[trigger] self.streams@[i]) != (#[trigger] self.streams@[j]) by {
                            if j == listed.len() {
                                assert(listed[i] == self.streams@[i]);
                                assert(listed.contains(listed[i]));
                            } else {
                                assert(listed[i] != listed[j]);
                            }
                        }
                    }
                    assert forall|other: Handle|
                        self.registry().contains(other) <==> (
                        #[trigger] self.spec_heap().live_index(other.0)) is Some by {
                        let index = before.spec_range().spec_index_of(other.0);
                        if other == handle {
                            assert(self.streams@[listed.len() as int] == handle);
                        } else {
                            if index is Some {
                                before.spec_range().lemma_index_in_range(other.0);
                                before.spec_range().lemma_index_in_range(handle.0);
                                assert(index.unwrap() != taken);
                            }
                            assert(self.spec_heap().live_index(other.0) == before.live_index(
                                other.0,
                            ));
                            if listed.contains(other) {
                                let k = choose|k: int| 0 <= k < listed.len() && listed[k] == other;
                                assert(self.streams@[k] == other);
                            }
                            if self.streams@.contains(other) {
                                let k = choose|k: int|
                                    0 <= k < self.streams@.len() && self.streams@[k] == other;
                                assert(listed[k] == other);
                            }
                        }
                    }
                }
                Ok(handle)
            },
        }
    }

    /// The place of a handle in the registry.
    fn find(&self, handle: Handle) -> (at: Option<usize>)
        ensures
            at is Some <==> self.registry().contains(handle),
            at is Some ==> at.unwrap() < self.registry().len() && self.registry()[at.unwrap() as int]
                == handle,
    {
        let mut i: usize = 0;
        while i < self.streams.len()
            invariant
                i <= self.streams@.len(),
                forall|k: int| 0 <= k < i ==> self.streams@[k] != handle,
            decreases self.streams@.len() - i,
        {
            if self.streams[i].0 == handle.0 {
                return Some(i);
            }
            i = i + 1;
        }
        None
    }

    /// Takes one reference from the music stream that `addr` is the handle
    /// of. When the last one goes, the handle leaves the registry, where the
    /// last handle takes its place, and the stream is handed back, for the
    /// caller to unload. An address that is no live handle of this arena
    /// changes nothing.
    pub fn release(&mut self, addr: usize) -> (r: Released<T>)
        requires
            old(self).wf(),
        ensures
            final(self).wf(),
            old(self).released(addr, final(self), r),
            final(self).spec_heap().spec_range() == old(self).spec_heap().spec_range(),
            match old(self).spec_heap().live_index(addr) {
                None => r is Unknown && final(self).spec_heap()@ == old(self).spec_heap()@
                    && final(self).registry() == old(self).registry(),
                Some(index) => {
                    let slot = old(self).spec_heap()@.slots[index].unwrap();
                    &&& final(self).spec_heap()@ == old(self).spec_heap()@.release(index)
                    &&& slot.refs > 1 ==> r == Released::<T>::Shared((slot.refs - 1) as usize)
                        && final(self).registry() == old(self).registry()
                    &&& slot.refs == 1 ==> r == Released::Freed(slot.resource)
                        && !final(self).registry().contains(Handle(addr))
                        && final(self).registry() == swap_removed(
                        old(self).registry(),
                        place_of(old(self).registry(), Handle(addr)),
                    )
                },
            },
    {
        let ghost before = self.spec_heap();
        let ghost listed = self.streams@;
        let released = self.heap.release(addr);
        match released {
            Released::Freed(music) => {
                let handle = Handle(addr);
                let ghost index = before.live_index(addr).unwrap();
                proof {
                    before.spec_range().lemma_index_in_range(addr);
                    lemma_release_keeps_wf(before@, index);
                    assert(before.live_index(handle.0) is Some);
                    assert(listed.contains(handle));
                }
                match self.find(handle) {
                    Some(at) => {
                        self.streams.swap_remove(at);
                        proof {
                            assert(listed[at as int] == handle && self.streams@ == swap_removed(
                                listed,
                                at as int,
                            ));
                        }
                    },
                    None => {},
                }
                proof {
                    let after = self.streams@;
                    let at = place_of(listed, handle);
                    assert(after == swap_removed(listed, at)) by {
                        let found = choose|k: int|
                            0 <= k < listed.len() && listed[k] == handle && after
                                == swap_removed(listed, k);
                        if found < at {
                            assert(listed[found] != listed[at]);
                        } else if at < found {
                            assert(listed[at] != listed[found]);
                        }
                    }
                    assert(after.len() == listed.len() - 1);
                    assert forall|k: int| 0 <= k < after.len() implies (#[trigger] after[k])
                        != handle && listed.contains(after[k]) by {
                        let from = if after[k] == listed[k] {
                            k
                        } else {
                            listed.len() - 1
                        };
                        assert(after[k] == listed[from]);
                        if listed[from] == handle {
                            if from < at {
                                assert(listed[from] != listed[at]);
                            } else if at < from {
                                assert(listed[at] != listed[from]);
                            }
                        }
                    }
                    assert(no_duplicates(after)) by {
                        assert forall|i: int, j: int| 0 <= i < j < after.len() implies (
                        #[trigger] after[i]) != (#[trigger] after[j]) by {
                            let last = listed.len() - 1;
                            if after[i] != listed[i] {
                                assert(after[i] == listed[last]);
                                assert(after[j] == listed[j]);
                                assert(listed[j] != listed[last]);
                            } else if after[j] != listed[j] {
                                assert(after[j] == listed[last]);
                                assert(listed[i] != listed[last]);
                            } else {
                                assert(listed[i] != listed[j]);
                            }
                        }
                    }
                    assert forall|other: Handle|
                        self.registry().contains(other) <==> (
                        #[trigger] self.spec_heap().live_index(other.0)) is Some by {
                        let slot = before.spec_range().spec_index_of(other.0);
                        if other == handle {
                            if after.contains(other) {
                                let k = choose|k: int| 0 <= k < after.len() && after[k] == other;
                                assert(after[k] != handle);
                            }
                        } else {
                            if slot is Some {
                                before.spec_range().lemma_index_in_range(other.0);
                                before.spec_range().lemma_index_in_range(addr);
                                assert(slot.unwrap() != index);
                            }
                            assert(self.spec_heap().live_index(other.0) == before.live_index(
                                other.0,
                            ));
                            if after.contains(other) {
                                let k = choose|k: int| 0 <= k < after.len() && after[k] == other;
                                assert(listed.contains(after[k]));
                            }
                            if listed.contains(other) {
                                let k = choose|k: int| 0 <= k < listed.len() && listed[k] == other;
                                let last = listed.len() - 1;
                                if k == last {
                                    assert(at != last);
                                    assert(after[at] == other);
                                } else {
                                    assert(k != at);
                                    assert(after[k] == other);
                                }
                            }
                        }
                    }
                    if after.contains(handle) {
                        let k = choose|k: int| 0 <= k < after.len() && after[k] == handle;
                        assert(after[k] != handle);
                    }
                }
                Released::Freed(music)
            },
            Released::Shared(left) => {
                proof {
                    let index = before.live_index(addr).unwrap();
                    before.spec_range().lemma_index_in_range(addr);
                    lemma_release_keeps_wf(before@, index);
                    assert forall|other: Handle|
                        self.registry().contains(other) <==> (
                        #[trigger] self.spec_heap().live_index(other.0)) is Some by {
                        let slot = before.spec_range().spec_index_of(other.0);
                        if slot is Some {
                            before.spec_range().lemma_index_in_range(other.0);
                        }
                        assert((self.spec_heap().live_index(other.0) is Some) == (
                        before.live_index(other.0) is Some));
                    }
                }
                Released::Shared(left)
            },
            Released::Unknown => {
                proof {
                    assert forall|other: Handle|
                        self.registry().contains(other) <==> (
                        #[trigger] self.spec_heap().live_index(other.0)) is Some by {
                        assert(self.spec_heap().live_index(other.0) == before.live_index(
                            other.0,
                        ));
                    }
                }
                Released::Unknown
            },
        }
    }

    /// The handles of the streams to advance in this frame: each live
    /// stream of the arena, once.
    pub fn update_music_streams(&self) -> (handles: Vec<Handle>)
        requires
            self.wf(),
        ensures
            handles@ == self.registry(),
            forall|i: int|
                0 <= i < handles@.len() ==> (#[trigger] self.spec_heap().live_index(
                    handles@[i].0,
                )) is Some,
    {
        let mut handles: Vec<Handle> = Vec::new();
        let mut i: usize = 0;
        while i < self.streams.len()
            invariant
                i <= self.streams@.len(),
                handles@ == self.streams@.take(i as int),
            decreases self.streams@.len() - i,
        {
            handles.push(self.streams[i]);
            i = i + 1;
            proof {
                assert(handles@ =~= self.streams@.take(i as int));
            }
        }
        proof {
            assert(self.streams@.take(i as int) =~= self.streams@);
            assert forall|k: int| 0 <= k < handles@.len() implies (
            #[trigger] self.spec_heap().live_index(handles@[k].0)) is Some by {
                assert(self.registry().contains(handles@[k]));
            }
        }
        handles
    }
}

} // verus!
