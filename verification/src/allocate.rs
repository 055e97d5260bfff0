//! Stream-id allocation: handing out and recycling 16-bit ids, partitioned by
//! role (odd ids are client-originated, even ids server-originated).

use std::collections::VecDeque;

use vstd::prelude::*;

use crate::consts::{MultiplexerMode, StreamId, ODD_STREAM_ID_START};
use crate::error::Error;

verus! {

/// The mathematical state of an allocator: its starting id, the counter the
/// next fresh id comes from, and the FIFO free list of recycled ids.
pub struct AllocatorView {
    pub start: StreamId,
    pub curr: StreamId,
    pub free_list: Seq<StreamId>,
}

impl AllocatorView {
    /// Every id this allocator touches keeps the parity of its starting id,
    /// and the free list holds only locally originated ids.
    pub open spec fn wf(self) -> bool {
        &&& self.curr % 2 == self.start % 2
        &&& forall|i: int|
            0 <= i < self.free_list.len() ==> (#[trigger] self.free_list[i]) % 2 == self.start % 2
    }

    /// How `alloc` steps the state: the free list is preferred, FIFO;
    /// otherwise the counter supplies a fresh id and advances by two, unless
    /// the next step would leave the 16-bit space.
    pub open spec fn spec_alloc(self) -> (AllocatorView, Result<StreamId, Error>) {
        if self.free_list.len() > 0 {
            (
                AllocatorView { free_list: self.free_list.drop_first(), ..self },
                Ok(self.free_list[0]),
            )
        } else if self.curr > 0xFFFF - 2 {
            (self, Err(Error::StreamLimitExceeded))
        } else {
            (AllocatorView { curr: (self.curr + 2) as StreamId, ..self }, Ok(self.curr))
        }
    }

    /// How `free` steps the state: an id of the local parity is appended to
    /// the free list; an id of the peer's parity is ignored.
    pub open spec fn spec_free(self, stream_id: StreamId) -> AllocatorView {
        if stream_id % 2 == self.start % 2 {
            AllocatorView { free_list: self.free_list.push(stream_id), ..self }
        } else {
            self
        }
    }
}

/// Hands out and recycles stream ids for one session.
///
/// Fresh ids come from a counter stepped by two, so every id keeps the
/// parity of the starting id; ids the session has finished with return
/// through a FIFO free list and are preferred on the next allocation.
pub struct StreamIdAllocator {
    mode: MultiplexerMode,
    curr: StreamId,
    free_list: VecDeque<StreamId>,
}

impl View for StreamIdAllocator {
    type V = AllocatorView;

    closed spec fn view(&self) -> AllocatorView {
        AllocatorView {
            start: self.mode.spec_starting_id(),
            curr: self.curr,
            free_list: self.free_list@,
        }
    }
}

impl StreamIdAllocator {
    /// A fresh allocator for the given role: counter at the role's starting
    /// id, empty free list.
    pub fn new(m: &MultiplexerMode) -> (r: Self)
        ensures
            r@ == (AllocatorView {
                start: m.spec_starting_id(),
                curr: m.spec_starting_id(),
                free_list: Seq::<StreamId>::empty(),
            }),
            r@.wf(),
    {
        let start = m.get_starting_id();
        let r = Self { mode: *m, curr: start, free_list: VecDeque::new() };
        proof {
            assert(r@.free_list =~= Seq::<StreamId>::empty());
        }
        r
    }

    /// Allocate an id: the oldest recycled id if any, else a fresh one.
    /// Fails with `StreamLimitExceeded` once the counter would pass
    /// `u16::MAX - 1`.
    pub fn allocate(&mut self) -> (r: Result<StreamId, Error>)
        ensures
            (final(self)@, r) == old(self)@.spec_alloc(),
            old(self)@.wf() ==> final(self)@.wf(),
            old(self)@.wf() ==> match r {
                Ok(id) => id % 2 == old(self)@.start % 2,
                Err(e) => e == Error::StreamLimitExceeded,
            },
    {
        if let Some(id) = self.free_list.pop_front() {
            proof {
                if old(self)@.wf() {
                    assert(id == old(self)@.free_list[0]);
                    assert(id % 2 == old(self)@.start % 2);
                    assert forall|i: int| 0 <= i < self@.free_list.len() implies (
                    #[trigger] self@.free_list[i]) % 2 == self@.start % 2 by {
                        assert(self@.free_list[i] == old(self)@.free_list[i + 1]);
                    }
                }
            }
            return Ok(id);
        }

        if self.curr > 0xFFFF - 2 {
            return Err(Error::StreamLimitExceeded);
        }

        let id = self.curr;
        self.curr = self.curr + 2;
        Ok(id)
    }

    /// Recycle an id. Ids whose parity disagrees with the starting id were
    /// originated by the peer and are ignored; the rest join the free list.
    pub fn free(&mut self, stream_id: StreamId)
        ensures
            final(self)@ == old(self)@.spec_free(stream_id),
            old(self)@.wf() ==> final(self)@.wf(),
    {
        let is_odd = ((stream_id >> 1u16) << 1u16) != stream_id;
        let starts_odd = self.mode.get_starting_id() == ODD_STREAM_ID_START;
        proof {
            assert(is_odd == (stream_id % 2 == 1)) by (bit_vector)
                requires
                    is_odd == (((stream_id >> 1u16) << 1u16) != stream_id),
            ;
        }
        if starts_odd != is_odd {
            return ;
        }

        self.free_list.push_back(stream_id);
    }
}

/// Law: in client mode every allocated id is odd; in server mode, even.
pub proof fn lemma_alloc_parity(v: AllocatorView)
    requires
        v.wf(),
        v.spec_alloc().1 is Ok,
    ensures
        v.start == 1 ==> (v.spec_alloc().1 matches Ok(id) && id % 2 == 1),
        v.start == 2 ==> (v.spec_alloc().1 matches Ok(id) && id % 2 == 0),
{
}

/// Law: freeing an id whose parity disagrees with the allocator's mode is a
/// no-op.
pub proof fn lemma_free_foreign_parity_noop(v: AllocatorView, stream_id: StreamId)
    requires
        stream_id % 2 != v.start % 2,
    ensures
        v.spec_free(stream_id) == v,
{
}

/// Law: a recycled id becomes available again. Once an id of the local
/// parity is freed, allocations succeed until it is handed out anew; with an
/// empty free list the very next allocation returns it.
pub proof fn lemma_freed_id_reusable(v: AllocatorView, stream_id: StreamId)
    requires
        v.wf(),
        v.free_list.len() == 0,
        stream_id % 2 == v.start % 2,
    ensures
        v.spec_free(stream_id).spec_alloc().1 == Ok::<StreamId, Error>(stream_id),
        v.spec_free(stream_id).spec_alloc().0 == v,
{
    let v1 = v.spec_free(stream_id);
    assert(v1.free_list == Seq::<StreamId>::empty().push(stream_id));
    assert(v1.free_list[0] == stream_id);
    assert(v1.free_list.drop_first() =~= v.free_list);
}

} // verus!
