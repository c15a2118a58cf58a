use vstd::prelude::*;

verus! {

/// The contents of a one-value handoff cell, with at most one parked waiter
/// per role. `W` is whatever the caller uses to resume a suspended task.
pub enum Slot<T, W> {
    /// No value is present; `read_waker` is the reader waiting for one.
    Empty { read_waker: Option<W> },
    /// One value is present. `ready_waker` is the writer waiting to write
    /// again, `flush_waker` the writer waiting for the value to be consumed.
    Item { item: T, ready_waker: Option<W>, flush_waker: Option<W> },
}

/// What a read attempt found.
pub enum ReadPoll<T, W> {
    /// The slot is empty and the writer is still there: the reader is parked.
    Pending,
    /// The slot is empty and the writer is gone: no value will ever come.
    Closed,
    /// The value was taken; the parked writers, if any, are to be woken.
    Ready { item: T, wake_writer: Option<W>, wake_flusher: Option<W> },
}

/// The state shared by the writing and the reading half of a rendezvous
/// channel: the slot, and whether the writing half has been dropped.
pub struct SinkState<T, W> {
    pub slot: Slot<T, W>,
    pub writer_closed: bool,
}

impl<T, W> SinkState<T, W> {
    /// A writer may write exactly while the slot is empty.
    pub open spec fn writable(&self) -> bool {
        self.slot is Empty
    }

    /// The last written value has been consumed exactly while the slot is empty.
    pub open spec fn flushed(&self) -> bool {
        self.slot is Empty
    }

    /// The reader parked on the empty slot, if any.
    pub open spec fn parked_reader(&self) -> Option<W> {
        match self.slot {
            Slot::Empty { read_waker } => read_waker,
            Slot::Item { .. } => None,
        }
    }

    pub open spec fn after_poll_ready(self, waker: W) -> Self {
        match self.slot {
            Slot::Empty { .. } => self,
            Slot::Item { item, flush_waker, .. } => SinkState {
                slot: Slot::Item { item, ready_waker: Some(waker), flush_waker },
                writer_closed: self.writer_closed,
            },
        }
    }

    pub open spec fn after_poll_flush(self, waker: W) -> Self {
        match self.slot {
            Slot::Empty { .. } => self,
            Slot::Item { item, ready_waker, .. } => SinkState {
                slot: Slot::Item { item, ready_waker, flush_waker: Some(waker) },
                writer_closed: self.writer_closed,
            },
        }
    }

    pub open spec fn after_send(self, item: T) -> Self {
        SinkState {
            slot: Slot::Item { item, ready_waker: None, flush_waker: None },
            writer_closed: self.writer_closed,
        }
    }

    pub open spec fn after_writer_dropped(self) -> Self {
        match self.slot {
            Slot::Empty { .. } => SinkState { slot: Slot::Empty { read_waker: None }, writer_closed: true },
            Slot::Item { .. } => SinkState { slot: self.slot, writer_closed: true },
        }
    }

    /// What a read attempt on this state reports.
    pub open spec fn read_outcome(self) -> ReadPoll<T, W> {
        match self.slot {
            Slot::Empty { .. } => if self.writer_closed {
                ReadPoll::Closed
            } else {
                ReadPoll::Pending
            },
            Slot::Item { item, ready_waker, flush_waker } => ReadPoll::Ready {
                item,
                wake_writer: ready_waker,
                wake_flusher: flush_waker,
            },
        }
    }

    /// A read attempt always leaves the slot empty with the reader registered.
    pub open spec fn after_poll_next(self, waker: W) -> Self {
        SinkState { slot: Slot::Empty { read_waker: Some(waker) }, writer_closed: self.writer_closed }
    }

    /// A fresh channel: empty, nobody parked, the writer present.
    pub fn new() -> (r: Self)
        ensures
            r.slot == (Slot::<T, W>::Empty { read_waker: None }),
            !r.writer_closed,
    {
        SinkState { slot: Slot::Empty { read_waker: None }, writer_closed: false }
    }

    /// Whether a write is allowed now, without registering anyone.
    pub fn is_writable(&self) -> (r: bool)
        ensures
            r == self.writable(),
    {
        match &self.slot {
            Slot::Empty { .. } => true,
            Slot::Item { .. } => false,
        }
    }

    /// Whether the writer may write now; if not, `waker` becomes the parked
    /// writer, replacing any earlier one.
    pub fn poll_ready(&mut self, waker: W) -> (r: bool)
        ensures
            r == old(self).writable(),
            *final(self) == old(self).after_poll_ready(waker),
    {
        let mut cur = Slot::Empty { read_waker: None };
        std::mem::swap(&mut self.slot, &mut cur);
        match cur {
            Slot::Empty { read_waker } => {
                self.slot = Slot::Empty { read_waker };
                true
            },
            Slot::Item { item, flush_waker, .. } => {
                self.slot = Slot::Item { item, ready_waker: Some(waker), flush_waker };
                false
            },
        }
    }

    /// Places `item` in the empty slot and hands back the parked reader,
    /// which is to be woken.
    pub fn start_send(&mut self, item: T) -> (r: Option<W>)
        requires
            old(self).writable(),
        ensures
            r == old(self).parked_reader(),
            *final(self) == old(self).after_send(item),
    {
        let mut cur = Slot::Item { item, ready_waker: None, flush_waker: None };
        std::mem::swap(&mut self.slot, &mut cur);
        match cur {
            Slot::Empty { read_waker } => read_waker,
            Slot::Item { .. } => None,
        }
    }

    /// Whether the last written value has been consumed; if not, `waker`
    /// becomes the parked flusher, replacing any earlier one.
    pub fn poll_flush(&mut self, waker: W) -> (r: bool)
        ensures
            r == old(self).flushed(),
            *final(self) == old(self).after_poll_flush(waker),
    {
        let mut cur = Slot::Empty { read_waker: None };
        std::mem::swap(&mut self.slot, &mut cur);
        match cur {
            Slot::Empty { read_waker } => {
                self.slot = Slot::Empty { read_waker };
                true
            },
            Slot::Item { item, ready_waker, .. } => {
                self.slot = Slot::Item { item, ready_waker, flush_waker: Some(waker) };
                false
            },
        }
    }

    /// Closing the writer is flushing it: with room for one value there is
    /// nothing else to drain.
    pub fn poll_close(&mut self, waker: W) -> (r: bool)
        ensures
            r == old(self).flushed(),
            *final(self) == old(self).after_poll_flush(waker),
    {
        self.poll_flush(waker)
    }

    /// Records that the writing half is gone and hands back the reader parked
    /// on the empty slot, which is to be woken to see the closure. A value
    /// still in the slot stays there to be read.
    pub fn writer_dropped(&mut self) -> (r: Option<W>)
        ensures
            r == old(self).parked_reader(),
            *final(self) == old(self).after_writer_dropped(),
    {
        self.writer_closed = true;
        let mut cur = Slot::Empty { read_waker: None };
        std::mem::swap(&mut self.slot, &mut cur);
        match cur {
            Slot::Empty { read_waker } => read_waker,
            Slot::Item { item, ready_waker, flush_waker } => {
                self.slot = Slot::Item { item, ready_waker, flush_waker };
                None
            },
        }
    }

    /// A read attempt. `waker` is registered as the parked reader before the
    /// slot is looked at, so no write can slip by unnoticed; a value present
    /// is taken, together with the writers to wake.
    pub fn poll_next(&mut self, waker: W) -> (r: ReadPoll<T, W>)
        ensures
            r == old(self).read_outcome(),
            *final(self) == old(self).after_poll_next(waker),
    {
        let mut cur = Slot::Empty { read_waker: Some(waker) };
        std::mem::swap(&mut self.slot, &mut cur);
        match cur {
            Slot::Empty { .. } => if self.writer_closed {
                ReadPoll::Closed
            } else {
                ReadPoll::Pending
            },
            Slot::Item { item, ready_waker, flush_waker } => ReadPoll::Ready {
                item,
                wake_writer: ready_waker,
                wake_flusher: flush_waker,
            },
        }
    }
}

/// Reads from `state` after each of the writes of `vs` in turn, all with the
/// same reader `waker`, and collects what the reads report.
pub open spec fn exchange<T, W>(state: SinkState<T, W>, vs: Seq<T>, waker: W) -> Seq<ReadPoll<T, W>>
    decreases vs.len(),
{
    if vs.len() == 0 {
        seq![]
    } else {
        let sent = state.after_send(vs[0]);
        seq![sent.read_outcome()] + exchange(sent.after_poll_next(waker), vs.drop_first(), waker)
    }
}

/// A write is not complete until it has been read: after writing `item` the
/// writer stays unflushed, however often it polls, until a read takes the
/// value; that read returns `item` and wakes the parked flusher, and from then
/// on the write is complete.
pub proof fn lemma_write_completes_at_read<T, W>(state: SinkState<T, W>, item: T, flusher: W, reader: W)
    requires
        state.writable(),
    ensures
        !state.after_send(item).flushed(),
        !state.after_send(item).after_poll_flush(flusher).flushed(),
        state.after_send(item).after_poll_flush(flusher).read_outcome() == (ReadPoll::<T, W>::Ready {
            item,
            wake_writer: None,
            wake_flusher: Some(flusher),
        }),
        state.after_send(item).after_poll_flush(flusher).after_poll_next(reader).flushed(),
{
}

/// Values come out in the order they were written: alternating writes of `vs`
/// with reads yields exactly `vs`, each read taking the value of the write
/// just before it.
pub proof fn lemma_rendezvous_order<T, W>(state: SinkState<T, W>, vs: Seq<T>, waker: W)
    ensures
        exchange(state, vs, waker).len() == vs.len(),
        forall|i: int|
            0 <= i < vs.len() ==> #[trigger] exchange(state, vs, waker)[i] == (ReadPoll::<T, W>::Ready {
                item: vs[i],
                wake_writer: None,
                wake_flusher: None,
            }),
    decreases vs.len(),
{
    if vs.len() > 0 {
        let sent = state.after_send(vs[0]);
        lemma_rendezvous_order(sent.after_poll_next(waker), vs.drop_first(), waker);
        assert forall|i: int| 0 <= i < vs.len() implies #[trigger] exchange(state, vs, waker)[i] == (
        ReadPoll::<T, W>::Ready { item: vs[i], wake_writer: None, wake_flusher: None }) by {
            if i > 0 {
                assert(exchange(state, vs, waker)[i] == exchange(sent.after_poll_next(waker), vs.drop_first(), waker)[i - 1]);
            }
        }
    }
}

/// A written slot refuses a second write: it is writable before the write,
/// not after it, whatever the writer polls meanwhile, and writable again once
/// the value has been read.
pub proof fn lemma_single_slot<T, W>(state: SinkState<T, W>, item: T, writer: W, reader: W)
    requires
        state.writable(),
    ensures
        !state.after_send(item).writable(),
        !state.after_send(item).after_poll_ready(writer).writable(),
        state.after_send(item).after_poll_ready(writer).after_poll_next(reader).writable(),
{
}

/// Parked tasks are woken once per event: a reader parked on the empty slot
/// is handed back by the next write and is not kept for another; a writer
/// parked on the full slot is handed back by the next read and is not kept
/// for another.
pub proof fn lemma_wakes<T, W>(state: SinkState<T, W>, item: T, next: T, reader: W, writer: W)
    requires
        state.writable(),
    ensures
        state.after_poll_next(reader).parked_reader() == Some(reader),
        state.after_poll_next(reader).after_send(item).parked_reader() == None::<W>,
        state.after_send(item).after_poll_ready(writer).read_outcome() == (ReadPoll::<T, W>::Ready {
            item,
            wake_writer: Some(writer),
            wake_flusher: None,
        }),
        state.after_send(item).after_poll_ready(writer).after_poll_next(reader).after_send(next).read_outcome()
            == (ReadPoll::<T, W>::Ready { item: next, wake_writer: None, wake_flusher: None }),
{
}

/// Dropping the writer while the reader waits on the empty slot wakes that
/// reader, and its next read reports the closure instead of waiting.
pub proof fn lemma_writer_drop_closes<T, W>(state: SinkState<T, W>, reader: W, again: W)
    requires
        state.writable(),
    ensures
        state.after_poll_next(reader).parked_reader() == Some(reader),
        state.after_poll_next(reader).after_writer_dropped().read_outcome() == ReadPoll::<T, W>::Closed,
        state.after_poll_next(reader).after_writer_dropped().after_poll_next(again).read_outcome()
            == ReadPoll::<T, W>::Closed,
{
}

} // verus!
