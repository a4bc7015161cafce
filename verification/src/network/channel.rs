//! The intake queue between a producer of frames and the task that sends
//! them.

use vstd::prelude::*;

verus! {

/// What a submission did to the queue.
#[derive(Debug, Clone, Copy, PartialEq, Eq, Structural)]
pub enum ChannelResult {
    /// The frame waits in the queue.
    Added,
    /// The frame took the place of an older one, which is lost.
    Replaced,
}

/// The three kinds of intake queue.
#[derive(Debug, Clone, Copy, PartialEq, Eq, Structural)]
pub enum QueueMode {
    /// First in, first out, without limit.
    Unbounded,
    /// One slot; the newest frame wins.
    Lifo,
    /// First in, first out, holding so many frames at most.
    Bounded(usize),
}

/// The queue that a configured number selects: -1 no limit, 0 the single
/// slot, a positive number a limit. Other numbers select none.
pub open spec fn queue_mode_of(queue: i64) -> Option<QueueMode> {
    if queue == -1 {
        Some(QueueMode::Unbounded)
    } else if queue == 0 {
        Some(QueueMode::Lifo)
    } else if 0 < queue <= usize::MAX {
        Some(QueueMode::Bounded(queue as usize))
    } else {
        None
    }
}

impl QueueMode {
    /// The queue that a configured number selects.
    pub fn from_config(queue: i64) -> (mode: Option<QueueMode>)
        ensures
            mode == queue_mode_of(queue),
    {
        if queue == -1 {
            Some(QueueMode::Unbounded)
        } else if queue == 0 {
            Some(QueueMode::Lifo)
        } else if queue > 0 {
            let wide: u64 = queue as u64;
            if wide <= usize::MAX as u64 {
                Some(QueueMode::Bounded(wide as usize))
            } else {
                None
            }
        } else {
            None
        }
    }
}

/// A queue of one slot. A submission overwrites what is in the slot and
/// raises the permit that tells the consumer of it; the consumer takes the
/// permit and a copy of the slot.
#[derive(Debug, Clone, PartialEq, Eq)]
pub struct SingleLifoQueue {
    queue: Vec<u8>,
    permit: bool,
}

/// Mathematical view of the single-slot queue.
pub struct LifoView {
    /// The bytes in the slot.
    pub slot: Seq<u8>,
    /// Whether a frame waits for the consumer.
    pub pending: bool,
}

/// The queue after `buffer` was submitted, and what the submission reports.
pub open spec fn lifo_send(q: LifoView, buffer: Seq<u8>) -> (LifoView, ChannelResult) {
    (
        LifoView { slot: buffer, pending: true },
        if q.pending {
            ChannelResult::Replaced
        } else {
            ChannelResult::Added
        },
    )
}

/// The queue after the consumer asked for a frame, and the frame it got.
pub open spec fn lifo_receive(q: LifoView) -> (LifoView, Option<Seq<u8>>) {
    if q.pending {
        (LifoView { slot: q.slot, pending: false }, Some(q.slot))
    } else {
        (q, None)
    }
}

/// The queue after the frames of `buffers` were submitted one after another
/// with the consumer at rest.
pub open spec fn lifo_send_all(q: LifoView, buffers: Seq<Seq<u8>>) -> LifoView
    decreases buffers.len(),
{
    if buffers.len() == 0 {
        q
    } else {
        lifo_send(lifo_send_all(q, buffers.drop_last()), buffers.last()).0
    }
}

/// How many of the submissions of `buffers`, made one after another with the
/// consumer at rest, report that they replaced a frame.
pub open spec fn lifo_replaced(q: LifoView, buffers: Seq<Seq<u8>>) -> nat
    decreases buffers.len(),
{
    if buffers.len() == 0 {
        0
    } else {
        lifo_replaced(q, buffers.drop_last()) + (if lifo_send(
            lifo_send_all(q, buffers.drop_last()),
            buffers.last(),
        ).1 == ChannelResult::Replaced {
            1nat
        } else {
            0nat
        })
    }
}

/// Drop-oldest: of frames submitted back to back to a queue with nothing
/// pending, while the consumer is at rest, only the last reaches the
/// consumer, and all but the first submission report a replacement.
pub proof fn lemma_lifo_newest_wins(q: LifoView, buffers: Seq<Seq<u8>>)
    requires
        !q.pending,
        buffers.len() > 0,
    ensures
        lifo_replaced(q, buffers) == buffers.len() - 1,
        lifo_receive(lifo_send_all(q, buffers)).1 == Some(buffers.last()),
        lifo_receive(lifo_receive(lifo_send_all(q, buffers)).0).1 is None,
    decreases buffers.len(),
{
    let earlier = buffers.drop_last();
    if buffers.len() > 1 {
        lemma_lifo_newest_wins(q, earlier);
        assert(lifo_send_all(q, earlier) == lifo_send(
            lifo_send_all(q, earlier.drop_last()),
            earlier.last(),
        ).0);
        assert(lifo_send_all(q, earlier).pending);
    } else {
        assert(lifo_send_all(q, earlier) == q);
        assert(lifo_replaced(q, earlier) == 0);
    }
}

impl View for SingleLifoQueue {
    type V = LifoView;

    closed spec fn view(&self) -> LifoView {
        LifoView { slot: self.queue@, pending: self.permit }
    }
}

impl SingleLifoQueue {
    /// An empty queue with nothing pending.
    pub fn new() -> (q: SingleLifoQueue)
        ensures
            q@ == (LifoView { slot: Seq::<u8>::empty(), pending: false }),
    {
        SingleLifoQueue { queue: Vec::new(), permit: false }
    }

    /// Submits a frame. It takes the slot whatever is there; the result says
    /// whether an older frame was lost for it. A submission never fails and
    /// never waits.
    pub fn send(&mut self, buffer: Vec<u8>) -> (r: Result<ChannelResult, ()>)
        ensures
            final(self)@ == lifo_send(old(self)@, buffer@).0,
            r == Ok::<ChannelResult, ()>(lifo_send(old(self)@, buffer@).1),
    {
        self.queue = buffer;
        if !self.permit {
            self.permit = true;
            Ok(ChannelResult::Added)
        } else {
            Ok(ChannelResult::Replaced)
        }
    }

    /// Takes the pending frame, if there is one: the permit goes, the slot
    /// keeps its bytes. `None` tells the consumer to wait.
    pub fn receive(&mut self) -> (r: Option<Vec<u8>>)
        ensures
            final(self)@ == lifo_receive(old(self)@).0,
            match r {
                Some(buffer) => lifo_receive(old(self)@).1 == Some(buffer@),
                None => lifo_receive(old(self)@).1 is None,
            },
    {
        if self.permit {
            self.permit = false;
            Some(self.queue.clone())
        } else {
            None
        }
    }

    /// Whether a frame waits for the consumer.
    pub fn is_pending(&self) -> (pending: bool)
        ensures
            pending == self@.pending,
    {
        self.permit
    }
}

} // verus!
