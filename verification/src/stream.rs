//! The asynchronous message source, seen through the one operation the
//! reader needs: a non-blocking "try for the next item".

use crate::message::InboundMessage;
use vstd::prelude::*;

verus! {

/// What one non-blocking poll of a message source yields.
pub enum StreamEvent {
    /// An item was immediately available.
    Item(InboundMessage),
    /// The source has signalled permanent completion: no item is buffered
    /// and none will ever arrive.
    Complete,
    /// Nothing is ready right now, but the source is still live; proceeding
    /// further would mean waiting.
    Pending,
}

/// An ordered source of inbound messages that can be asked for its next item
/// without blocking and that signals permanent completion.
///
/// The model is the source as one drain pass observes it: `ready` is the
/// sequence of items immediately available, in arrival order, and
/// `terminated` says whether completion is signalled once they are gone.
/// A verified implementation is held to `try_next`'s contract; an
/// implementation supplied by unverified code — an adapter over a real
/// asynchronous stream, say — takes its place on trust, exactly as the
/// stream itself does in any unverified caller.
pub trait MessageStream: Sized {
    /// The items immediately available, oldest first. An implementation
    /// that leaves the default keeps the trivial model of a source with
    /// nothing ready.
    open spec fn ready(&self) -> Seq<InboundMessage> {
        Seq::empty()
    }

    /// Whether the source signals permanent completion once `ready` is
    /// drained. An implementation that leaves the default keeps the trivial
    /// model of a source that stays live.
    open spec fn terminated(&self) -> bool {
        false
    }

    /// One non-blocking poll: the oldest ready item if there is one, else
    /// completion or "nothing ready yet", without waiting either way.
    fn try_next(&mut self) -> (ev: StreamEvent)
        ensures
            match ev {
                StreamEvent::Item(m) => {
                    &&& old(self).ready().len() > 0
                    &&& m == old(self).ready()[0]
                    &&& final(self).ready() == old(self).ready().drop_first()
                    &&& final(self).terminated() == old(self).terminated()
                },
                StreamEvent::Complete => {
                    &&& old(self).ready().len() == 0
                    &&& old(self).terminated()
                    &&& final(self).ready().len() == 0
                    &&& final(self).terminated()
                },
                StreamEvent::Pending => {
                    &&& old(self).ready().len() == 0
                    &&& !old(self).terminated()
                    &&& final(self).ready().len() == 0
                    &&& !final(self).terminated()
                },
            },
    ;
}

/// A message source whose items sit in memory: a queue of ready items and a
/// flag saying whether the supply ends for good once they are drained. The
/// verified stand-in for a per-topic subscription whose publishers have
/// already run.
pub struct BufferedMessageStream {
    items: Vec<InboundMessage>,
    closed: bool,
}

impl BufferedMessageStream {
    /// A source that will yield `items` in order and then, if `closed`,
    /// signal permanent completion; if not `closed`, it reports "nothing
    /// ready yet" once they are gone.
    pub fn from_parts(items: Vec<InboundMessage>, closed: bool) -> (s: BufferedMessageStream)
        ensures
            s.ready() == items@,
            s.terminated() == closed,
    {
        BufferedMessageStream { items, closed }
    }

    /// A still-live source with nothing ready.
    pub fn empty_live() -> (s: BufferedMessageStream)
        ensures
            s.ready().len() == 0,
            !s.terminated(),
    {
        BufferedMessageStream { items: Vec::new(), closed: false }
    }
}

impl MessageStream for BufferedMessageStream {
    closed spec fn ready(&self) -> Seq<InboundMessage> {
        self.items@
    }

    closed spec fn terminated(&self) -> bool {
        self.closed
    }

    fn try_next(&mut self) -> (ev: StreamEvent) {
        if self.items.len() > 0 {
            let m = self.items.remove(0);
            proof {
                assert(self.items@ =~= old(self).items@.drop_first());
            }
            StreamEvent::Item(m)
        } else if self.closed {
            StreamEvent::Complete
        } else {
            StreamEvent::Pending
        }
    }
}

} // verus!
