//! The subscription reader: a synchronous, batch-oriented view of one
//! asynchronous message source.

use crate::codec::DecodeMessage;
use crate::message::{info_of, InboundMessage, MessageInfo};
use crate::stream::{MessageStream, StreamEvent};
use vstd::prelude::*;

verus! {

/// What can go wrong while receiving messages.
#[derive(Debug, PartialEq, Eq, Structural, Clone, Copy)]
pub enum DomainSubscriberError {
    /// Subscription stream ended: the reader holds no source, either because
    /// a prior call drained it to completion or because none was ever held.
    /// Terminal; callers should stop polling this reader.
    SubscriptionStreamEnded,
    /// Error reading from the stream. Reserved: the algorithm as specified
    /// never produces it.
    StreamError,
    /// Message deserialization error: some item of the drain pass failed to
    /// decode, and the whole batch was discarded.
    MessageError,
    /// Subscription reader is not initialized. Reserved: the algorithm as
    /// specified never produces it.
    SubscriptionReaderNotInitialized,
}

/// Every drained payload is a well-formed encoding of `T`.
pub open spec fn all_well_formed<T: DecodeMessage>(raws: Seq<InboundMessage>) -> bool {
    forall|i: int| 0 <= i < raws.len() ==> T::well_formed((#[trigger] raws[i])@.message)
}

/// `batch` is the decoded image of `raws`, item by item and in order: the
/// provenance of the `i`-th raw message beside a value its payload decodes
/// to.
pub open spec fn batch_matches<T: DecodeMessage>(
    raws: Seq<InboundMessage>,
    batch: Seq<(MessageInfo, T)>,
) -> bool {
    &&& batch.len() == raws.len()
    &&& forall|i: int|
        0 <= i < raws.len() ==> {
            &&& (#[trigger] batch[i]).0@ == info_of(raws[i]@)
            &&& T::decodes_to(raws[i]@.message, batch[i].1)
        }
}

/// A blocking-call reader over one single-consumer message source.
///
/// The reader's one piece of state is an ownership slot that holds the
/// source exclusively. The slot is emptied for the duration of each drain
/// call and refilled only while the source is still live; once the source
/// signals permanent completion the slot stays empty forever, and so does
/// the slot of a reader on which no call may proceed.
pub struct SyncDomainSubscription<S> {
    subscription: Option<S>,
}

impl<S: MessageStream> SyncDomainSubscription<S> {
    /// Whether the reader currently owns a source.
    pub closed spec fn occupied(self) -> bool {
        self.subscription is Some
    }

    /// The owned source, when the slot is occupied.
    pub closed spec fn source(self) -> S {
        self.subscription->0
    }

    /// Wraps an already-finalized source; the reader starts out owning it.
    pub fn new(stream: S) -> (reader: SyncDomainSubscription<S>)
        ensures
            reader.occupied(),
            reader.source() == stream,
    {
        SyncDomainSubscription { subscription: Some(stream) }
    }

    /// One synchronous drain call: takes the source out of the slot, runs a
    /// single non-blocking drain pass over it, restores it unless it
    /// completed, and decodes the drained items in arrival order.
    ///
    /// The contract carries the observable laws of the reader:
    /// - an empty slot fails with `SubscriptionStreamEnded` and stays empty,
    ///   so the error is terminal;
    /// - a source that signals completion is not restored, which makes
    ///   exhaustion permanent, while a live source is restored with nothing
    ///   ready, so a call that found nothing returns `Ok` of the empty batch
    ///   and leaves the reader exactly as repeatable as before;
    /// - when every drained payload is well formed the call returns the
    ///   whole batch, in arrival order, each item beside its provenance;
    /// - when any drained payload is malformed the call fails with
    ///   `MessageError` and surfaces nothing, the earlier well-formed items
    ///   included.
    pub fn receive_messages<T: DecodeMessage>(&mut self) -> (r: Result<
        Vec<(MessageInfo, T)>,
        DomainSubscriberError,
    >)
        ensures
            !old(self).occupied() ==> {
                &&& r == Err::<Vec<(MessageInfo, T)>, DomainSubscriberError>(
                    DomainSubscriberError::SubscriptionStreamEnded,
                )
                &&& !final(self).occupied()
            },
            old(self).occupied() ==> {
                let raws = old(self).source().ready();
                &&& (final(self).occupied() <==> !old(self).source().terminated())
                &&& (final(self).occupied() ==> final(self).source().ready().len() == 0
                    && !final(self).source().terminated())
                &&& (all_well_formed::<T>(raws) ==> (r matches Ok(batch) && batch_matches::<T>(
                    raws,
                    batch@,
                )))
                &&& (!all_well_formed::<T>(raws) ==> r == Err::<
                    Vec<(MessageInfo, T)>,
                    DomainSubscriberError,
                >(DomainSubscriberError::MessageError))
            },
    {
        let taken = self.subscription.take();
        match taken {
            None => Err(DomainSubscriberError::SubscriptionStreamEnded),
            Some(mut s) => {
                let ghost raws = s.ready();
                let ghost term = s.terminated();
                let mut buf: Vec<InboundMessage> = Vec::new();
                let mut complete: bool = false;
                loop
                    invariant_except_break
                        raws =~= buf@ + s.ready(),
                        s.terminated() == term,
                        !complete,
                    ensures
                        buf@ == raws,
                        s.ready().len() == 0,
                        s.terminated() == term,
                        complete == term,
                    decreases s.ready().len(),
                {
                    match s.try_next() {
                        StreamEvent::Item(m) => {
                            buf.push(m);
                        },
                        StreamEvent::Complete => {
                            complete = true;
                            proof {
                                assert(raws =~= buf@);
                            }
                            break;
                        },
                        StreamEvent::Pending => {
                            proof {
                                assert(raws =~= buf@);
                            }
                            break;
                        },
                    }
                }
                if !complete {
                    self.subscription = Some(s);
                }
                let mut messages: Vec<(MessageInfo, T)> = Vec::new();
                let mut idx: usize = 0;
                while idx < buf.len()
                    invariant
                        idx <= buf.len(),
                        buf@ == raws,
                        messages@.len() == idx,
                        old(self).occupied(),
                        raws == old(self).source().ready(),
                        term == old(self).source().terminated(),
                        self.occupied() <==> !term,
                        self.occupied() ==> self.source().ready().len() == 0
                            && !self.source().terminated(),
                        forall|i: int|
                            0 <= i < idx ==> T::well_formed((#[trigger] raws[i])@.message),
                        forall|i: int|
                            0 <= i < idx ==> {
                                &&& (#[trigger] messages@[i]).0@ == info_of(raws[i]@)
                                &&& T::decodes_to(raws[i]@.message, messages@[i].1)
                            },
                    decreases buf.len() - idx,
                {
                    let m = &buf[idx];
                    match T::decode(&m.message) {
                        Ok(value) => {
                            let info = m.info();
                            messages.push((info, value));
                        },
                        Err(_) => {
                            proof {
                                assert(!T::well_formed(raws[idx as int]@.message));
                                assert(!all_well_formed::<T>(raws));
                            }
                            return Err(DomainSubscriberError::MessageError);
                        },
                    }
                    idx = idx + 1;
                }
                Ok(messages)
            },
        }
    }
}

} // verus!
