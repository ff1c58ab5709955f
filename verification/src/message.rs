//! The raw inbound message and the provenance snapshot derived from it.

use vstd::prelude::*;

verus! {

/// Identity of the peer that forwarded a message, modelled as the bytes of
/// its node identifier.
#[derive(Debug, Clone)]
pub struct PeerNodeIdentity {
    pub node_id: Vec<u8>,
}

/// Cryptographic identity of a message's originator, modelled as the bytes
/// of its public key.
#[derive(Debug, Clone)]
pub struct CommsPublicKey {
    pub key: Vec<u8>,
}

/// One raw inbound message as the fan-out channel delivers it: who forwarded
/// it, who originated it, and the still-encoded payload.
#[derive(Debug, Clone)]
pub struct InboundMessage {
    pub peer_source: PeerNodeIdentity,
    pub origin_source: CommsPublicKey,
    pub message: Vec<u8>,
}

/// Information about the message received: the provenance snapshot that is
/// returned beside each decoded payload.
#[derive(Debug, Clone)]
pub struct MessageInfo {
    pub peer_source: PeerNodeIdentity,
    pub origin_source: CommsPublicKey,
}

/// Mathematical value of an [`InboundMessage`]: the three byte sequences.
pub struct InboundMessageModel {
    pub peer_source: Seq<u8>,
    pub origin_source: Seq<u8>,
    pub message: Seq<u8>,
}

/// Mathematical value of a [`MessageInfo`]: the two identity byte sequences.
pub struct MessageInfoModel {
    pub peer_source: Seq<u8>,
    pub origin_source: Seq<u8>,
}

impl View for PeerNodeIdentity {
    type V = Seq<u8>;

    open spec fn view(&self) -> Seq<u8> {
        self.node_id@
    }
}

impl View for CommsPublicKey {
    type V = Seq<u8>;

    open spec fn view(&self) -> Seq<u8> {
        self.key@
    }
}

impl View for InboundMessage {
    type V = InboundMessageModel;

    open spec fn view(&self) -> InboundMessageModel {
        InboundMessageModel {
            peer_source: self.peer_source@,
            origin_source: self.origin_source@,
            message: self.message@,
        }
    }
}

impl View for MessageInfo {
    type V = MessageInfoModel;

    open spec fn view(&self) -> MessageInfoModel {
        MessageInfoModel { peer_source: self.peer_source@, origin_source: self.origin_source@ }
    }
}

/// The provenance snapshot that a raw message gives rise to.
pub open spec fn info_of(m: InboundMessageModel) -> MessageInfoModel {
    MessageInfoModel { peer_source: m.peer_source, origin_source: m.origin_source }
}

impl InboundMessage {
    /// Packs the three parts of a raw inbound message.
    pub fn new(
        peer_source: PeerNodeIdentity,
        origin_source: CommsPublicKey,
        message: Vec<u8>,
    ) -> (m: InboundMessage)
        ensures
            m@.peer_source == peer_source@,
            m@.origin_source == origin_source@,
            m@.message == message@,
    {
        InboundMessage { peer_source, origin_source, message }
    }

    /// The provenance snapshot of this message, with the payload left behind.
    pub fn info(&self) -> (info: MessageInfo)
        ensures
            info@ == info_of(self@),
    {
        MessageInfo {
            peer_source: PeerNodeIdentity { node_id: copy_bytes(&self.peer_source.node_id) },
            origin_source: CommsPublicKey { key: copy_bytes(&self.origin_source.key) },
        }
    }
}

/// A fresh vector holding the same bytes.
pub(crate) fn copy_bytes(v: &Vec<u8>) -> (c: Vec<u8>)
    ensures
        c@ == v@,
{
    let mut c: Vec<u8> = Vec::new();
    let mut i: usize = 0;
    while i < v.len()
        invariant
            i <= v.len(),
            c@ == v@.take(i as int),
        decreases v.len() - i,
    {
        c.push(v[i]);
        proof {
            assert(c@ =~= v@.take(i as int + 1));
        }
        i = i + 1;
    }
    proof {
        assert(c@ =~= v@);
    }
    c
}

} // verus!
