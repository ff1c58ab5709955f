//! The decode capability: turning an opaque encoded payload into a typed
//! value, fallibly, one item at a time.

use vstd::prelude::*;

verus! {

/// A payload could not be decoded into the requested type.
#[derive(Debug, PartialEq, Eq, Structural, Clone, Copy)]
pub struct DecodeError;

/// The wire-decoding capability for a caller-chosen payload type.
///
/// `well_formed` says which byte sequences are valid encodings of the type;
/// `decodes_to` says which values such an encoding denotes. `decode` must
/// follow them exactly: it succeeds on precisely the well-formed inputs and
/// returns a value the relation admits. A verified implementation is held to
/// that contract; an implementation supplied by unverified code takes its
/// place on trust, exactly as a hand-written codec does in any unverified
/// caller.
pub trait DecodeMessage: Sized {
    /// Whether `bytes` is a valid encoding of a value of this type. An
    /// implementation that leaves the default keeps the trivial relation, in
    /// which every payload counts as well formed.
    open spec fn well_formed(bytes: Seq<u8>) -> bool {
        true
    }

    /// Whether `value` is what `bytes` decodes to. An implementation that
    /// leaves the default keeps the trivial relation, which admits any
    /// value.
    open spec fn decodes_to(bytes: Seq<u8>, value: Self) -> bool {
        true
    }

    /// Decodes one payload: succeeds exactly on well-formed encodings, and
    /// only with a value the encoding denotes.
    fn decode(bytes: &Vec<u8>) -> (r: Result<Self, DecodeError>)
        ensures
            r is Ok <==> Self::well_formed(bytes@),
            r matches Ok(value) ==> Self::decodes_to(bytes@, value),
    ;
}

/// The identity codec: every payload is well formed and decodes to its own
/// bytes. It grounds [`DecodeMessage`] with a verified implementation and
/// serves callers that want the raw payload untouched.
#[derive(Debug)]
pub struct RawPayload {
    pub bytes: Vec<u8>,
}

impl View for RawPayload {
    type V = Seq<u8>;

    open spec fn view(&self) -> Seq<u8> {
        self.bytes@
    }
}

impl DecodeMessage for RawPayload {
    open spec fn well_formed(bytes: Seq<u8>) -> bool {
        true
    }

    open spec fn decodes_to(bytes: Seq<u8>, value: RawPayload) -> bool {
        value@ == bytes
    }

    fn decode(bytes: &Vec<u8>) -> (r: Result<RawPayload, DecodeError>) {
        Ok(RawPayload { bytes: crate::message::copy_bytes(bytes) })
    }
}

} // verus!
