//! The per-connection outcome protocol: every accepted connection ends in
//! exactly one outcome, either a validated upgrade or a recoverable failure
//! that preserves every byte already read from the socket.
use vstd::prelude::*;

verus! {

use crate::request::Request;

/// Classification of an I/O failure, as far as the pipeline distinguishes
/// them: a nonblocking accept with nothing pending, an end of stream before
/// the handshake completed, a reset peer, or anything else.
#[derive(Clone, Copy, Debug, PartialEq, Eq, Structural)]
pub enum IoErrorKind {
    WouldBlock,
    UnexpectedEof,
    ConnectionReset,
    ConnectionAborted,
    Other,
}

/// The error taxonomy of the pipeline: transport failures, TLS negotiation
/// failures, and streams that do not speak the WebSocket opening handshake.
#[derive(Clone, Copy, Debug, PartialEq, Eq, Structural)]
pub enum WsError {
    Io(IoErrorKind),
    Tls,
    InvalidHandshake,
}

/// The success outcome: the stream, past TLS negotiation if any, together
/// with the validated upgrade request. `leftover` holds the bytes that were
/// read past the handshake terminator and not consumed by the parser, so
/// the effective read cursor sits exactly after the terminator.
pub struct Upgrade<S> {
    pub stream: S,
    pub request: Request,
    pub leftover: Vec<u8>,
}

/// The failure outcome. Each field other than `error` is present only as
/// far as the pipeline progressed: the stream only if it is still usable,
/// the parsed request only if parsing completed but validation failed, and
/// the buffer whenever bytes were read that no parser consumed.
pub struct InvalidConnection<S> {
    pub stream: Option<S>,
    pub parsed: Option<Request>,
    pub buffer: Option<Vec<u8>>,
    pub error: WsError,
}

/// One accept call produces exactly one value of this type.
pub type AcceptResult<S> = Result<Upgrade<S>, InvalidConnection<S>>;

/// A failure that salvaged nothing: no stream, no parsed request, no buffer.
pub open spec fn bare_failure<S>(ic: InvalidConnection<S>, e: WsError) -> bool {
    &&& ic.stream is None
    &&& ic.parsed is None
    &&& ic.buffer is None
    &&& ic.error == e
}

} // verus!
