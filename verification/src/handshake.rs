//! Handshake detection as a state machine over read events. The transport
//! layer accepts the connection and reads raw bytes; the machine owns every
//! byte read so far, finds the blank-line terminator, parses and validates
//! the head, and classifies the connection into its one outcome without
//! losing a byte.
//!
//! A read that fails while the handshake is being parsed — a `WouldBlock`
//! on a nonblocking stream included — is classified exactly like a failed
//! read anywhere else: the machine never retries, and whether to accept
//! again is the caller's choice alone.
use vstd::prelude::*;

verus! {

use crate::outcome::AcceptResult;
use crate::outcome::InvalidConnection;
use crate::outcome::IoErrorKind;
use crate::outcome::Upgrade;
use crate::outcome::WsError;
use crate::request::parse_head;
use crate::request::parse_head_vec;
use crate::request::is_ws_upgrade;
use crate::request::valid_ws_request;
use crate::scan::find_term;
use crate::scan::is_term_at;
use crate::scan::lemma_find_term_from;
use crate::scan::scan_term;
use crate::scan::subvec;

/// Largest number of bytes the machine will hold while still waiting for
/// the handshake terminator; a head that grows past this is rejected.
pub const MAX_HANDSHAKE: usize = 65536;

/// The per-connection handshake detector: the stream it will hand back,
/// and every byte read from that stream so far.
pub struct HandshakeMachine<S> {
    pub stream: S,
    pub buf: Vec<u8>,
}

/// What one read event does to the machine: either more bytes are needed,
/// or the connection has been classified.
pub enum FeedStep<S> {
    Pending(HandshakeMachine<S>),
    Done(AcceptResult<S>),
}

/// One event of the transport layer: bytes arrived, the stream ended, or
/// the read failed.
pub enum ReadEvent {
    Data(Vec<u8>),
    Eof,
    Failed(IoErrorKind),
}

impl<S> HandshakeMachine<S> {
    /// A machine still waiting holds a bounded buffer without a terminator.
    pub open spec fn wf(self) -> bool {
        &&& self.buf@.len() <= MAX_HANDSHAKE
        &&& find_term(self.buf@) is None
    }
}

/// A handshake failure that keeps the stream usable and hands back every
/// byte read, none of it consumed by a parser.
pub open spec fn unconsumed_failure<S>(ic: InvalidConnection<S>, s: S, all: Seq<u8>) -> bool {
    &&& ic.stream == Some(s)
    &&& ic.parsed is None
    &&& ic.buffer matches Some(b) && b@ == all
    &&& ic.error == WsError::InvalidHandshake
}

/// What feeding an end event (end of stream or a failed read) must produce:
/// the stream is no longer usable, so only the error classification and the
/// bytes already read survive.
pub open spec fn feed_post_end<S>(m: HandshakeMachine<S>, k: IoErrorKind, r: FeedStep<S>) -> bool {
    match r {
        FeedStep::Done(Err(ic)) => {
            &&& ic.stream is None
            &&& ic.parsed is None
            &&& ic.error == WsError::Io(k)
            &&& if m.buf@.len() > 0 {
                ic.buffer matches Some(b) && b@ == m.buf@
            } else {
                ic.buffer is None
            }
        },
        _ => false,
    }
}

/// What feeding a data event must produce, over the union `all` of every
/// byte read so far: wait while no terminator has arrived and the buffer is
/// within bounds; otherwise classify by the grammar and the upgrade
/// validation, handing every byte of `all` on through exactly one of the
/// outcome's fields.
pub open spec fn feed_post_data<S>(m: HandshakeMachine<S>, d: Seq<u8>, r: FeedStep<S>) -> bool {
    let all = m.buf@ + d;
    match find_term(all) {
        None => {
            if all.len() <= MAX_HANDSHAKE {
                match r {
                    FeedStep::Pending(m2) => m2.stream == m.stream && m2.buf@ == all && m2.wf(),
                    _ => false,
                }
            } else {
                match r {
                    FeedStep::Done(Err(ic)) => unconsumed_failure(ic, m.stream, all),
                    _ => false,
                }
            }
        },
        Some(t) => {
            let head = all.subrange(0, t + 2);
            let rest = all.subrange(t + 4, all.len() as int);
            match parse_head(head) {
                None => match r {
                    FeedStep::Done(Err(ic)) => unconsumed_failure(ic, m.stream, all),
                    _ => false,
                },
                Some(q) => {
                    if valid_ws_request(q) {
                        match r {
                            FeedStep::Done(Ok(u)) => {
                                &&& u.stream == m.stream
                                &&& u.request@ == q
                                &&& u.leftover@ == rest
                            },
                            _ => false,
                        }
                    } else {
                        match r {
                            FeedStep::Done(Err(ic)) => {
                                &&& ic.stream == Some(m.stream)
                                &&& ic.parsed matches Some(p) && p@ == q
                                &&& ic.buffer matches Some(b) && b@ == rest
                                &&& ic.error == WsError::InvalidHandshake
                            },
                            _ => false,
                        }
                    }
                },
            }
        },
    }
}

/// The whole contract of one feed call.
pub open spec fn feed_post<S>(m: HandshakeMachine<S>, ev: ReadEvent, r: FeedStep<S>) -> bool {
    match ev {
        ReadEvent::Data(d) => feed_post_data(m, d@, r),
        ReadEvent::Eof => feed_post_end(m, IoErrorKind::UnexpectedEof, r),
        ReadEvent::Failed(k) => feed_post_end(m, k, r),
    }
}

/// Start detecting a handshake on a freshly accepted (and, if applicable,
/// TLS-wrapped) stream: nothing has been read yet.
pub fn begin_handshake<S>(stream: S) -> (m: HandshakeMachine<S>)
    ensures
        m.wf(),
        m.stream == stream,
        m.buf@ == Seq::<u8>::empty(),
{
    HandshakeMachine { stream, buf: Vec::new() }
}

impl<S> HandshakeMachine<S> {
    /// Feed one read event to the machine, consuming it; either the machine
    /// comes back waiting for more bytes, or the connection is classified.
    pub fn feed(self, ev: ReadEvent) -> (r: FeedStep<S>)
        requires
            self.wf(),
        ensures
            feed_post(self, ev, r),
    {
        let ghost m0 = self;
        let HandshakeMachine { stream, buf } = self;
        match ev {
            ReadEvent::Data(d) => {
                let mut all = buf;
                let mut dd = d;
                all.append(&mut dd);
                let n = all.len();
                match scan_term(&all) {
                    None => {
                        if n <= MAX_HANDSHAKE {
                            FeedStep::Pending(HandshakeMachine { stream, buf: all })
                        } else {
                            FeedStep::Done(
                                Err(
                                    InvalidConnection {
                                        stream: Some(stream),
                                        parsed: None,
                                        buffer: Some(all),
                                        error: WsError::InvalidHandshake,
                                    },
                                ),
                            )
                        }
                    },
                    Some(t) => {
                        proof {
                            lemma_find_term_from(all@, 0);
                        }
                        let head = subvec(&all, 0, t + 2);
                        let rest = subvec(&all, t + 4, n);
                        match parse_head_vec(&head) {
                            None => FeedStep::Done(
                                Err(
                                    InvalidConnection {
                                        stream: Some(stream),
                                        parsed: None,
                                        buffer: Some(all),
                                        error: WsError::InvalidHandshake,
                                    },
                                ),
                            ),
                            Some(q) => {
                                if is_ws_upgrade(&q) {
                                    FeedStep::Done(
                                        Ok(Upgrade { stream, request: q, leftover: rest }),
                                    )
                                } else {
                                    FeedStep::Done(
                                        Err(
                                            InvalidConnection {
                                                stream: Some(stream),
                                                parsed: Some(q),
                                                buffer: Some(rest),
                                                error: WsError::InvalidHandshake,
                                            },
                                        ),
                                    )
                                }
                            },
                        }
                    },
                }
            },
            ReadEvent::Eof => {
                let b = if buf.len() > 0 {
                    Some(buf)
                } else {
                    None
                };
                FeedStep::Done(
                    Err(
                        InvalidConnection {
                            stream: None,
                            parsed: None,
                            buffer: b,
                            error: WsError::Io(IoErrorKind::UnexpectedEof),
                        },
                    ),
                )
            },
            ReadEvent::Failed(k) => {
                let b = if buf.len() > 0 {
                    Some(buf)
                } else {
                    None
                };
                FeedStep::Done(
                    Err(
                        InvalidConnection {
                            stream: None,
                            parsed: None,
                            buffer: b,
                            error: WsError::Io(k),
                        },
                    ),
                )
            },
        }
    }
}

/// Splitting the incoming bytes over two reads changes nothing: a machine
/// that stayed pending on a first chunk classifies a second chunk exactly
/// as a single feed of both chunks together would.
pub proof fn lemma_feed_split<S>(
    m: HandshakeMachine<S>,
    d1: Seq<u8>,
    d2: Seq<u8>,
    m2: HandshakeMachine<S>,
    r: FeedStep<S>,
)
    requires
        feed_post_data(m, d1, FeedStep::Pending(m2)),
        feed_post_data(m2, d2, r),
    ensures
        feed_post_data(m, d1 + d2, r),
{
    assert(m.buf@ + (d1 + d2) =~= (m.buf@ + d1) + d2);
}

/// The pipeline never upgrades anything but a genuine WebSocket upgrade
/// request: every successful outcome carries a request that satisfies the
/// validation criterion.
pub proof fn lemma_upgrade_is_valid<S>(m: HandshakeMachine<S>, ev: ReadEvent, r: FeedStep<S>)
    requires
        feed_post(m, ev, r),
        r matches FeedStep::Done(Ok(u0)),
    ensures
        r matches FeedStep::Done(Ok(u)) && valid_ws_request(u.request@),
{
}

/// For every successful handshake the read cursor sits exactly after the
/// first terminator: the bytes read split into the consumed head, which
/// ends with the terminator and contains no earlier one, followed by the
/// leftover — no byte is lost and none appears twice.
pub proof fn lemma_upgrade_cursor<S>(m: HandshakeMachine<S>, d: Seq<u8>, r: FeedStep<S>, u: Upgrade<S>)
    requires
        m.wf(),
        feed_post_data(m, d, r),
        r matches FeedStep::Done(Ok(u0)) && u0 == u,
    ensures
        exists|t: int|
            #![trigger is_term_at(m.buf@ + d, t)]
            {
                let all = m.buf@ + d;
                &&& is_term_at(all, t)
                &&& forall|k: int| 0 <= k < t ==> !is_term_at(all, k)
                &&& all == all.subrange(0, t + 4) + u.leftover@
            },
{
    let all = m.buf@ + d;
    lemma_find_term_from(all, 0);
    let t = find_term(all)->Some_0;
    assert(all =~= all.subrange(0, t + 4) + all.subrange(t + 4, all.len() as int));
    assert(is_term_at(all, t) && (forall|k: int| 0 <= k < t ==> !is_term_at(all, k)) && all
        == all.subrange(0, t + 4) + u.leftover@);
}

/// For every failed handshake that reports the stream usable, the returned
/// buffer together with the bytes the parser consumed (the head reported
/// through the parsed request, or nothing when parsing itself failed) is
/// exactly the bytes read — no loss and no duplication.
pub proof fn lemma_failure_accounting<S>(
    m: HandshakeMachine<S>,
    d: Seq<u8>,
    r: FeedStep<S>,
    ic: InvalidConnection<S>,
)
    requires
        m.wf(),
        feed_post_data(m, d, r),
        r matches FeedStep::Done(Err(ic0)) && ic0 == ic,
        ic.stream is Some,
    ensures
        ic.buffer is Some,
        ic.parsed is None ==> ic.buffer->Some_0@ == m.buf@ + d,
        ic.parsed is Some ==> exists|t: int|
            #![trigger is_term_at(m.buf@ + d, t)]
            {
                let all = m.buf@ + d;
                &&& is_term_at(all, t)
                &&& forall|k: int| 0 <= k < t ==> !is_term_at(all, k)
                &&& all == all.subrange(0, t + 4) + ic.buffer->Some_0@
            },
{
    let all = m.buf@ + d;
    lemma_find_term_from(all, 0);
    if ic.parsed is Some {
        let t = find_term(all)->Some_0;
        assert(all =~= all.subrange(0, t + 4) + all.subrange(t + 4, all.len() as int));
        assert(is_term_at(all, t) && (forall|k: int| 0 <= k < t ==> !is_term_at(all, k))
            && all == all.subrange(0, t + 4) + ic.buffer->Some_0@);
    }
}

} // verus!
