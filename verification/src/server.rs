//! The listening server: a model of the bound listening socket (its
//! identity, bound address and blocking mode), the transport capability
//! that distinguishes unsecured from TLS-secured servers, and the
//! per-connection pipeline steps that classify accept-time failures.
//!
//! The OS socket itself is driven outside the library; it reports its
//! events (the bound address, an accepted stream, a failure) as plain
//! values, and every decision over them is made here.
use vstd::prelude::*;

verus! {

use crate::handshake::HandshakeMachine;
use crate::handshake::begin_handshake;
use crate::outcome::InvalidConnection;
use crate::outcome::IoErrorKind;
use crate::outcome::WsError;
use crate::outcome::bare_failure;

/// A socket address of the model: an IPv4 address packed big-endian and a
/// port.
#[derive(Clone, Copy, Debug, PartialEq, Eq, Structural)]
pub struct SocketAddress {
    pub ip: u32,
    pub port: u16,
}

/// What the server knows of its bound listening socket: an identity that
/// names the underlying OS socket (duplicated handles share it), the bound
/// address, and the blocking mode as last toggled through this handle.
#[derive(Clone, Copy, Debug, PartialEq, Eq, Structural)]
pub struct ListenerHandle {
    pub sock_id: u64,
    pub local: SocketAddress,
    pub nonblocking: bool,
}

/// The transport capability: implemented by the marker for unsecured
/// servers and by whatever carries a TLS acceptor configuration for
/// secured ones.
pub trait OptionalTlsAcceptor {

}

/// The unsecured capability: no TLS layer over accepted connections.
#[derive(Clone, Copy, Debug, PartialEq, Eq, Structural)]
pub struct NoTlsAcceptor;

impl OptionalTlsAcceptor for NoTlsAcceptor {

}

/// A listening WebSocket server: one bound listening socket and the
/// acceptor of its transport capability.
pub struct WsServer<A> {
    pub listener: ListenerHandle,
    pub ssl_acceptor: A,
}

/// The server a listening server becomes when it migrates into an event
/// loop: the same bound socket, now driven by a reactor. Constructed only
/// by `into_async`, which consumes the synchronous handle.
pub struct AsyncWsServer<A> {
    pub listener: ListenerHandle,
    pub ssl_acceptor: A,
}

impl WsServer<NoTlsAcceptor> {
    /// An unsecured server over a listening socket that was just bound:
    /// `local` is the bound address the socket reported and `sock_id` its
    /// identity. A fresh socket starts in blocking mode.
    pub fn bind(local: SocketAddress, sock_id: u64) -> (s: Self)
        ensures
            s.listener.local == local,
            s.listener.sock_id == sock_id,
            !s.listener.nonblocking,
            s.ssl_acceptor == NoTlsAcceptor,
    {
        WsServer {
            listener: ListenerHandle { sock_id, local, nonblocking: false },
            ssl_acceptor: NoTlsAcceptor,
        }
    }

    /// A second, independently owned handle to the same underlying socket:
    /// the duplicate shares the socket identity and the bound address, and
    /// never names a new socket.
    pub fn try_clone(&self) -> (s: Self)
        ensures
            s.listener == self.listener,
            s.ssl_acceptor == NoTlsAcceptor,
    {
        WsServer { listener: self.listener, ssl_acceptor: self.ssl_acceptor }
    }
}

impl<A: OptionalTlsAcceptor> WsServer<A> {
    /// A secured server over a listening socket that was just bound,
    /// keeping the given acceptor configuration for the TLS step of every
    /// accepted connection.
    pub fn bind_secure(local: SocketAddress, sock_id: u64, acceptor: A) -> (s: Self)
        ensures
            s.listener.local == local,
            s.listener.sock_id == sock_id,
            !s.listener.nonblocking,
            s.ssl_acceptor == acceptor,
    {
        WsServer {
            listener: ListenerHandle { sock_id, local, nonblocking: false },
            ssl_acceptor: acceptor,
        }
    }

    /// The bound address of this server, with wildcard and ephemeral parts
    /// already resolved by the socket at bind time.
    pub fn local_addr(&self) -> (a: SocketAddress)
        ensures
            a == self.listener.local,
    {
        self.listener.local
    }

    /// Record the blocking mode of the listening socket after it has been
    /// toggled: subsequent accept calls on a nonblocking server report
    /// `WouldBlock` instead of suspending. Nothing else of the server
    /// changes.
    pub fn set_nonblocking(&mut self, nonblocking: bool)
        ensures
            final(self).listener.nonblocking == nonblocking,
            final(self).listener.sock_id == old(self).listener.sock_id,
            final(self).listener.local == old(self).listener.local,
            final(self).ssl_acceptor == old(self).ssl_acceptor,
    {
        self.listener.nonblocking = nonblocking;
    }

    /// Migrate this server into an event loop, consuming it: the bound
    /// address and the socket identity are preserved exactly, so the
    /// listening socket keeps its backlog and is never rebound.
    pub fn into_async(self) -> (s: AsyncWsServer<A>)
        ensures
            s.listener == self.listener,
            s.ssl_acceptor == self.ssl_acceptor,
    {
        AsyncWsServer { listener: self.listener, ssl_acceptor: self.ssl_acceptor }
    }

    /// A second, independently owned handle to the same underlying socket
    /// for a server of any capability: the duplicate shares the socket
    /// identity and the bound address. The caller hands in its copy of the
    /// acceptor configuration, which is shared, immutable and cheaply
    /// copyable.
    pub fn try_clone_with(&self, acceptor: A) -> (s: Self)
        ensures
            s.listener == self.listener,
            s.ssl_acceptor == acceptor,
    {
        WsServer { listener: self.listener, ssl_acceptor: acceptor }
    }

    /// One accept call, over the event the transport reports. The step
    /// ordering is fixed: the accept primitive runs first, TLS negotiation
    /// (under the secured capability) second, and only a stream past both
    /// reaches handshake detection. No step is retried, and each call
    /// classifies exactly one connection attempt.
    pub fn accept<S>(&self, ev: AcceptEvent<S>) -> (r: AcceptStart<S>)
        ensures
            accept_post(ev, r),
    {
        match ev {
            AcceptEvent::RawFailed(kind) => AcceptStart::Rejected(
                InvalidConnection {
                    stream: None,
                    parsed: None,
                    buffer: None,
                    error: WsError::Io(kind),
                },
            ),
            AcceptEvent::TlsFailed => AcceptStart::Rejected(
                InvalidConnection { stream: None, parsed: None, buffer: None, error: WsError::Tls },
            ),
            AcceptEvent::Established(stream) => AcceptStart::Handshake(begin_handshake(stream)),
        }
    }
}

/// How far the transport got with one connection attempt: the accept
/// primitive failed, TLS negotiation failed, or a stream was established
/// (already TLS-wrapped under the secured capability).
pub enum AcceptEvent<S> {
    RawFailed(IoErrorKind),
    TlsFailed,
    Established(S),
}

/// What an accept call becomes: either the connection is already
/// classified, or an established stream enters handshake detection with
/// nothing read yet.
pub enum AcceptStart<S> {
    Handshake(HandshakeMachine<S>),
    Rejected(InvalidConnection<S>),
}

/// For every TLS negotiation failure the outcome salvages nothing: the
/// stream, the parsed request and the buffer are all absent, and the
/// error carries the TLS classification.
pub proof fn lemma_tls_failure_bare<S>(ev: AcceptEvent<S>, r: AcceptStart<S>)
    requires
        accept_post(ev, r),
        ev matches AcceptEvent::TlsFailed,
    ensures
        r matches AcceptStart::Rejected(ic) && ic.stream is None && ic.parsed is None
            && ic.buffer is None && ic.error == WsError::Tls,
{
}

/// The contract of one accept call. A failure of the accept primitive
/// (including `WouldBlock` on a nonblocking server) salvages nothing; a
/// TLS negotiation failure salvages nothing either, since the partial
/// negotiation has consumed the raw stream irrecoverably; an established
/// stream is handed to handshake detection unread.
pub open spec fn accept_post<S>(ev: AcceptEvent<S>, r: AcceptStart<S>) -> bool {
    match ev {
        AcceptEvent::RawFailed(kind) => r matches AcceptStart::Rejected(ic) && bare_failure(
            ic,
            WsError::Io(kind),
        ),
        AcceptEvent::TlsFailed => r matches AcceptStart::Rejected(ic) && bare_failure(
            ic,
            WsError::Tls,
        ),
        AcceptEvent::Established(s) => r matches AcceptStart::Handshake(m) && m.wf() && m.stream
            == s && m.buf@ == Seq::<u8>::empty(),
    }
}

} // verus!
