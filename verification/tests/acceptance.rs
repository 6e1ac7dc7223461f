//! End-to-end shaped scenarios over the library: a server is bound as a
//! model value, and the handshake machine is fed the exact bytes a client
//! would send.
use ws_accept::handshake::{begin_handshake, FeedStep, ReadEvent};
use ws_accept::outcome::{InvalidConnection, IoErrorKind, WsError};
use ws_accept::server::{AcceptEvent, AcceptStart, NoTlsAcceptor, SocketAddress, WsServer};

fn rejected<S>(start: AcceptStart<S>) -> InvalidConnection<S> {
    match start {
        AcceptStart::Rejected(ic) => ic,
        AcceptStart::Handshake(_) => panic!("expected a rejected connection"),
    }
}

fn loopback() -> SocketAddress {
    // 127.0.0.1:0, an ephemeral loopback address
    SocketAddress { ip: 0x7f00_0001, port: 0 }
}

#[test]
// test the set_nonblocking() method for an unsecured server: with no
// pending connection the accept primitive reports WouldBlock, and the
// outcome carries that classification instead of blocking.
fn set_nonblocking() {
    let mut server = WsServer::bind(loopback(), 1);
    server.set_nonblocking(true);
    assert!(server.listener.nonblocking);

    // nobody tried to establish a connection, so we expect an error
    let result = rejected(server.accept::<u32>(AcceptEvent::RawFailed(IoErrorKind::WouldBlock)));
    match result.error {
        WsError::Io(IoErrorKind::WouldBlock) => {}
        e => panic!("unexpected error {:?}", e),
    }
    assert!(result.stream.is_none());
    assert!(result.parsed.is_none());
    assert!(result.buffer.is_none());
}

#[test]
fn accept_would_block_is_not_ok() {
    let server = WsServer::bind(loopback(), 9);
    let result = rejected(server.accept::<u32>(AcceptEvent::RawFailed(IoErrorKind::WouldBlock)));
    match result.error {
        WsError::Io(IoErrorKind::WouldBlock) => {}
        _ => panic!("expected error"),
    }
}

#[test]
fn scenario_valid_handshake_yields_upgrade() {
    let server = WsServer::bind(loopback(), 2);
    let m = match server.accept(AcceptEvent::Established(41u32)) {
        AcceptStart::Handshake(m) => m,
        AcceptStart::Rejected(_) => panic!("an established stream enters handshake detection"),
    };
    let bytes = b"GET /chat HTTP/1.1\r\nHost: example.com\r\nUpgrade: websocket\r\nConnection: Upgrade\r\nSec-WebSocket-Key: dGhlIHNhbXBsZSBub25jZQ==\r\nSec-WebSocket-Version: 13\r\n\r\n".to_vec();
    match m.feed(ReadEvent::Data(bytes)) {
        FeedStep::Done(Ok(u)) => {
            assert_eq!(u.stream, 41);
            assert_eq!(u.request.method, b"GET".to_vec());
            assert_eq!(u.request.path, b"/chat".to_vec());
            assert_eq!(u.request.http_version, b"HTTP/1.1".to_vec());
            assert!(u.leftover.is_empty());
        }
        _ => panic!("expected a successful upgrade"),
    }
}

#[test]
fn scenario_missing_upgrade_header_is_invalid() {
    let server = WsServer::bind(loopback(), 3);
    let m = match server.accept(AcceptEvent::Established(7u32)) {
        AcceptStart::Handshake(m) => m,
        AcceptStart::Rejected(_) => panic!("an established stream enters handshake detection"),
    };
    let bytes = b"GET / HTTP/1.1\r\nHost: example.com\r\n\r\n".to_vec();
    match m.feed(ReadEvent::Data(bytes)) {
        FeedStep::Done(Err(ic)) => {
            assert_eq!(ic.error, WsError::InvalidHandshake);
            // the stream is still usable and is handed back
            assert_eq!(ic.stream, Some(7));
            // parsing completed, validation failed: the head is reported
            // through the parsed request, and no byte is left over
            let parsed = ic.parsed.expect("request should have parsed");
            assert_eq!(parsed.method, b"GET".to_vec());
            assert_eq!(parsed.path, b"/".to_vec());
            assert_eq!(ic.buffer, Some(Vec::new()));
        }
        _ => panic!("expected an invalid connection"),
    }
}

#[test]
fn scenario_eof_before_any_byte() {
    let server = WsServer::bind(loopback(), 4);
    let m = match server.accept(AcceptEvent::Established(7u32)) {
        AcceptStart::Handshake(m) => m,
        AcceptStart::Rejected(_) => panic!("an established stream enters handshake detection"),
    };
    match m.feed(ReadEvent::Eof) {
        FeedStep::Done(Err(ic)) => {
            assert_eq!(ic.error, WsError::Io(IoErrorKind::UnexpectedEof));
            assert!(ic.stream.is_none());
            assert!(ic.parsed.is_none());
            assert!(ic.buffer.is_none());
        }
        _ => panic!("expected an invalid connection"),
    }
}

#[test]
fn scenario_reset_after_partial_bytes_keeps_them() {
    let m = begin_handshake(7u32);
    let m = match m.feed(ReadEvent::Data(b"GET /chat HT".to_vec())) {
        FeedStep::Pending(m) => m,
        _ => panic!("the handshake is not complete yet"),
    };
    match m.feed(ReadEvent::Failed(IoErrorKind::ConnectionReset)) {
        FeedStep::Done(Err(ic)) => {
            assert_eq!(ic.error, WsError::Io(IoErrorKind::ConnectionReset));
            assert!(ic.stream.is_none());
            assert!(ic.parsed.is_none());
            assert_eq!(ic.buffer, Some(b"GET /chat HT".to_vec()));
        }
        _ => panic!("expected an invalid connection"),
    }
}

#[test]
fn handshake_split_over_many_reads() {
    let full = b"GET /chat HTTP/1.1\r\nUpgrade: websocket\r\nSec-WebSocket-Key: AQIDBAUGBwgJCgsMDQ4PEA==\r\nSec-WebSocket-Version: 13\r\n\r\n";
    let mut m = begin_handshake(1u8);
    let mut step = None;
    for chunk in full.chunks(5) {
        match m.feed(ReadEvent::Data(chunk.to_vec())) {
            FeedStep::Pending(next) => m = next,
            FeedStep::Done(r) => {
                step = Some(r);
                break;
            }
        }
    }
    match step {
        Some(Ok(u)) => {
            assert_eq!(u.request.path, b"/chat".to_vec());
            assert!(u.leftover.is_empty());
        }
        _ => panic!("expected a successful upgrade"),
    }
}

#[test]
fn bytes_past_terminator_stay_unconsumed() {
    let m = begin_handshake(1u8);
    let bytes = b"GET /chat HTTP/1.1\r\nUpgrade: websocket\r\nSec-WebSocket-Key: AQIDBAUGBwgJCgsMDQ4PEA==\r\nSec-WebSocket-Version: 13\r\n\r\n\x81\x05hello".to_vec();
    match m.feed(ReadEvent::Data(bytes)) {
        FeedStep::Done(Ok(u)) => {
            // the read cursor sits exactly after the terminator: what was
            // read past it is handed back untouched
            assert_eq!(u.leftover, b"\x81\x05hello".to_vec());
        }
        _ => panic!("expected a successful upgrade"),
    }
}

#[test]
fn invalid_handshake_keeps_bytes_past_the_head() {
    let m = begin_handshake(1u8);
    // no upgrade header, and the client pipelined more bytes already
    let bytes = b"GET / HTTP/1.1\r\nHost: h\r\n\r\nmore".to_vec();
    match m.feed(ReadEvent::Data(bytes)) {
        FeedStep::Done(Err(ic)) => {
            assert_eq!(ic.error, WsError::InvalidHandshake);
            assert!(ic.parsed.is_some());
            // the head was consumed by the parser; everything after it is
            // handed back in the buffer
            assert_eq!(ic.buffer, Some(b"more".to_vec()));
        }
        _ => panic!("expected an invalid connection"),
    }
}

#[test]
fn malformed_head_keeps_every_byte() {
    let m = begin_handshake(1u8);
    // the request line has no second space, so parsing fails
    let bytes = b"BROKEN\r\nUpgrade: websocket\r\n\r\n".to_vec();
    match m.feed(ReadEvent::Data(bytes.clone())) {
        FeedStep::Done(Err(ic)) => {
            assert_eq!(ic.error, WsError::InvalidHandshake);
            assert_eq!(ic.stream, Some(1));
            assert!(ic.parsed.is_none());
            assert_eq!(ic.buffer, Some(bytes));
        }
        _ => panic!("expected an invalid connection"),
    }
}

#[test]
fn oversized_head_is_rejected_with_all_bytes() {
    let m = begin_handshake(1u8);
    let bytes = vec![b'a'; 70_000];
    match m.feed(ReadEvent::Data(bytes.clone())) {
        FeedStep::Done(Err(ic)) => {
            assert_eq!(ic.error, WsError::InvalidHandshake);
            assert_eq!(ic.stream, Some(1));
            assert!(ic.parsed.is_none());
            assert_eq!(ic.buffer, Some(bytes));
        }
        _ => panic!("expected an invalid connection"),
    }
}

#[test]
fn duplicated_handle_shares_the_socket() {
    let server = WsServer::bind(SocketAddress { ip: 0x7f00_0001, port: 8080 }, 77);
    let twin = server.try_clone();
    // a duplicate references the same underlying OS socket, never a new one
    assert_eq!(twin.listener.sock_id, server.listener.sock_id);
    assert_eq!(twin.listener.local, server.listener.local);
    assert_eq!(twin.ssl_acceptor, NoTlsAcceptor);
}

#[test]
fn secured_duplicate_shares_socket_and_config() {
    let server = WsServer::bind_secure(loopback(), 8, NoTlsAcceptor);
    let twin = server.try_clone_with(server.ssl_acceptor);
    assert_eq!(twin.listener.sock_id, 8);
    assert_eq!(twin.listener.local, server.listener.local);
    assert_eq!(twin.ssl_acceptor, NoTlsAcceptor);
}

#[test]
fn reactor_bridge_preserves_address_and_socket() {
    let server = WsServer::bind(SocketAddress { ip: 0x7f00_0001, port: 9001 }, 5);
    let before = server.local_addr();
    let bridged = server.into_async();
    // the migration adopts the bound socket: same identity, same address,
    // so a client connecting to the port still reaches the backlog
    assert_eq!(bridged.listener.local, before);
    assert_eq!(bridged.listener.sock_id, 5);
}

#[test]
fn tls_failure_salvages_nothing() {
    let server = WsServer::bind_secure(loopback(), 6, NoTlsAcceptor);
    let ic = rejected(server.accept::<u32>(AcceptEvent::TlsFailed));
    assert_eq!(ic.error, WsError::Tls);
    assert!(ic.stream.is_none());
    assert!(ic.parsed.is_none());
    assert!(ic.buffer.is_none());
}
