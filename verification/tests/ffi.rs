use libc::{AF_INET, AF_INET6, AF_UNIX, SOCK_DGRAM, SOCK_STREAM};
use std::mem::size_of;
use tokio_system_resolver::error::IoError;
use tokio_system_resolver::ffi::{
    getaddrinfo_request, getaddrinfo_response, getnameinfo_response, parse_node, sockaddr_kind,
    socketaddr_to_raw, AddrInfoNode, RawHints, Sockaddr, SockaddrIn, SockaddrIn6, SockaddrKind,
    NI_MAXSERV,
};
use tokio_system_resolver::types::{SocketAddr, SocketAddrV4, SocketAddrV6};
use tokio_system_resolver::{
    AddrInfoHints, AddressFamily, AiFlags, Protocol, ResolveError, SockType,
};

const V6_LOCALHOST: [u8; 16] = [0, 0, 0, 0, 0, 0, 0, 0, 0, 0, 0, 0, 0, 0, 0, 1];

fn v4_node(last: u8, port: [u8; 2]) -> AddrInfoNode {
    AddrInfoNode {
        ai_family: AF_INET,
        ai_socktype: SOCK_STREAM,
        ai_protocol: 6,
        ai_addr: Some(Sockaddr::In(SockaddrIn {
            sin_family: AF_INET,
            sin_port: port,
            sin_addr: [127, 0, 0, last],
        })),
        ai_canonname: None,
    }
}

fn unix_node() -> AddrInfoNode {
    AddrInfoNode {
        ai_family: AF_UNIX,
        ai_socktype: SOCK_STREAM,
        ai_protocol: 0,
        ai_addr: None,
        ai_canonname: None,
    }
}

fn message_of(err: ResolveError) -> String {
    match err {
        ResolveError::Io(IoError::InvalidInput { message }) => message,
        _ => panic!("not an invalid input"),
    }
}

#[test]
fn getaddrinfo_rejects_interior_nul() {
    let err = getaddrinfo_request(Some("bad\0host"), None, None).unwrap_err();
    assert!(matches!(err, ResolveError::Io(IoError::InvalidInput { .. })));
    assert_eq!(message_of(err), "nul byte found in provided data at position: 3");
}

#[test]
fn getaddrinfo_rejects_interior_nul_in_the_service() {
    let err = getaddrinfo_request(Some("host"), Some("0123456789\0"), None).unwrap_err();
    assert_eq!(message_of(err), "nul byte found in provided data at position: 10");
    // The host comes first.
    let err = getaddrinfo_request(Some("\0"), Some("ab\0"), None).unwrap_err();
    assert_eq!(message_of(err), "nul byte found in provided data at position: 0");
    // Positions count bytes.
    let err = getaddrinfo_request(Some("\u{e9}\0"), None, None).unwrap_err();
    assert_eq!(message_of(err), "nul byte found in provided data at position: 2");
}

#[test]
fn getaddrinfo_takes_c_strings_and_numbers() {
    let hints = AddrInfoHints {
        family: AddressFamily::Inet6,
        socktype: SockType::Dgram,
        protocol: Protocol::Other(17),
        flags: AiFlags::PASSIVE() | AiFlags::NUMERICSERV(),
    };
    let request = getaddrinfo_request(Some("h\u{e9}"), Some("443"), Some(hints)).unwrap();
    assert_eq!(request.node.unwrap(), b"h\xc3\xa9\0");
    assert_eq!(request.service.unwrap(), b"443\0");
    assert_eq!(
        request.hints.unwrap(),
        RawHints {
            ai_flags: libc::AI_PASSIVE | libc::AI_NUMERICSERV,
            ai_family: AF_INET6,
            ai_socktype: SOCK_DGRAM,
            ai_protocol: libc::IPPROTO_UDP,
        }
    );
}

#[test]
fn getaddrinfo_default_hints_are_zero() {
    let request = getaddrinfo_request(Some("h"), None, Some(AddrInfoHints::default())).unwrap();
    let zero = RawHints { ai_flags: 0, ai_family: 0, ai_socktype: 0, ai_protocol: 0 };
    assert_eq!(request.hints.unwrap(), zero);
}

#[test]
fn getaddrinfo_takes_null_for_what_is_absent() {
    let request = getaddrinfo_request(None, Some(""), None).unwrap();
    assert!(request.node.is_none());
    assert_eq!(request.service.unwrap(), b"\0");
    assert!(request.hints.is_none());
    let request = getaddrinfo_request(Some("localhost"), None, None).unwrap();
    assert_eq!(request.node.unwrap(), b"localhost\0");
    assert!(request.service.is_none());
}

#[test]
fn getaddrinfo_failures_keep_their_code() {
    let err = getaddrinfo_response(libc::EAI_NONAME, &vec![]).unwrap_err();
    assert!(matches!(err, ResolveError::Gai(code) if code == libc::EAI_NONAME));
}

#[test]
fn getaddrinfo_results_keep_their_order() {
    let nodes = vec![v4_node(1, [0, 80]), unix_node(), v4_node(2, [1, 187])];
    let infos = getaddrinfo_response(0, &nodes).unwrap();
    assert_eq!(infos.len(), 2);
    assert_eq!(infos[0].addr, SocketAddr::V4(SocketAddrV4 { ip: [127, 0, 0, 1], port: 80 }));
    assert_eq!(infos[1].addr, SocketAddr::V4(SocketAddrV4 { ip: [127, 0, 0, 2], port: 443 }));
    assert_eq!(infos[0].socktype, SockType::Stream);
    assert_eq!(infos[0].protocol, Protocol::Other(6));
    assert!(infos[0].canonname.is_none());
    assert!(getaddrinfo_response(0, &vec![]).unwrap().is_empty());
}

#[test]
fn socketaddr_to_raw_preserves_ipv4_fields() {
    let addr = SocketAddr::V4(SocketAddrV4 { ip: [127, 1, 2, 3], port: 8080 });
    let (storage, len) = socketaddr_to_raw(addr);

    assert_eq!(len as usize, size_of::<libc::sockaddr_in>());

    match storage {
        Sockaddr::In(raw) => {
            assert_eq!(raw.sin_family, AF_INET);
            assert_eq!(u16::from_be_bytes(raw.sin_port), 8080);
            assert_eq!(raw.sin_addr, [127, 1, 2, 3]);
        }
        Sockaddr::In6(_) => panic!("expected a sockaddr_in"),
    }
}

#[test]
fn socketaddr_to_raw_preserves_ipv6_fields() {
    let addr = SocketAddr::V6(SocketAddrV6 {
        ip: V6_LOCALHOST,
        port: 443,
        flowinfo: 7,
        scope_id: 11,
    });
    let (storage, len) = socketaddr_to_raw(addr);

    assert_eq!(len as usize, size_of::<libc::sockaddr_in6>());

    match storage {
        Sockaddr::In6(raw) => {
            assert_eq!(raw.sin6_family, AF_INET6);
            assert_eq!(u16::from_be_bytes(raw.sin6_port), 443);
            assert_eq!(raw.sin6_flowinfo, 7);
            assert_eq!(raw.sin6_scope_id, 11);
            assert_eq!(raw.sin6_addr, V6_LOCALHOST);
        }
        Sockaddr::In(_) => panic!("expected a sockaddr_in6"),
    }
}

#[test]
fn raw_addresses_come_back() {
    let v6 = SocketAddr::V6(SocketAddrV6 {
        ip: V6_LOCALHOST,
        port: 65535,
        flowinfo: 1,
        scope_id: 2,
    });
    let v4 = SocketAddr::V4(SocketAddrV4 { ip: [192, 0, 2, 1], port: 258 });
    for (addr, family) in [(v6, AF_INET6), (v4, AF_INET)] {
        let node = AddrInfoNode {
            ai_family: family,
            ai_socktype: 0,
            ai_protocol: 0,
            ai_addr: Some(socketaddr_to_raw(addr).0),
            ai_canonname: None,
        };
        assert_eq!(parse_node(&node).unwrap().addr, addr);
    }
}

#[test]
fn parse_node_extracts_canonname() {
    let node = AddrInfoNode {
        ai_family: AF_INET,
        ai_socktype: SOCK_STREAM,
        ai_protocol: 0,
        ai_addr: Some(Sockaddr::In(SockaddrIn {
            sin_family: AF_INET,
            sin_port: [0, 0],
            sin_addr: [127, 0, 0, 1],
        })),
        ai_canonname: Some(b"localhost".to_vec()),
    };
    let parsed = parse_node(&node).unwrap();
    assert_eq!(parsed.addr, SocketAddr::V4(SocketAddrV4 { ip: [127, 0, 0, 1], port: 0 }));
    assert_eq!(parsed.canonname.as_deref(), Some("localhost"));
    assert_eq!(parsed.socktype, SockType::Stream);
    assert_eq!(parsed.protocol, Protocol::Unspec);
}

#[test]
fn parse_node_reads_ipv6_addresses() {
    let node = AddrInfoNode {
        ai_family: AF_INET6,
        ai_socktype: SOCK_DGRAM,
        ai_protocol: 17,
        ai_addr: Some(Sockaddr::In6(SockaddrIn6 {
            sin6_family: AF_INET6,
            sin6_port: [1, 187],
            sin6_flowinfo: 7,
            sin6_addr: V6_LOCALHOST,
            sin6_scope_id: 11,
        })),
        ai_canonname: Some(vec![0xff]),
    };
    let parsed = parse_node(&node).unwrap();
    let v6 = SocketAddrV6 { ip: V6_LOCALHOST, port: 443, flowinfo: 7, scope_id: 11 };
    assert_eq!(parsed.addr, SocketAddr::V6(v6));
    assert_eq!(parsed.canonname.as_deref(), Some("\u{fffd}"));
    assert_eq!(parsed.socktype, SockType::Dgram);
    assert_eq!(parsed.protocol, Protocol::Other(17));
}

#[test]
fn parse_node_returns_none_for_unsupported_family() {
    let node = unix_node();
    assert_eq!(sockaddr_kind(node.ai_family), SockaddrKind::Unsupported);
    assert!(parse_node(&node).is_none());
    assert_eq!(sockaddr_kind(AF_INET), SockaddrKind::In);
    assert_eq!(sockaddr_kind(AF_INET6), SockaddrKind::In6);
}

#[test]
fn getnameinfo_failures_keep_their_code() {
    let err = getnameinfo_response(libc::EAI_NONAME, b"host\0", b"80\0").unwrap_err();
    assert!(matches!(err, ResolveError::Gni(code) if code == libc::EAI_NONAME));
}

#[test]
fn getnameinfo_names_end_at_the_first_nul() {
    let mut host = [0u8; 1025];
    host[..9].copy_from_slice(b"127.0.0.1");
    host[12] = b'x';
    let mut serv = [0u8; NI_MAXSERV];
    serv[..2].copy_from_slice(b"80");
    let names = getnameinfo_response(0, &host, &serv).unwrap();
    assert_eq!(names.hostname.as_deref(), Some("127.0.0.1"));
    assert_eq!(names.hostname_raw.as_deref(), Some(&b"127.0.0.1"[..]));
    assert_eq!(names.service.as_deref(), Some("80"));
    assert_eq!(names.service_raw.as_deref(), Some(&b"80"[..]));
}

#[test]
fn getnameinfo_leaves_out_empty_names() {
    let names = getnameinfo_response(0, b"\0abc", &[]).unwrap();
    assert!(names.hostname.is_none());
    assert!(names.hostname_raw.is_none());
    assert!(names.service.is_none());
    assert!(names.service_raw.is_none());
}

#[test]
fn getnameinfo_keeps_raw_bytes() {
    let names = getnameinfo_response(0, b"h\xffst\0", b"full").unwrap();
    assert_eq!(names.hostname.as_deref(), Some("h\u{fffd}st"));
    assert_eq!(names.hostname_raw.as_deref(), Some(&b"h\xffst"[..]));
    // A buffer without a NUL is read whole.
    assert_eq!(names.service.as_deref(), Some("full"));
}

/// Each record keeps the name of its own node, past nodes that make none.
#[test]
fn records_keep_the_names_of_their_nodes() {
    let mut first = v4_node(1, [0, 80]);
    first.ai_canonname = Some("h\u{f6}st".as_bytes().to_vec());
    let mut last = v4_node(2, [0, 81]);
    last.ai_canonname = Some(b"localhost".to_vec());
    let nodes = vec![unix_node(), first, unix_node(), v4_node(3, [0, 82]), last];
    let infos = getaddrinfo_response(0, &nodes).unwrap();
    let names: Vec<Option<&str>> = infos.iter().map(|info| info.canonname.as_deref()).collect();
    assert_eq!(names, vec![Some("h\u{f6}st"), None, Some("localhost")]);
}
