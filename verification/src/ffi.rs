//! What goes into the two system calls and what comes out of them.
//!
//! `getaddrinfo` takes NUL-terminated strings and numeric hints and gives back a
//! status and a list of nodes. `getnameinfo` takes a raw socket address and
//! gives back a status and two buffers. The functions here turn requests into
//! the former and answers into records; the calls themselves lie in between.

use crate::codes::{af_inet, af_inet6, libc_af_inet, libc_af_inet6};
use crate::error::{IoError, IoErrorView, ResolveError, ResolveErrorView};
use crate::text::{before_nul, decimal, find_nul, lossy, push_decimal, until_nul, utf8_lossy};
use crate::types::{
    opt_text, opt_vec, AddrInfo, AddrInfoHints, AddrInfoView, Protocol, ResolvedNames,
    ResolvedNamesView, SockType, SocketAddr, SocketAddrV4, SocketAddrV6,
};
use libc::c_int;
use vstd::prelude::*;
use vstd::string::StringExecFns;
use vstd::utf8::{
    decode_utf8, encode_scalar, encode_utf8, encode_utf8_decode_utf8, encode_utf8_valid_utf8,
    valid_utf8,
};

verus! {

/// Size of the buffer for a service name (`NI_MAXSERV`).
pub const NI_MAXSERV: usize = 32;

/// Size of a `sockaddr_in`.
pub const SOCKADDR_IN_LEN: u32 = 16;

/// Size of a `sockaddr_in6`.
pub const SOCKADDR_IN6_LEN: u32 = 28;

/// The text behind an optional string slice.
pub open spec fn opt_str(s: Option<&str>) -> Option<Seq<char>> {
    match s {
        Some(text) => Some(text@),
        None => None,
    }
}

/// What is said of a NUL byte at place `n` of a string.
pub open spec fn nul_message(n: int) -> Seq<char> {
    "nul byte found in provided data at position: "@ + decimal(n)
}

/// The C string that holds `text`: its UTF-8 bytes and a NUL. Text that holds a
/// NUL itself has none.
pub open spec fn c_string_of(text: Seq<char>) -> Result<Seq<u8>, IoErrorView> {
    match encode_utf8(text).index_of_first(0u8) {
        None => Ok(encode_utf8(text).push(0u8)),
        Some(n) => Err(IoErrorView::InvalidInput { message: nul_message(n) }),
    }
}

/// Makes a C string.
pub fn c_string(text: &str) -> (r: Result<Vec<u8>, IoError>)
    ensures
        match r {
            Ok(bytes) => c_string_of(text@) == Ok::<Seq<u8>, IoErrorView>(bytes@),
            Err(err) => c_string_of(text@) == Err::<Seq<u8>, IoErrorView>(err@),
        },
{
    let bytes: &[u8] = text.as_bytes();
    match find_nul(bytes) {
        Some(n) => {
            let mut message: String = String::new();
            message.append("nul byte found in provided data at position: ");
            push_decimal(&mut message, n as u64);
            assert(message@ =~= nul_message(n as int));
            Err(IoError::InvalidInput { message })
        },
        None => {
            let mut out: Vec<u8> = until_nul(bytes);
            out.push(0);
            Ok(out)
        },
    }
}

/// The fields of `addrinfo` that hints set.
#[derive(Debug, Clone, Copy, PartialEq, Eq, Structural)]
pub struct RawHints {
    /// `AI_*` flags.
    pub ai_flags: c_int,
    /// `AF_*` family.
    pub ai_family: c_int,
    /// `SOCK_*` type.
    pub ai_socktype: c_int,
    /// `IPPROTO_*` protocol.
    pub ai_protocol: c_int,
}

/// The numbers that stand for `hints`.
pub open spec fn raw_hints(hints: AddrInfoHints) -> RawHints {
    RawHints {
        ai_flags: hints.flags.0,
        ai_family: hints.family.code(),
        ai_socktype: hints.socktype.code(),
        ai_protocol: hints.protocol.code(),
    }
}

/// The arguments of a `getaddrinfo` call. `None` stands for a null pointer.
#[derive(Debug, Clone)]
pub struct AddrInfoRequest {
    /// The node name, NUL-terminated.
    pub node: Option<Vec<u8>>,
    /// The service name, NUL-terminated.
    pub service: Option<Vec<u8>>,
    /// The hints.
    pub hints: Option<RawHints>,
}

/// The view of an [`AddrInfoRequest`].
pub struct AddrInfoRequestView {
    /// See [`AddrInfoRequest::node`].
    pub node: Option<Seq<u8>>,
    /// See [`AddrInfoRequest::service`].
    pub service: Option<Seq<u8>>,
    /// See [`AddrInfoRequest::hints`].
    pub hints: Option<RawHints>,
}

impl View for AddrInfoRequest {
    type V = AddrInfoRequestView;

    open spec fn view(&self) -> AddrInfoRequestView {
        AddrInfoRequestView {
            node: opt_vec(self.node),
            service: opt_vec(self.service),
            hints: self.hints,
        }
    }
}

/// The C string of an optional text.
pub open spec fn opt_c_string_of(text: Option<Seq<char>>) -> Result<
    Option<Seq<u8>>,
    IoErrorView,
> {
    match text {
        None => Ok(None),
        Some(t) => match c_string_of(t) {
            Ok(bytes) => Ok(Some(bytes)),
            Err(err) => Err(err),
        },
    }
}

/// The arguments of the `getaddrinfo` call for a lookup. A NUL in the host is
/// reported before one in the service.
pub open spec fn request_of(
    host: Option<Seq<char>>,
    service: Option<Seq<char>>,
    hints: Option<AddrInfoHints>,
) -> Result<AddrInfoRequestView, ResolveErrorView> {
    match opt_c_string_of(host) {
        Err(err) => Err(ResolveErrorView::Io(err)),
        Ok(node) => match opt_c_string_of(service) {
            Err(err) => Err(ResolveErrorView::Io(err)),
            Ok(service) => Ok(
                AddrInfoRequestView {
                    node,
                    service,
                    hints: match hints {
                        Some(h) => Some(raw_hints(h)),
                        None => None,
                    },
                },
            ),
        },
    }
}

fn opt_c_string(text: Option<&str>) -> (r: Result<Option<Vec<u8>>, IoError>)
    ensures
        match r {
            Ok(bytes) => opt_c_string_of(opt_str(text)) == Ok::<Option<Seq<u8>>, IoErrorView>(
                opt_vec(bytes),
            ),
            Err(err) => opt_c_string_of(opt_str(text)) == Err::<Option<Seq<u8>>, IoErrorView>(err@),
        },
{
    match text {
        None => Ok(None),
        Some(t) => match c_string(t) {
            Ok(bytes) => Ok(Some(bytes)),
            Err(err) => Err(err),
        },
    }
}

/// Prepares a `getaddrinfo` call.
///
/// An absent host or service, or absent hints, become null pointers. A host or
/// a service that holds a NUL byte is refused.
pub fn getaddrinfo_request(
    host: Option<&str>,
    service: Option<&str>,
    hints: Option<AddrInfoHints>,
) -> (r: Result<AddrInfoRequest, ResolveError>)
    ensures
        match r {
            Ok(request) => request_of(opt_str(host), opt_str(service), hints) == Ok::<
                AddrInfoRequestView,
                ResolveErrorView,
            >(request@),
            Err(err) => request_of(opt_str(host), opt_str(service), hints) == Err::<
                AddrInfoRequestView,
                ResolveErrorView,
            >(err@),
        },
{
    let node: Option<Vec<u8>> = match opt_c_string(host) {
        Ok(node) => node,
        Err(err) => return Err(ResolveError::from(err)),
    };
    let service: Option<Vec<u8>> = match opt_c_string(service) {
        Ok(service) => service,
        Err(err) => return Err(ResolveError::from(err)),
    };
    let hints: Option<RawHints> = match hints {
        Some(h) => Some(
            RawHints {
                ai_flags: h.flags.0,
                ai_family: c_int::from(h.family),
                ai_socktype: c_int::from(h.socktype),
                ai_protocol: c_int::from(h.protocol),
            },
        ),
        None => None,
    };
    Ok(AddrInfoRequest { node, service, hints })
}

/// The fields of a `sockaddr_in`.
#[derive(Debug, Clone, Copy)]
pub struct SockaddrIn {
    /// `AF_*` family.
    pub sin_family: c_int,
    /// The port, in network byte order.
    pub sin_port: [u8; 2],
    /// The address, in network byte order.
    pub sin_addr: [u8; 4],
}

/// The fields of a `sockaddr_in6`.
#[derive(Debug, Clone, Copy)]
pub struct SockaddrIn6 {
    /// `AF_*` family.
    pub sin6_family: c_int,
    /// The port, in network byte order.
    pub sin6_port: [u8; 2],
    /// The flow information, as stored.
    pub sin6_flowinfo: u32,
    /// The address, in network byte order.
    pub sin6_addr: [u8; 16],
    /// The scope identifier.
    pub sin6_scope_id: u32,
}

/// A raw socket address.
#[derive(Debug, Clone, Copy)]
pub enum Sockaddr {
    /// An IPv4 address.
    In(SockaddrIn),
    /// An IPv6 address.
    In6(SockaddrIn6),
}

/// Two bytes in network byte order as a number.
pub open spec fn network_u16(bytes: [u8; 2]) -> u16 {
    (bytes@[0] * 256 + bytes@[1]) as u16
}

impl Sockaddr {
    /// The family field.
    pub open spec fn family(self) -> c_int {
        match self {
            Sockaddr::In(sin) => sin.sin_family,
            Sockaddr::In6(sin6) => sin6.sin6_family,
        }
    }

    /// The socket address that the other fields hold.
    pub open spec fn addr(self) -> SocketAddr {
        match self {
            Sockaddr::In(sin) => SocketAddr::V4(
                SocketAddrV4 { ip: sin.sin_addr, port: network_u16(sin.sin_port) },
            ),
            Sockaddr::In6(sin6) => SocketAddr::V6(
                SocketAddrV6 {
                    ip: sin6.sin6_addr,
                    port: network_u16(sin6.sin6_port),
                    flowinfo: sin6.sin6_flowinfo,
                    scope_id: sin6.sin6_scope_id,
                },
            ),
        }
    }
}

fn port_to_network(port: u16) -> (r: [u8; 2])
    ensures
        network_u16(r) == port,
        r@[0] == port / 256,
        r@[1] == port % 256,
{
    [(port / 256) as u8, (port % 256) as u8]
}

fn port_from_network(bytes: [u8; 2]) -> (r: u16)
    ensures
        r == network_u16(bytes),
{
    bytes[0] as u16 * 256 + bytes[1] as u16
}

/// The raw form of a socket address, and its size in bytes.
pub fn socketaddr_to_raw(addr: SocketAddr) -> (r: (Sockaddr, u32))
    ensures
        r.0.addr() == addr,
        r.0.family() == (if addr is V4 {
            af_inet()
        } else {
            af_inet6()
        }),
        r.1 == (if addr is V4 {
            SOCKADDR_IN_LEN
        } else {
            SOCKADDR_IN6_LEN
        }),
{
    match addr {
        SocketAddr::V4(v4) => (
            Sockaddr::In(
                SockaddrIn {
                    sin_family: libc_af_inet(),
                    sin_port: port_to_network(v4.port),
                    sin_addr: v4.ip,
                },
            ),
            SOCKADDR_IN_LEN,
        ),
        SocketAddr::V6(v6) => (
            Sockaddr::In6(
                SockaddrIn6 {
                    sin6_family: libc_af_inet6(),
                    sin6_port: port_to_network(v6.port),
                    sin6_flowinfo: v6.flowinfo,
                    sin6_addr: v6.ip,
                    sin6_scope_id: v6.scope_id,
                },
            ),
            SOCKADDR_IN6_LEN,
        ),
    }
}

/// Which structure the address of a node is.
#[derive(Debug, Clone, Copy, PartialEq, Eq, Structural)]
pub enum SockaddrKind {
    /// A `sockaddr_in`.
    In,
    /// A `sockaddr_in6`.
    In6,
    /// One that lookups do not read.
    Unsupported,
}

/// The structure that goes with an address family.
pub open spec fn kind_of(family: c_int) -> SockaddrKind {
    if family == af_inet() {
        SockaddrKind::In
    } else if family == af_inet6() {
        SockaddrKind::In6
    } else {
        SockaddrKind::Unsupported
    }
}

/// Tells which structure to read a node's address as.
pub fn sockaddr_kind(family: c_int) -> (r: SockaddrKind)
    ensures
        r == kind_of(family),
{
    if family == libc_af_inet() {
        SockaddrKind::In
    } else if family == libc_af_inet6() {
        SockaddrKind::In6
    } else {
        SockaddrKind::Unsupported
    }
}

/// A node of the list that `getaddrinfo` returns.
#[derive(Debug, Clone)]
pub struct AddrInfoNode {
    /// `AF_*` family.
    pub ai_family: c_int,
    /// `SOCK_*` type.
    pub ai_socktype: c_int,
    /// `IPPROTO_*` protocol.
    pub ai_protocol: c_int,
    /// The address, read as [`sockaddr_kind`] says; `None` for an unsupported
    /// family.
    pub ai_addr: Option<Sockaddr>,
    /// The bytes of the canonical name; `None` for a null pointer.
    pub ai_canonname: Option<Vec<u8>>,
}

impl AddrInfoNode {
    /// Whether the address was read as the family says.
    pub open spec fn well_formed(self) -> bool {
        match kind_of(self.ai_family) {
            SockaddrKind::In => self.ai_addr matches Some(Sockaddr::In(_)),
            SockaddrKind::In6 => self.ai_addr matches Some(Sockaddr::In6(_)),
            SockaddrKind::Unsupported => true,
        }
    }

    /// Whether the node makes a record.
    pub open spec fn supported(self) -> bool {
        kind_of(self.ai_family) != SockaddrKind::Unsupported
    }

    /// The record of a supported node.
    pub open spec fn record(self) -> AddrInfoView {
        AddrInfoView {
            addr: self.ai_addr->0.addr(),
            canonname: match self.ai_canonname {
                Some(bytes) => Some(utf8_lossy(bytes@)),
                None => None,
            },
            socktype: SockType::of_code(self.ai_socktype),
            protocol: Protocol::of_code(self.ai_protocol),
        }
    }
}

/// Reads one node. A node of an unsupported family makes no record.
pub fn parse_node(node: &AddrInfoNode) -> (r: Option<AddrInfo>)
    requires
        node.well_formed(),
    ensures
        r is Some <==> node.supported(),
        r matches Some(info) ==> info@ == node.record(),
        r matches Some(info) ==> (node.ai_canonname matches Some(bytes) ==> (valid_utf8(bytes@)
            ==> info@.canonname == Some(decode_utf8(bytes@)))),
{
    let addr: SocketAddr = match sockaddr_kind(node.ai_family) {
        SockaddrKind::Unsupported => return None,
        _ => match node.ai_addr {
            None => return None,
            Some(Sockaddr::In(sin)) => SocketAddr::V4(
                SocketAddrV4 { ip: sin.sin_addr, port: port_from_network(sin.sin_port) },
            ),
            Some(Sockaddr::In6(sin6)) => SocketAddr::V6(
                SocketAddrV6 {
                    ip: sin6.sin6_addr,
                    port: port_from_network(sin6.sin6_port),
                    flowinfo: sin6.sin6_flowinfo,
                    scope_id: sin6.sin6_scope_id,
                },
            ),
        },
    };
    let canonname: Option<String> = match &node.ai_canonname {
        Some(bytes) => Some(lossy(bytes.as_slice())),
        None => None,
    };
    Some(
        AddrInfo {
            addr,
            canonname,
            socktype: SockType::from(node.ai_socktype),
            protocol: Protocol::from(node.ai_protocol),
        },
    )
}

/// The nodes of a list that make records, in the list's order.
pub open spec fn supported_nodes(nodes: Seq<AddrInfoNode>) -> Seq<AddrInfoNode> {
    nodes.filter(|n: AddrInfoNode| n.supported())
}

/// The records of a list of nodes, in the list's order.
pub open spec fn records_of(nodes: Seq<AddrInfoNode>) -> Seq<AddrInfoView> {
    supported_nodes(nodes).map_values(|n: AddrInfoNode| n.record())
}

proof fn records_of_step(nodes: Seq<AddrInfoNode>, i: int)
    requires
        0 <= i < nodes.len(),
    ensures
        supported_nodes(nodes.take(i + 1)) == (if nodes[i].supported() {
            supported_nodes(nodes.take(i)).push(nodes[i])
        } else {
            supported_nodes(nodes.take(i))
        }),
        records_of(nodes.take(i + 1)) == (if nodes[i].supported() {
            records_of(nodes.take(i)).push(nodes[i].record())
        } else {
            records_of(nodes.take(i))
        }),
{
    reveal(Seq::filter);
    let keep = |n: AddrInfoNode| n.supported();
    let longer = nodes.take(i + 1);
    assert(longer.drop_last() == nodes.take(i));
    assert(longer.filter(keep) == (if keep(nodes[i]) {
        nodes.take(i).filter(keep).push(nodes[i])
    } else {
        nodes.take(i).filter(keep)
    }));
    assert(records_of(longer) =~= (if nodes[i].supported() {
        records_of(nodes.take(i)).push(nodes[i].record())
    } else {
        records_of(nodes.take(i))
    }));
}

/// Turns what `getaddrinfo` returned into records: the error for a status other
/// than zero, else the records of the supported nodes. A canonical name that is
/// valid UTF-8 is decoded as it stands.
pub fn getaddrinfo_response(status: c_int, nodes: &Vec<AddrInfoNode>) -> (r: Result<
    Vec<AddrInfo>,
    ResolveError,
>)
    requires
        status == 0 ==> forall|i: int|
            0 <= i < nodes.len() ==> (#[trigger] nodes@[i]).well_formed(),
    ensures
        r is Ok <==> status == 0,
        r matches Ok(infos) ==> infos@.map_values(|info: AddrInfo| info@) == records_of(nodes@),
        r matches Ok(infos) ==> infos.len() == supported_nodes(nodes@).len() && forall|k: int|
            0 <= k < infos.len() ==> (supported_nodes(nodes@)[k].ai_canonname matches Some(bytes)
                ==> (valid_utf8(bytes@) ==> (#[trigger] infos@[k])@.canonname == Some(
                decode_utf8(bytes@),
            ))),
        r matches Err(err) ==> err@ == ResolveErrorView::Gai(status),
{
    if status != 0 {
        return Err(ResolveError::Gai(status));
    }
    let mut infos: Vec<AddrInfo> = Vec::new();
    proof {
        reveal(Seq::filter);
        assert(infos@.map_values(|info: AddrInfo| info@) =~= records_of(nodes@.take(0)));
    }
    let mut i: usize = 0;
    while i < nodes.len()
        invariant
            i <= nodes.len(),
            forall|j: int| 0 <= j < nodes.len() ==> (#[trigger] nodes@[j]).well_formed(),
            infos@.map_values(|info: AddrInfo| info@) == records_of(nodes@.take(i as int)),
            infos.len() == supported_nodes(nodes@.take(i as int)).len(),
            forall|k: int|
                0 <= k < infos.len() ==> (supported_nodes(
                    nodes@.take(i as int),
                )[k].ai_canonname matches Some(bytes) ==> (valid_utf8(bytes@) ==> (
                #[trigger] infos@[k])@.canonname == Some(decode_utf8(bytes@)))),
        decreases nodes.len() - i,
    {
        let ghost before = infos@;
        proof {
            records_of_step(nodes@, i as int);
        }
        if let Some(info) = parse_node(&nodes[i]) {
            infos.push(info);
            assert(infos@.map_values(|info: AddrInfo| info@) =~= before.map_values(
                |info: AddrInfo| info@,
            ).push(info@));
        }
        i = i + 1;
    }
    assert(nodes@.take(nodes.len() as int) == nodes@);
    Ok(infos)
}

/// A name in a buffer, as text; none where it is empty.
pub open spec fn name_text(buf: Seq<u8>) -> Option<Seq<char>> {
    if utf8_lossy(before_nul(buf)).len() == 0 {
        None
    } else {
        Some(utf8_lossy(before_nul(buf)))
    }
}

/// A name in a buffer, as bytes; none where it is empty.
pub open spec fn name_bytes(buf: Seq<u8>) -> Option<Seq<u8>> {
    if before_nul(buf).len() == 0 {
        None
    } else {
        Some(before_nul(buf))
    }
}

fn name_from_buffer(buf: &[u8]) -> (r: (Option<String>, Option<Vec<u8>>))
    ensures
        opt_text(r.0) == name_text(buf@),
        opt_vec(r.1) == name_bytes(buf@),
        r.0 is Some <==> r.1 is Some,
        r.0 is Some && valid_utf8(before_nul(buf@)) ==> r.0->0@ == decode_utf8(before_nul(buf@)),
{
    let raw: Vec<u8> = until_nul(buf);
    let text: String = lossy(raw.as_slice());
    if text.as_str().is_empty() {
        (None, None)
    } else {
        (Some(text), Some(raw))
    }
}

/// Turns what `getnameinfo` returned into names: the error for a status other
/// than zero, else the C strings in the two buffers.
pub fn getnameinfo_response(status: c_int, host_buf: &[u8], serv_buf: &[u8]) -> (r: Result<
    ResolvedNames,
    ResolveError,
>)
    ensures
        r is Ok <==> status == 0,
        r matches Err(err) ==> err@ == ResolveErrorView::Gni(status),
        r matches Ok(names) ==> names@ == (ResolvedNamesView {
            hostname: name_text(host_buf@),
            hostname_raw: name_bytes(host_buf@),
            service: name_text(serv_buf@),
            service_raw: name_bytes(serv_buf@),
        }),
        r matches Ok(names) ==> (names.hostname is Some <==> names.hostname_raw is Some) && (
        names.service is Some <==> names.service_raw is Some),
        r matches Ok(names) ==> (names@.hostname_raw matches Some(raw) ==> (valid_utf8(raw)
            ==> names@.hostname == Some(decode_utf8(raw)))),
        r matches Ok(names) ==> (names@.service_raw matches Some(raw) ==> (valid_utf8(raw)
            ==> names@.service == Some(decode_utf8(raw)))),
{
    if status != 0 {
        return Err(ResolveError::Gni(status));
    }
    let (hostname, hostname_raw) = name_from_buffer(host_buf);
    let (service, service_raw) = name_from_buffer(serv_buf);
    Ok(ResolvedNames { hostname, hostname_raw, service, service_raw })
}

/// An address survives the way into its raw form and back: a node that holds what
/// [`socketaddr_to_raw`] made of an address makes a record with that address.
pub proof fn raw_addresses_round_trip(addr: SocketAddr, raw: Sockaddr, node: AddrInfoNode)
    requires
        raw.addr() == addr,
        raw.family() == (if addr is V4 {
            af_inet()
        } else {
            af_inet6()
        }),
        node.ai_family == raw.family(),
        node.ai_addr == Some(raw),
    ensures
        node.well_formed(),
        node.supported(),
        node.record().addr == addr,
{
}

/// An address has one raw form.
pub proof fn raw_addresses_are_unique(a: Sockaddr, b: Sockaddr)
    requires
        a.addr() == b.addr(),
        a.family() == b.family(),
    ensures
        a == b,
{
    let (pa, pb) = match (a, b) {
        (Sockaddr::In(x), Sockaddr::In(y)) => (x.sin_port, y.sin_port),
        (Sockaddr::In6(x), Sockaddr::In6(y)) => (x.sin6_port, y.sin6_port),
        _ => ([0u8, 0u8], [0u8, 0u8]),
    };
    assert(pa@ =~= pb@);
    assert(pa =~= pb);
}

proof fn only_nul_encodes_to_nul(c: char)
    ensures
        encode_scalar(c as u32).contains(0u8) <==> c == '\0',
{
    let v: u32 = c as u32;
    assert(v <= 0x7F ==> ((v & 0x7F) as u8 == 0 <==> v == 0)) by (bit_vector);
    assert(0xC0u8 | (((v >> 6) & 0x1F) as u8) != 0 && 0xE0u8 | (((v >> 12) & 0x0F) as u8) != 0
        && 0xF0u8 | (((v >> 18) & 0x7) as u8) != 0 && 0x80u8 | ((v & 0x3F) as u8) != 0 && 0x80u8
        | (((v >> 6) & 0x3F) as u8) != 0 && 0x80u8 | (((v >> 12) & 0x3F) as u8) != 0)
        by (bit_vector);
    let bytes = encode_scalar(v);
    if v == 0 {
        assert(bytes[0] == 0u8);
    }
}

proof fn nul_bytes_are_nul_chars(text: Seq<char>)
    ensures
        encode_utf8(text).contains(0u8) <==> text.contains('\0'),
    decreases text.len(),
{
    if text.len() > 0 {
        let rest = text.drop_first();
        let first = encode_scalar(text[0] as u32);
        nul_bytes_are_nul_chars(rest);
        only_nul_encodes_to_nul(text[0]);
        let bytes = first + encode_utf8(rest);
        assert(encode_utf8(text) == bytes);
        assert(bytes.contains(0u8) <==> first.contains(0u8) || encode_utf8(rest).contains(0u8)) by {
            if first.contains(0u8) {
                let i = choose|i: int| 0 <= i < first.len() && first[i] == 0u8;
                assert(bytes[i] == 0u8);
            }
            if encode_utf8(rest).contains(0u8) {
                let i = choose|i: int| 0 <= i < encode_utf8(rest).len() && encode_utf8(rest)[i]
                    == 0u8;
                assert(bytes[first.len() + i] == 0u8);
            }
            if bytes.contains(0u8) {
                let i = choose|i: int| 0 <= i < bytes.len() && bytes[i] == 0u8;
                if i < first.len() {
                    assert(first[i] == 0u8);
                } else {
                    assert(encode_utf8(rest)[i - first.len()] == 0u8);
                }
            }
        }
        assert(text.contains('\0') <==> text[0] == '\0' || rest.contains('\0')) by {
            if rest.contains('\0') {
                let i = choose|i: int| 0 <= i < rest.len() && rest[i] == '\0';
                assert(text[i + 1] == '\0');
            }
            if text.contains('\0') {
                let i = choose|i: int| 0 <= i < text.len() && text[i] == '\0';
                if i > 0 {
                    assert(rest[i - 1] == '\0');
                }
            }
        }
    }
}

/// Text makes a C string unless it holds a NUL, and is then what the C string
/// holds before its terminator.
pub proof fn c_strings_hold_their_text(text: Seq<char>)
    ensures
        c_string_of(text) is Ok <==> !text.contains('\0'),
        c_string_of(text) matches Ok(bytes) ==> {
            &&& bytes.last() == 0u8
            &&& before_nul(bytes) == encode_utf8(text)
            &&& valid_utf8(before_nul(bytes))
            &&& decode_utf8(before_nul(bytes)) == text
        },
{
    let bytes = encode_utf8(text);
    nul_bytes_are_nul_chars(text);
    bytes.index_of_first_ensures(0u8);
    bytes.push(0u8).index_of_first_ensures(0u8);
    encode_utf8_valid_utf8(text);
    encode_utf8_decode_utf8(text);
    if !bytes.contains(0u8) {
        let n = bytes.push(0u8).index_of_first(0u8);
        assert(bytes.push(0u8)[bytes.len() as int] == 0u8);
        assert(n == Some(bytes.len() as int)) by {
            if n->0 < bytes.len() {
                assert(bytes[n->0] == 0u8);
            }
        }
        assert(bytes.push(0u8).take(bytes.len() as int) =~= bytes);
    }
}

/// A `getaddrinfo` call is made unless the host or the service holds a NUL.
pub proof fn only_nul_is_refused(
    host: Option<Seq<char>>,
    service: Option<Seq<char>>,
    hints: Option<AddrInfoHints>,
)
    ensures
        request_of(host, service, hints) is Ok <==> !(host matches Some(h) && h.contains('\0'))
            && !(service matches Some(s) && s.contains('\0')),
{
    if let Some(h) = host {
        c_strings_hold_their_text(h);
    }
    if let Some(s) = service {
        c_strings_hold_their_text(s);
    }
}

/// Records come from nodes in order: the records of two lists in a row are those
/// of the first and then those of the second, and there are no more of them than
/// nodes.
pub proof fn records_keep_their_order(a: Seq<AddrInfoNode>, b: Seq<AddrInfoNode>)
    ensures
        records_of(a + b) == records_of(a) + records_of(b),
        records_of(a).len() <= a.len(),
{
}

} // verus!
