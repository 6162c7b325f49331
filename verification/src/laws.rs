//! What the operations promise of their results.
//!
//! A law takes results that functions of the crate gave and says what must hold
//! of them in numbers, bits, bytes and text, or how the results of several calls
//! go together. `call_ensures(f, args, r)` reads: `r` is a result of `f` on
//! `args`. `call_requires(f, args)` reads: `f` takes `args`.

use crate::config::ResolverConfig;
use crate::error::{gai_message, IoError, ResolveError};
use crate::ffi::{
    c_string, c_strings_hold_their_text, getaddrinfo_request, getaddrinfo_response,
    getnameinfo_response, parse_node, records_of, sockaddr_kind, socketaddr_to_raw, supported_nodes,
    AddrInfoNode, AddrInfoRequest, Sockaddr, SockaddrKind,
};
use crate::resolver::{
    acquire_permit, getaddrinfo_is_inline, getnameinfo_is_inline, semaphore_limit, Action,
    AddrLookup, Call, Event, HostLookup, PermitOutcome, Stage, Step, SystemResolver, WorkerEvent,
    WorkerWait,
};
use crate::text::{c_strings_end_at_the_first_nul, decimal, decimal_nat, utf8_lossy};
use crate::time::Duration;
use crate::types::{
    AddrInfo, AddrInfoHints, AddressFamily, AiFlags, NiFlags, Protocol, ResolvedNames, SockType,
    SocketAddr,
};
use libc::c_int;
use tokio::sync::Semaphore;
use vstd::prelude::*;
use vstd::utf8::{decode_utf8, encode_utf8, valid_utf8};

verus! {

/// A second is a billion nanoseconds, a millisecond a million, and a second a
/// thousand milliseconds.
pub proof fn spans_are_exact(secs: u64, millis: u64, s: Duration, m: Duration)
    requires
        call_ensures(Duration::from_secs, (secs,), s),
        call_ensures(Duration::from_millis, (millis,), m),
    ensures
        s.nanos == secs * 1_000_000_000,
        m.nanos == millis * 1_000_000,
        millis == secs * 1000 <==> m == s,
{
}

/// A resolver is made with one semaphore of `hard_limit` permits, and with one of
/// as many as the smaller of the two limits, and keeps its configuration.
pub proof fn resolvers_have_the_configured_permits(config: ResolverConfig, r: SystemResolver)
    requires
        call_ensures(SystemResolver::new, (config,), r),
    ensures
        semaphore_limit(r.hard_semaphore()) == config.hard_limit,
        semaphore_limit(r.soft_semaphore()) <= config.soft_limit,
        semaphore_limit(r.soft_semaphore()) <= config.hard_limit,
        semaphore_limit(r.soft_semaphore()) == config.soft_limit || semaphore_limit(
            r.soft_semaphore(),
        ) == config.hard_limit,
        r.config().soft_limit == config.soft_limit,
        r.config().hard_limit == config.hard_limit,
        r.config().stall_threshold == config.stall_threshold,
        r.config().timeout == config.timeout,
        config.hard_limit <= usize::MAX / 8 ==> call_requires(SystemResolver::new, (config,)),
{
}

/// What is left out of a configuration, of hints and of flags: eight workers and
/// thirty-two at most, stalled after half a second, with no timeout; and no
/// restriction of a lookup.
pub proof fn defaults_restrict_nothing(
    config: ResolverConfig,
    hints: AddrInfoHints,
    family: AddressFamily,
    protocol: Protocol,
    ai: AiFlags,
    ni: NiFlags,
)
    requires
        call_ensures(<ResolverConfig as Default>::default, (), config),
        call_ensures(<AddrInfoHints as Default>::default, (), hints),
        call_ensures(<AddressFamily as Default>::default, (), family),
        call_ensures(<Protocol as Default>::default, (), protocol),
        call_ensures(<AiFlags as Default>::default, (), ai),
        call_ensures(<NiFlags as Default>::default, (), ni),
    ensures
        config.soft_limit == 8,
        config.hard_limit == 32,
        config.stall_threshold.nanos == 500_000_000,
        config.timeout is None,
        hints.family == family,
        hints.protocol == protocol,
        hints.flags == ai,
        hints.socktype == SockType::Other(0),
        family is Unspec,
        protocol is Unspec,
        ai.0 == 0,
        ni.0 == 0,
{
}

/// The named flags of a forward lookup are the system's bits.
pub proof fn ai_flags_are_the_systems_bits()
    ensures
        forall|r: AiFlags| call_ensures(AiFlags::NONE, (), r) ==> r.0 == 0,
        forall|r: AiFlags| call_ensures(AiFlags::PASSIVE, (), r) ==> r.0 == 0x1,
        forall|r: AiFlags| call_ensures(AiFlags::CANONNAME, (), r) ==> r.0 == 0x2,
        forall|r: AiFlags| call_ensures(AiFlags::NUMERICHOST, (), r) ==> r.0 == 0x4,
        forall|r: AiFlags| call_ensures(AiFlags::V4MAPPED, (), r) ==> r.0 == 0x8,
        forall|r: AiFlags| call_ensures(AiFlags::ADDRCONFIG, (), r) ==> r.0 == 0x20,
        forall|r: AiFlags| call_ensures(AiFlags::NUMERICSERV, (), r) ==> r.0 == 0x400,
{
}

/// The named flags of a reverse lookup are the system's bits.
pub proof fn ni_flags_are_the_systems_bits()
    ensures
        forall|r: NiFlags| call_ensures(NiFlags::NONE, (), r) ==> r.0 == 0,
        forall|r: NiFlags| call_ensures(NiFlags::NUMERICHOST, (), r) ==> r.0 == 1,
        forall|r: NiFlags| call_ensures(NiFlags::NUMERICSERV, (), r) ==> r.0 == 2,
        forall|r: NiFlags| call_ensures(NiFlags::NOFQDN, (), r) ==> r.0 == 4,
        forall|r: NiFlags| call_ensures(NiFlags::NAMEREQD, (), r) ==> r.0 == 8,
        forall|r: NiFlags| call_ensures(NiFlags::DGRAM, (), r) ==> r.0 == 16,
{
}

proof fn bit_sets(a: c_int, b: c_int)
    ensures
        (a | b) & a == a,
        (a | b) & b == b,
        (a | b) & !a & !b == 0,
        (a & b) & !a == 0,
        (a & b) & !b == 0,
        a & b & !(a & b) == 0,
        (a & !b) & b == 0,
        (a & !b) & !a == 0,
        (a & !b) | (a & b) == a,
        !a & a == 0,
        !a | a == -1,
{
    assert((a | b) & a == a) by (bit_vector);
    assert((a | b) & b == b) by (bit_vector);
    assert((a | b) & !a & !b == 0) by (bit_vector);
    assert((a & b) & !a == 0 && (a & b) & !b == 0 && a & b & !(a & b) == 0) by (bit_vector);
    assert((a & !b) & b == 0 && (a & !b) & !a == 0 && (a & !b) | (a & b) == a) by (bit_vector);
    assert(!a & a == 0 && !a | a == -1i32) by (bit_vector);
}

/// `AiFlags` are sets of bits. A union holds both sides and nothing else, an
/// intersection what both sides hold, a complement every other bit; and a flag is
/// contained where the common bits are a positive number.
pub proof fn ai_flags_are_sets(a: AiFlags, b: AiFlags)
    ensures
        forall|r: AiFlags| #[trigger]
            call_ensures(<AiFlags as core::ops::BitOr>::bitor, (a, b), r) ==> r.0 & a.0 == a.0 && r.0
                & b.0 == b.0 && r.0 & !a.0 & !b.0 == 0,
        forall|r: AiFlags| #[trigger]
            call_ensures(<AiFlags as core::ops::BitAnd>::bitand, (a, b), r) ==> r.0 & !a.0 == 0
                && r.0 & !b.0 == 0 && a.0 & b.0 & !r.0 == 0,
        forall|r: AiFlags| #[trigger]
            call_ensures(<AiFlags as core::ops::Not>::not, (a,), r) ==> r.0 & a.0 == 0 && r.0 | a.0
                == -1,
        forall|r: bool| #[trigger]
            call_ensures(AiFlags::contains, (&a, b), r) ==> r == (a.0 & b.0 > 0),
{
    bit_sets(a.0, b.0);
}

/// Setting `AiFlags` adds their bits and keeps all others, clearing them takes
/// just their bits away.
pub proof fn ai_flags_change_as_sets(flags: &mut AiFlags, b: AiFlags)
    ensures
        ({
            let (was, now): (c_int, c_int) = (old(flags).0, final(flags).0);
            let set = now & was == was && now & b.0 == b.0 && now & !was & !b.0 == 0;
            let cleared = now & b.0 == 0 && now & !was == 0 && now | (was & b.0) == was;
            &&& call_ensures(AiFlags::insert, (flags, b), ()) ==> set
            &&& call_ensures(AiFlags::remove, (flags, b), ()) ==> cleared
        }),
{
    bit_sets(old(flags).0, b.0);
}

/// `NiFlags` are sets of bits. A union holds both sides and nothing else, an
/// intersection what both sides hold, a complement every other bit; and a flag is
/// contained where the common bits are a positive number.
pub proof fn ni_flags_are_sets(a: NiFlags, b: NiFlags)
    ensures
        forall|r: NiFlags| #[trigger]
            call_ensures(<NiFlags as core::ops::BitOr>::bitor, (a, b), r) ==> r.0 & a.0 == a.0 && r.0
                & b.0 == b.0 && r.0 & !a.0 & !b.0 == 0,
        forall|r: NiFlags| #[trigger]
            call_ensures(<NiFlags as core::ops::BitAnd>::bitand, (a, b), r) ==> r.0 & !a.0 == 0
                && r.0 & !b.0 == 0 && a.0 & b.0 & !r.0 == 0,
        forall|r: NiFlags| #[trigger]
            call_ensures(<NiFlags as core::ops::Not>::not, (a,), r) ==> r.0 & a.0 == 0 && r.0 | a.0
                == -1,
        forall|r: bool| #[trigger]
            call_ensures(NiFlags::contains, (&a, b), r) ==> r == (a.0 & b.0 > 0),
{
    bit_sets(a.0, b.0);
}

/// Setting `NiFlags` adds their bits and keeps all others, clearing them takes
/// just their bits away.
pub proof fn ni_flags_change_as_sets(flags: &mut NiFlags, b: NiFlags)
    ensures
        ({
            let (was, now): (c_int, c_int) = (old(flags).0, final(flags).0);
            let set = now & was == was && now & b.0 == b.0 && now & !was & !b.0 == 0;
            let cleared = now & b.0 == 0 && now & !was == 0 && now | (was & b.0) == was;
            &&& call_ensures(NiFlags::insert, (flags, b), ()) ==> set
            &&& call_ensures(NiFlags::remove, (flags, b), ()) ==> cleared
        }),
{
    bit_sets(old(flags).0, b.0);
}

/// Address families have the system's numbers.
pub proof fn families_have_the_systems_numbers(family: AddressFamily, r: c_int)
    requires
        call_ensures(<c_int as From<AddressFamily>>::from, (family,), r),
    ensures
        r == 0 <==> family is Unspec,
        r == 2 <==> family is Inet,
        r == 10 <==> family is Inet6,
        r == 0 || r == 2 || r == 10,
{
}

/// Socket types have the system's numbers, and numbers that stand for no named
/// type are kept.
pub proof fn socket_types_have_the_systems_numbers(v: c_int, s: SockType, n: c_int, t: SockType)
    requires
        call_ensures(<SockType as From<c_int>>::from, (v,), s),
        call_ensures(<c_int as From<SockType>>::from, (t,), n),
    ensures
        s is Stream <==> v == 1,
        s is Dgram <==> v == 2,
        s is Raw <==> v == 3,
        s matches SockType::Other(w) ==> w == v,
        t is Stream ==> n == 1,
        t is Dgram ==> n == 2,
        t is Raw ==> n == 3,
        t matches SockType::Other(w) ==> n == w,
        t == s ==> n == v,
{
}

/// Protocols have the system's numbers, and zero stands for any.
pub proof fn protocols_have_the_systems_numbers(v: c_int, p: Protocol, n: c_int, q: Protocol)
    requires
        call_ensures(<Protocol as From<c_int>>::from, (v,), p),
        call_ensures(<c_int as From<Protocol>>::from, (q,), n),
    ensures
        p is Unspec <==> v == 0,
        p matches Protocol::Other(w) ==> w == v,
        q is Unspec ==> n == 0,
        q matches Protocol::Other(w) ==> n == w,
        q == p ==> n == v,
{
}

/// The port of a socket address is that of the address it holds.
pub proof fn ports_are_those_of_the_address(addr: SocketAddr, r: u16)
    requires
        call_ensures(SocketAddr::port, (&addr,), r),
    ensures
        addr matches SocketAddr::V4(v4) ==> r == v4.port,
        addr matches SocketAddr::V6(v6) ==> r == v6.port,
{
}

/// The number that a string of decimal digits stands for.
pub open spec fn digits_value(text: Seq<char>) -> int
    decreases text.len(),
{
    if text.len() == 0 {
        0
    } else {
        10 * digits_value(text.drop_last()) + (text.last() as int - '0' as int)
    }
}

/// Whether `text` is the decimal numeral for `n`: digits that stand for it, with
/// no zero in front of others.
pub open spec fn is_numeral(text: Seq<char>, n: int) -> bool {
    &&& text.len() > 0
    &&& forall|i: int| 0 <= i < text.len() ==> '0' <= #[trigger] text[i] <= '9'
    &&& text[0] == '0' ==> text.len() == 1
    &&& digits_value(text) == n
}

/// A natural number is written as its numeral.
pub proof fn naturals_read_back(n: nat)
    ensures
        is_numeral(decimal_nat(n), n as int),
    decreases n,
{
    reveal_with_fuel(digits_value, 2);
    let text = decimal_nat(n);
    if n >= 10 {
        naturals_read_back(n / 10);
        assert(text.drop_last() =~= decimal_nat(n / 10));
    } else {
        assert(text.drop_last() =~= Seq::empty());
    }
}

/// An integer is written as its numeral, after a minus sign where it is negative.
pub proof fn integers_read_back(i: int)
    ensures
        i >= 0 ==> is_numeral(decimal(i), i),
        i < 0 ==> decimal(i).len() > 0 && decimal(i)[0] == '-' && is_numeral(
            decimal(i).skip(1),
            -i,
        ),
{
    if i < 0 {
        naturals_read_back((-i) as nat);
        assert(decimal(i).skip(1) =~= decimal_nat((-i) as nat));
    } else {
        naturals_read_back(i as nat);
    }
}

/// The text for a code is what the system says of it. Where it says nothing, the
/// text ends in the code's own numeral.
pub proof fn codes_have_their_text(code: i32, strerror: Option<&[u8]>, r: String)
    requires
        call_ensures(gai_message, (code, strerror), r),
    ensures
        strerror matches Some(bytes) ==> r@ == utf8_lossy(bytes@),
        strerror matches Some(bytes) ==> (valid_utf8(bytes@) ==> r@ == decode_utf8(bytes@)),
        strerror is None ==> r@.len() > 11 && r@.take(11) == "error code "@,
        strerror is None && code >= 0 ==> is_numeral(r@.skip(11), code as int),
        strerror is None && code < 0 ==> r@[11] == '-' && is_numeral(r@.skip(12), -code),
{
    reveal_strlit("error code ");
    integers_read_back(code as int);
    if strerror is None {
        assert(r@.take(11) =~= "error code "@);
        assert(r@.skip(11) =~= decimal(code as int));
        assert(r@.skip(12) =~= decimal(code as int).skip(1));
    }
}

/// Errors say what failed. A failed system call is named in front of the text for
/// its code, an I/O error has its own text, and every other error a fixed one.
pub proof fn errors_say_what_failed(
    err: ResolveError,
    strerror: Option<&[u8]>,
    code: Option<i32>,
    text: String,
    r: String,
)
    requires
        call_ensures(ResolveError::gai_code, (&err,), code),
        code matches Some(c) ==> call_ensures(gai_message, (c, strerror), text),
        call_ensures(ResolveError::message, (&err, strerror), r),
    ensures
        err matches ResolveError::Gai(c) ==> code == Some(c) && r@ == "getaddrinfo: "@ + text@,
        err matches ResolveError::Gni(c) ==> code == Some(c) && r@ == "getnameinfo: "@ + text@,
        err matches ResolveError::Io(IoError::InvalidInput { message }) ==> r@ == message@,
        err matches ResolveError::Io(IoError::Os { message, .. }) ==> r@ == message@,
        err matches ResolveError::Io(IoError::Other { message }) ==> r@ == message@,
        err is Cancelled ==> r@ == "resolver cancelled"@,
        err is TimedOut ==> r@ == "resolver timed out"@,
        err is LengthInvariantViolated ==> r@ == "Length invariant violated"@,
        code is Some <==> err is Gai || err is Gni,
{
}

/// An I/O error is kept as it is.
pub proof fn io_errors_are_kept(err: IoError, r: ResolveError)
    requires
        call_ensures(<ResolveError as From<IoError>>::from, (err,), r),
    ensures
        r == ResolveError::Io(err),
{
}

/// Whether the first NUL among `bytes` stands at place `n`.
pub open spec fn first_nul_at(bytes: Seq<u8>, n: int) -> bool {
    &&& 0 <= n < bytes.len()
    &&& bytes[n] == 0
    &&& forall|j: int| 0 <= j < n ==> bytes[j] != 0
}

/// Whether `message` names the place of the first NUL among the bytes of `text`.
pub open spec fn names_the_first_nul(message: Seq<char>, text: Seq<char>) -> bool {
    &&& message.len() > 45
    &&& message.take(45) == "nul byte found in provided data at position: "@
    &&& exists|n: int| #[trigger]
        first_nul_at(encode_utf8(text), n) && is_numeral(message.skip(45), n)
}

proof fn nul_messages_name_the_place(text: Seq<char>, n: int, message: Seq<char>)
    requires
        encode_utf8(text).index_of_first(0u8) == Some(n),
        message == "nul byte found in provided data at position: "@ + decimal(n),
    ensures
        names_the_first_nul(message, text),
{
    reveal_strlit("nul byte found in provided data at position: ");
    let bytes = encode_utf8(text);
    bytes.index_of_first_ensures(0u8);
    integers_read_back(n);
    assert(message.take(45) =~= "nul byte found in provided data at position: "@);
    assert(message.skip(45) =~= decimal(n));
    assert(first_nul_at(bytes, n));
}

/// Text becomes its UTF-8 bytes and a NUL behind them. Text that holds a NUL is
/// refused as malformed, with the place of the first.
pub proof fn text_becomes_a_c_string(text: &str, r: Result<Vec<u8>, IoError>)
    requires
        call_ensures(c_string, (text,), r),
    ensures
        r is Ok <==> !text@.contains('\0'),
        r matches Ok(bytes) ==> bytes@ == encode_utf8(text@) + seq![0u8],
        r matches Err(err) ==> (err matches IoError::InvalidInput { message }
            && names_the_first_nul(message@, text@)),
{
    c_strings_hold_their_text(text@);
    if let Err(IoError::InvalidInput { message }) = r {
        let n = encode_utf8(text@).index_of_first(0u8)->0;
        nul_messages_name_the_place(text@, n, message@);
    }
    if let Ok(bytes) = r {
        assert(bytes@ =~= encode_utf8(text@) + seq![0u8]);
    }
}

/// A `getaddrinfo` call gets the host and the service as C strings and the hints
/// as the system's numbers, each where it was given. It is not made where the host
/// or the service holds a NUL, and the host is looked at first.
pub proof fn requests_carry_what_was_asked(
    host: Option<&str>,
    service: Option<&str>,
    hints: Option<AddrInfoHints>,
    r: Result<AddrInfoRequest, ResolveError>,
)
    requires
        call_ensures(getaddrinfo_request, (host, service, hints), r),
    ensures
        r is Err <==> (host matches Some(h) && h@.contains('\0')) || (service matches Some(s)
            && s@.contains('\0')),
        r matches Ok(q) ==> (q.node is Some <==> host is Some) && (q.service is Some
            <==> service is Some) && (q.hints is Some <==> hints is Some),
        r matches Ok(q) ==> (host matches Some(h) ==> q.node->0@ == encode_utf8(h@) + seq![0u8]),
        r matches Ok(q) ==> (service matches Some(s) ==> q.service->0@ == encode_utf8(s@) + seq![
            0u8,
        ]),
        r matches Ok(q) ==> (hints matches Some(h) ==> {
            &&& h.family is Unspec <==> q.hints->0.ai_family == 0
            &&& h.family is Inet <==> q.hints->0.ai_family == 2
            &&& h.family is Inet6 <==> q.hints->0.ai_family == 10
            &&& h.socktype is Stream ==> q.hints->0.ai_socktype == 1
            &&& h.socktype is Dgram ==> q.hints->0.ai_socktype == 2
            &&& h.socktype is Raw ==> q.hints->0.ai_socktype == 3
            &&& h.socktype matches SockType::Other(v) ==> q.hints->0.ai_socktype == v
            &&& h.protocol is Unspec ==> q.hints->0.ai_protocol == 0
            &&& h.protocol matches Protocol::Other(v) ==> q.hints->0.ai_protocol == v
            &&& h.flags.0 == q.hints->0.ai_flags
        }),
        r matches Err(err) ==> {
            &&& err matches ResolveError::Io(IoError::InvalidInput { message })
            &&& if host matches Some(h) && h@.contains('\0') {
                names_the_first_nul(message@, host->0@)
            } else {
                names_the_first_nul(message@, service->0@)
            }
        },
{
    if let Some(h) = host {
        c_strings_hold_their_text(h@);
        assert(encode_utf8(h@).push(0u8) =~= encode_utf8(h@) + seq![0u8]);
    }
    if let Some(s) = service {
        c_strings_hold_their_text(s@);
        assert(encode_utf8(s@).push(0u8) =~= encode_utf8(s@) + seq![0u8]);
    }
    if let Err(ResolveError::Io(IoError::InvalidInput { message })) = r {
        if host matches Some(h) && h@.contains('\0') {
            let n = encode_utf8(host->0@).index_of_first(0u8)->0;
            nul_messages_name_the_place(host->0@, n, message@);
        } else {
            let n = encode_utf8(service->0@).index_of_first(0u8)->0;
            nul_messages_name_the_place(service->0@, n, message@);
        }
    }
}

/// Requests tell hints apart: where two calls get the same numbers, their hints
/// have the same family and the same flags, and the same socket type and protocol
/// unless one of these is an `Other` with the number of a named one.
pub proof fn requests_tell_hints_apart(
    host: Option<&str>,
    service: Option<&str>,
    a: AddrInfoHints,
    b: AddrInfoHints,
    p: AddrInfoRequest,
    q: AddrInfoRequest,
)
    requires
        call_ensures(getaddrinfo_request, (host, service, Some(a)), Ok(p)),
        call_ensures(getaddrinfo_request, (host, service, Some(b)), Ok(q)),
        p.hints == q.hints,
        a.socktype is Other <==> b.socktype is Other,
        a.protocol is Other <==> b.protocol is Other,
    ensures
        a == b,
{
}

/// A socket address goes into its raw form field by field: the system's number
/// for the family, the port with its high byte first, and the size of the
/// structure.
pub proof fn raw_addresses_hold_the_address(addr: SocketAddr, r: (Sockaddr, u32))
    requires
        call_ensures(socketaddr_to_raw, (addr,), r),
    ensures
        addr matches SocketAddr::V4(v4) ==> (r.0 matches Sockaddr::In(sin) && {
            &&& sin.sin_family == 2
            &&& sin.sin_addr == v4.ip
            &&& sin.sin_port@[0] * 256 + sin.sin_port@[1] == v4.port
            &&& r.1 == 16
        }),
        addr matches SocketAddr::V6(v6) ==> (r.0 matches Sockaddr::In6(sin6) && {
            &&& sin6.sin6_family == 10
            &&& sin6.sin6_addr == v6.ip
            &&& sin6.sin6_port@[0] * 256 + sin6.sin6_port@[1] == v6.port
            &&& sin6.sin6_flowinfo == v6.flowinfo
            &&& sin6.sin6_scope_id == v6.scope_id
            &&& r.1 == 28
        }),
{
}

/// The family number tells the structure: 2 an IPv4 address, 10 an IPv6 one, and
/// no other is read.
pub proof fn families_tell_the_structure(family: c_int, r: SockaddrKind)
    requires
        call_ensures(sockaddr_kind, (family,), r),
    ensures
        r is In <==> family == 2,
        r is In6 <==> family == 10,
{
}

/// A node makes a record if and only if its family is 2 or 10. The record has the
/// node's address, name, socket type and protocol.
pub proof fn nodes_make_records(node: AddrInfoNode, r: Option<AddrInfo>)
    requires
        call_ensures(parse_node, (&node,), r),
        node.ai_family == 2 ==> node.ai_addr matches Some(Sockaddr::In(_)),
        node.ai_family == 10 ==> node.ai_addr matches Some(Sockaddr::In6(_)),
    ensures
        call_requires(parse_node, (&node,)),
        r is Some <==> node.ai_family == 2 || node.ai_family == 10,
        r matches Some(info) ==> (node.ai_addr matches Some(Sockaddr::In(sin)) ==> (
        info.addr matches SocketAddr::V4(v4) && v4.ip == sin.sin_addr && v4.port == sin.sin_port@[0]
            * 256 + sin.sin_port@[1])),
        r matches Some(info) ==> (node.ai_addr matches Some(Sockaddr::In6(sin6)) ==> (
        info.addr matches SocketAddr::V6(v6) && v6.ip == sin6.sin6_addr && v6.port
            == sin6.sin6_port@[0] * 256 + sin6.sin6_port@[1] && v6.flowinfo == sin6.sin6_flowinfo
            && v6.scope_id == sin6.sin6_scope_id)),
        r matches Some(info) ==> (info.canonname is Some <==> node.ai_canonname is Some),
        r matches Some(info) ==> (node.ai_canonname matches Some(bytes) ==> info.canonname->0@
            == utf8_lossy(bytes@) && (valid_utf8(bytes@) ==> info.canonname->0@ == decode_utf8(
            bytes@,
        ))),
        r matches Some(info) ==> (info.socktype is Stream <==> node.ai_socktype == 1),
        r matches Some(info) ==> (info.socktype is Dgram <==> node.ai_socktype == 2),
        r matches Some(info) ==> (info.socktype is Raw <==> node.ai_socktype == 3),
        r matches Some(info) ==> (info.socktype matches SockType::Other(v) ==> v
            == node.ai_socktype),
        r matches Some(info) ==> (info.protocol is Unspec <==> node.ai_protocol == 0),
        r matches Some(info) ==> (info.protocol matches Protocol::Other(v) ==> v
            == node.ai_protocol),
{
}

/// An address that goes into its raw form comes back out of a node that holds it.
pub proof fn addresses_come_back(addr: SocketAddr, raw: (Sockaddr, u32), node: AddrInfoNode, r:
    Option<AddrInfo>)
    requires
        call_ensures(socketaddr_to_raw, (addr,), raw),
        node.ai_addr == Some(raw.0),
        node.ai_family == (match raw.0 {
            Sockaddr::In(sin) => sin.sin_family,
            Sockaddr::In6(sin6) => sin6.sin6_family,
        }),
        call_ensures(parse_node, (&node,), r),
    ensures
        r matches Some(info) && info.addr == addr,
{
}

/// Whether two records hold the same.
pub open spec fn same_record(a: AddrInfo, b: AddrInfo) -> bool {
    &&& a.addr == b.addr
    &&& a.socktype == b.socktype
    &&& a.protocol == b.protocol
    &&& a.canonname is Some <==> b.canonname is Some
    &&& a.canonname is Some ==> a.canonname->0@ == b.canonname->0@
}

/// A status other than zero is the error, whatever the nodes, and zero is none.
pub proof fn statuses_decide(
    status: c_int,
    nodes: &Vec<AddrInfoNode>,
    r: Result<Vec<AddrInfo>, ResolveError>,
)
    requires
        call_ensures(getaddrinfo_response, (status, nodes), r),
    ensures
        r is Ok <==> status == 0,
        r matches Err(err) ==> err == ResolveError::Gai(status),
        status != 0 ==> call_requires(getaddrinfo_response, (status, nodes)),
{
}

/// Every list is taken whose IPv4 nodes hold an IPv4 address and whose IPv6 nodes
/// an IPv6 one, whatever else it holds and however long it is.
pub proof fn lists_of_any_kind_are_taken(nodes: &Vec<AddrInfoNode>)
    requires
        forall|i: int| #![trigger nodes@[i]]
            0 <= i < nodes.len() && nodes@[i].ai_family == 2 ==> nodes@[i].ai_addr matches Some(
                Sockaddr::In(_),
            ),
        forall|i: int| #![trigger nodes@[i]]
            0 <= i < nodes.len() && nodes@[i].ai_family == 10 ==> nodes@[i].ai_addr matches Some(
                Sockaddr::In6(_),
            ),
    ensures
        call_requires(getaddrinfo_response, (0, nodes)),
{
    assert forall|i: int| 0 <= i < nodes.len() implies (#[trigger] nodes@[i]).well_formed() by {}
}

/// The answer to a list of nodes is built node by node, in order. No node gives no
/// record, and one node more at the end gives the same records and then the
/// record of that node, where it makes one.
pub proof fn answers_grow_with_the_list(
    nodes: &Vec<AddrInfoNode>,
    longer: &Vec<AddrInfoNode>,
    r: Vec<AddrInfo>,
    s: Vec<AddrInfo>,
    last: Option<AddrInfo>,
)
    requires
        longer.len() == nodes.len() + 1,
        longer@.drop_last() == nodes@,
        call_ensures(getaddrinfo_response, (0, nodes), Ok(r)),
        call_ensures(getaddrinfo_response, (0, longer), Ok(s)),
        call_ensures(parse_node, (&longer@.last(),), last),
    ensures
        nodes.len() == 0 ==> r.len() == 0,
        s.len() == r.len() + (if last is Some {
            1int
        } else {
            0
        }),
        forall|k: int| 0 <= k < r.len() ==> same_record(#[trigger] r@[k], s@[k]),
        last matches Some(info) ==> same_record(s@.last(), info),
{
    reveal(Seq::filter);
    let n = longer@.last();
    assert(supported_nodes(longer@) == (if n.supported() {
        supported_nodes(nodes@).push(n)
    } else {
        supported_nodes(nodes@)
    }));
    let rv = r@.map_values(|info: AddrInfo| info@);
    let sv = s@.map_values(|info: AddrInfo| info@);
    assert(rv == records_of(nodes@));
    assert(sv == records_of(longer@));
    assert(rv.len() == r.len() && sv.len() == s.len());
    assert forall|k: int| 0 <= k < r.len() implies same_record(#[trigger] r@[k], s@[k]) by {
        assert(rv[k] == sv[k]);
        assert(r@[k]@ == s@[k]@);
    }
    if let Some(info) = last {
        assert(sv.last() == n.record());
        assert(s@.last()@ == info@);
    }
}

/// A reverse lookup gives the names that stand before the first NUL of each
/// buffer, whatever stands behind it, and the whole buffer where there is none.
/// The raw name is those bytes, the name their text; an empty name is none. A
/// status other than zero is the error.
pub proof fn names_end_at_the_first_nul(
    status: c_int,
    host: Seq<u8>,
    host_rest: Option<Seq<u8>>,
    host_buf: &[u8],
    serv: Seq<u8>,
    serv_rest: Option<Seq<u8>>,
    serv_buf: &[u8],
    r: Result<ResolvedNames, ResolveError>,
)
    requires
        !host.contains(0u8),
        !serv.contains(0u8),
        host_buf@ == (match host_rest {
            Some(rest) => host + seq![0u8] + rest,
            None => host,
        }),
        serv_buf@ == (match serv_rest {
            Some(rest) => serv + seq![0u8] + rest,
            None => serv,
        }),
        call_ensures(getnameinfo_response, (status, host_buf, serv_buf), r),
    ensures
        r is Ok <==> status == 0,
        r matches Err(err) ==> err == ResolveError::Gni(status),
        r matches Ok(names) ==> {
            &&& names.hostname_raw is Some <==> host.len() > 0
            &&& names.hostname is Some <==> host.len() > 0
            &&& host.len() > 0 ==> names.hostname_raw->0@ == host
            &&& host.len() > 0 ==> names.hostname->0@ == utf8_lossy(host)
            &&& host.len() > 0 && valid_utf8(host) ==> names.hostname->0@ == decode_utf8(host)
        },
        r matches Ok(names) ==> {
            &&& names.service_raw is Some <==> serv.len() > 0
            &&& names.service is Some <==> serv.len() > 0
            &&& serv.len() > 0 ==> names.service_raw->0@ == serv
            &&& serv.len() > 0 ==> names.service->0@ == utf8_lossy(serv)
            &&& serv.len() > 0 && valid_utf8(serv) ==> names.service->0@ == decode_utf8(serv)
        },
{
    if let Some(rest) = host_rest {
        c_strings_end_at_the_first_nul(host, rest);
    } else {
        c_strings_end_at_the_first_nul(host, Seq::empty());
    }
    if let Some(rest) = serv_rest {
        c_strings_end_at_the_first_nul(serv, rest);
    } else {
        c_strings_end_at_the_first_nul(serv, Seq::empty());
    }
}

/// A reverse lookup cannot block if and only if both the bit for a numeric host
/// and the one for a numeric service are set.
pub proof fn numeric_reverse_lookups_are_inline(flags: NiFlags, r: bool)
    requires
        call_ensures(getnameinfo_is_inline, (flags,), r),
    ensures
        r <==> flags.0 & 1 != 0 && flags.0 & 2 != 0,
{
    let bits: c_int = flags.0;
    assert(bits & 1 >= 0 && bits & 2 >= 0) by (bit_vector);
}

/// A forward lookup cannot block if and only if it has hints, a host comes with
/// the bit for a numeric host, a service with the bit for a numeric service, and
/// the bit that asks about the machine's own addresses is not set.
pub proof fn numeric_forward_lookups_are_inline(
    host: Option<&str>,
    service: Option<&str>,
    hints: Option<&AddrInfoHints>,
    r: bool,
)
    requires
        call_ensures(getaddrinfo_is_inline, (host, service, hints), r),
    ensures
        hints is None ==> !r,
        hints matches Some(h) ==> (host is Some && h.flags.0 & 4 == 0 ==> !r),
        hints matches Some(h) ==> (service is Some && h.flags.0 & 0x400 == 0 ==> !r),
        hints matches Some(h) ==> (h.flags.0 & 0x20 != 0 ==> !r),
        hints matches Some(h) ==> ((host is None || h.flags.0 & 4 != 0) && (service is None
            || h.flags.0 & 0x400 != 0) && h.flags.0 & 0x20 == 0 ==> r),
{
    if let Some(h) = hints {
        let bits: c_int = h.flags.0;
        assert(bits & 4 >= 0 && bits & 0x400 >= 0 && bits & 0x20 >= 0) by (bit_vector);
    }
}

/// A granted permit lets a lookup go on, a closed semaphore cancels it, and only a
/// passed deadline times it out.
pub proof fn permits_decide(outcome: PermitOutcome, r: Result<(), ResolveError>)
    requires
        call_ensures(acquire_permit, (outcome,), r),
    ensures
        r is Ok <==> outcome is Acquired,
        r matches Err(err) ==> (err is Cancelled <==> outcome is Closed),
        r matches Err(err) ==> (err is TimedOut <==> outcome is DeadlinePassed),
{
}

/// The wait for a worker ends with exactly what the worker sent, success or
/// failure, stalled or not, with or without a deadline; with `Cancelled` where the
/// worker is lost; and with `TimedOut` where the deadline passes. A stall ends
/// nothing. Whatever happens, the soft permit is given back and the deadline
/// stays.
pub proof fn waits_end_with_the_workers_result<T>(
    wait: &mut WorkerWait,
    event: WorkerEvent<T>,
    r: Option<Result<T, ResolveError>>,
)
    requires
        call_ensures(WorkerWait::await_worker_result::<T>, (wait, event), r),
    ensures
        event matches WorkerEvent::Finished(result) ==> r == Some(result),
        event is Lost ==> r == Some(Err::<T, ResolveError>(ResolveError::Cancelled)),
        event is DeadlinePassed ==> r == Some(Err::<T, ResolveError>(ResolveError::TimedOut)),
        event is StallElapsed <==> r is None,
        !final(wait).soft_permit,
        final(wait).stalled <==> old(wait).stalled || event is StallElapsed,
        final(wait).deadline == old(wait).deadline,
{
}

/// The wait for a worker takes every event but a second stall, and a deadline
/// where there is none.
pub proof fn waits_take_what_can_happen<T>(wait: &mut WorkerWait, event: WorkerEvent<T>)
    requires
        event is StallElapsed ==> !old(wait).stalled,
        event is DeadlinePassed ==> old(wait).deadline is Some,
    ensures
        call_requires(WorkerWait::await_worker_result::<T>, (wait, event)),
{
}

/// A lookup that may block begins by waiting for a soft permit. Its deadline is as
/// far from its beginning as the timeout is long, and it has none without a
/// timeout. A lookup that cannot block begins with no deadline, and is refused with
/// `Cancelled` by a closed resolver.
pub proof fn lookups_begin_with_the_timeout_ahead(
    inline: bool,
    closed: bool,
    config: &ResolverConfig,
    now: Duration,
    r: Result<Call, ResolveError>,
)
    requires
        !inline ==> (config.timeout matches Some(t) ==> now.nanos + t.nanos <= u128::MAX),
        call_ensures(Call::begin, (inline, closed, config, now), r),
    ensures
        call_requires(Call::begin, (inline, closed, config, now)),
        r is Err <==> inline && closed,
        r matches Err(err) ==> err is Cancelled,
        r matches Ok(call) ==> call.stall_threshold == config.stall_threshold,
        r matches Ok(call) ==> (call.stage is Inline <==> inline),
        r matches Ok(call) ==> (call.stage is SoftPermit <==> !inline),
        r matches Ok(call) ==> (call.deadline is Some <==> !inline && config.timeout is Some),
        r matches Ok(call) ==> (call.deadline matches Some(d) ==> (config.timeout matches Some(t)
            && d.nanos - now.nanos == t.nanos)),
{
}

/// A lookup of a host begins with the host and the hints as given. It is refused
/// only where it cannot block and the hard semaphore answers that it is closed; one
/// that may block has the whole timeout ahead of it.
pub proof fn host_lookups_begin(
    resolver: SystemResolver,
    host: &str,
    hints: Option<AddrInfoHints>,
    asked: Option<&AddrInfoHints>,
    now: Duration,
    inline: bool,
    r: Result<HostLookup, ResolveError>,
)
    requires
        asked == (match hints {
            Some(h) => Some(&h),
            None => None,
        }),
        call_ensures(getaddrinfo_is_inline, (Some(host), None::<&str>, asked), inline),
        !inline ==> (resolver.config().timeout matches Some(t) ==> now.nanos + t.nanos
            <= u128::MAX),
        call_ensures(SystemResolver::resolve_host, (&resolver, host, hints, now), r),
    ensures
        call_requires(SystemResolver::resolve_host, (&resolver, host, hints, now)),
        r matches Err(err) ==> {
            &&& inline
            &&& err is Cancelled
            &&& call_ensures(Semaphore::is_closed, (&resolver.hard_semaphore(),), true)
        },
        r matches Ok(lookup) ==> {
            &&& lookup.host matches Some(h) && h@ == host@
            &&& lookup.service is None
            &&& lookup.hints == hints
            &&& lookup.call.stall_threshold == resolver.config().stall_threshold
            &&& lookup.call.stage is Inline <==> inline
            &&& lookup.call.stage is SoftPermit <==> !inline
            &&& inline ==> lookup.call.deadline is None && call_ensures(
                Semaphore::is_closed,
                (&resolver.hard_semaphore(),),
                false,
            )
            &&& !inline ==> (lookup.call.deadline is Some <==> resolver.config().timeout is Some)
            &&& lookup.call.deadline matches Some(d) ==> (resolver.config().timeout matches Some(t)
                && d.nanos - now.nanos == t.nanos)
        },
{
}

/// A lookup of a host and a service begins as one of a host does, with the service
/// as given.
pub proof fn host_and_service_lookups_begin(
    resolver: SystemResolver,
    host: &str,
    service: &str,
    hints: Option<AddrInfoHints>,
    asked: Option<&AddrInfoHints>,
    now: Duration,
    inline: bool,
    r: Result<HostLookup, ResolveError>,
)
    requires
        asked == (match hints {
            Some(h) => Some(&h),
            None => None,
        }),
        call_ensures(getaddrinfo_is_inline, (Some(host), Some(service), asked), inline),
        !inline ==> (resolver.config().timeout matches Some(t) ==> now.nanos + t.nanos
            <= u128::MAX),
        call_ensures(SystemResolver::resolve_host_service, (&resolver, host, service, hints, now), r),
    ensures
        call_requires(SystemResolver::resolve_host_service, (&resolver, host, service, hints, now)),
        r matches Err(err) ==> {
            &&& inline
            &&& err is Cancelled
            &&& call_ensures(Semaphore::is_closed, (&resolver.hard_semaphore(),), true)
        },
        r matches Ok(lookup) ==> {
            &&& lookup.host matches Some(h) && h@ == host@
            &&& lookup.service matches Some(s) && s@ == service@
            &&& lookup.hints == hints
            &&& lookup.call.stall_threshold == resolver.config().stall_threshold
            &&& lookup.call.stage is Inline <==> inline
            &&& lookup.call.stage is SoftPermit <==> !inline
            &&& inline ==> lookup.call.deadline is None && call_ensures(
                Semaphore::is_closed,
                (&resolver.hard_semaphore(),),
                false,
            )
            &&& !inline ==> (lookup.call.deadline is Some <==> resolver.config().timeout is Some)
            &&& lookup.call.deadline matches Some(d) ==> (resolver.config().timeout matches Some(t)
                && d.nanos - now.nanos == t.nanos)
        },
{
}

/// A lookup of a service alone begins as one of a host does, with no host.
pub proof fn passive_lookups_begin(
    resolver: SystemResolver,
    service: &str,
    hints: Option<AddrInfoHints>,
    asked: Option<&AddrInfoHints>,
    now: Duration,
    inline: bool,
    r: Result<HostLookup, ResolveError>,
)
    requires
        asked == (match hints {
            Some(h) => Some(&h),
            None => None,
        }),
        call_ensures(getaddrinfo_is_inline, (None::<&str>, Some(service), asked), inline),
        !inline ==> (resolver.config().timeout matches Some(t) ==> now.nanos + t.nanos
            <= u128::MAX),
        call_ensures(SystemResolver::resolve_passive, (&resolver, service, hints, now), r),
    ensures
        call_requires(SystemResolver::resolve_passive, (&resolver, service, hints, now)),
        r matches Err(err) ==> {
            &&& inline
            &&& err is Cancelled
            &&& call_ensures(Semaphore::is_closed, (&resolver.hard_semaphore(),), true)
        },
        r matches Ok(lookup) ==> {
            &&& lookup.host is None
            &&& lookup.service matches Some(s) && s@ == service@
            &&& lookup.hints == hints
            &&& lookup.call.stall_threshold == resolver.config().stall_threshold
            &&& lookup.call.stage is Inline <==> inline
            &&& lookup.call.stage is SoftPermit <==> !inline
            &&& inline ==> lookup.call.deadline is None && call_ensures(
                Semaphore::is_closed,
                (&resolver.hard_semaphore(),),
                false,
            )
            &&& !inline ==> (lookup.call.deadline is Some <==> resolver.config().timeout is Some)
            &&& lookup.call.deadline matches Some(d) ==> (resolver.config().timeout matches Some(t)
                && d.nanos - now.nanos == t.nanos)
        },
{
}

/// A reverse lookup begins with the address and the flags as given. It is refused
/// only where it cannot block and the hard semaphore answers that it is closed; one
/// that may block has the whole timeout ahead of it.
pub proof fn address_lookups_begin(
    resolver: SystemResolver,
    addr: SocketAddr,
    flags: NiFlags,
    now: Duration,
    inline: bool,
    r: Result<AddrLookup, ResolveError>,
)
    requires
        call_ensures(getnameinfo_is_inline, (flags,), inline),
        !inline ==> (resolver.config().timeout matches Some(t) ==> now.nanos + t.nanos
            <= u128::MAX),
        call_ensures(SystemResolver::resolve_addr, (&resolver, addr, flags, now), r),
    ensures
        call_requires(SystemResolver::resolve_addr, (&resolver, addr, flags, now)),
        r matches Err(err) ==> {
            &&& inline
            &&& err is Cancelled
            &&& call_ensures(Semaphore::is_closed, (&resolver.hard_semaphore(),), true)
        },
        r matches Ok(lookup) ==> {
            &&& lookup.addr == addr
            &&& lookup.flags == flags
            &&& lookup.call.stall_threshold == resolver.config().stall_threshold
            &&& lookup.call.stage is Inline <==> inline
            &&& lookup.call.stage is SoftPermit <==> !inline
            &&& inline ==> lookup.call.deadline is None && call_ensures(
                Semaphore::is_closed,
                (&resolver.hard_semaphore(),),
                false,
            )
            &&& !inline ==> (lookup.call.deadline is Some <==> resolver.config().timeout is Some)
            &&& lookup.call.deadline matches Some(d) ==> (resolver.config().timeout matches Some(t)
                && d.nanos - now.nanos == t.nanos)
        },
{
}

/// Shutting down closes both semaphores, and the one of the hard permits answers
/// for the resolver.
pub proof fn semaphores_answer_for_the_resolver(resolver: SystemResolver, closed: bool)
    ensures
        call_ensures(SystemResolver::shutdown, (&resolver,), ()) ==> call_ensures(
            Semaphore::close,
            (&resolver.soft_semaphore(),),
            (),
        ) && call_ensures(Semaphore::close, (&resolver.hard_semaphore(),), ()),
        call_ensures(SystemResolver::is_closed, (&resolver,), closed) ==> call_ensures(
            Semaphore::is_closed,
            (&resolver.hard_semaphore(),),
            closed,
        ),
{
}

/// The semaphores that a resolver hands out are its own.
pub proof fn semaphores_are_handed_out(
    resolver: &SystemResolver,
    soft: &std::sync::Arc<Semaphore>,
    hard: &std::sync::Arc<Semaphore>,
)
    requires
        call_ensures(SystemResolver::soft_sem, (resolver,), soft),
        call_ensures(SystemResolver::hard_sem, (resolver,), hard),
    ensures
        **soft == resolver.soft_semaphore(),
        **hard == resolver.hard_semaphore(),
{
}

/// A lookup asks for the one thing that its stage needs, with the lookup's own
/// deadline. Workers get half a mebibyte of stack, and a worker is watched for a
/// stall until it has stalled.
pub proof fn stages_name_their_action(call: Call, r: Action)
    requires
        call_ensures(Call::next_action, (&call,), r),
    ensures
        call.stage is Inline <==> r is RunInline,
        call.stage is SoftPermit <==> r is AcquireSoft,
        call.stage is HardPermit <==> r is AcquireHard,
        call.stage is Spawn <==> r is SpawnWorker,
        call.stage is Worker <==> r is AwaitWorker,
        call.stage is Done <==> r is Stop,
        r matches Action::AcquireSoft { deadline } ==> deadline == call.deadline,
        r matches Action::AcquireHard { deadline } ==> deadline == call.deadline,
        r matches Action::SpawnWorker { stack_size } ==> stack_size == 524288,
        r matches Action::AwaitWorker { stall_after, deadline } ==> (
        call.stage matches Stage::Worker(wait) && deadline == wait.deadline && (if wait.stalled {
            stall_after is None
        } else {
            stall_after == Some(call.stall_threshold)
        })),
{
}

/// Whatever comes of an action, a lookup keeps its deadline and its stall
/// threshold, and it has a result exactly when it has ended.
pub proof fn lookups_keep_their_terms<T>(call: &mut Call, event: Event<T>, r: Step<T>)
    requires
        call_ensures(Call::advance::<T>, (call, event), r),
    ensures
        final(call).deadline == old(call).deadline,
        final(call).stall_threshold == old(call).stall_threshold,
        r.result is Some <==> final(call).stage is Done,
{
}

/// What the system call returns on the calling task is the result of the lookup.
pub proof fn inline_results_are_handed_on<T>(
    call: &mut Call,
    result: Result<T, ResolveError>,
    r: Step<T>,
)
    requires
        old(call).stage is Inline,
        call_ensures(Call::advance::<T>, (call, Event::Returned(result)), r),
    ensures
        r.result == Some(result),
        final(call).stage is Done,
        !r.release_soft,
        call_requires(Call::advance::<T>, (call, Event::Returned(result))),
{
}

/// A soft permit leads to the wait for a hard one, and a hard one to the start of a
/// worker. Without a permit the lookup ends: cancelled where the semaphore is
/// closed, timed out where the deadline has passed. A soft permit that it has by
/// then is given back.
pub proof fn permits_lead_to_a_worker<T>(call: &mut Call, outcome: PermitOutcome, r: Step<T>)
    requires
        old(call).stage is SoftPermit || old(call).stage is HardPermit,
        outcome is DeadlinePassed ==> old(call).deadline is Some,
        call_ensures(Call::advance::<T>, (call, Event::Permit(outcome)), r),
    ensures
        outcome is Acquired ==> r.result is None && !r.release_soft,
        outcome is Acquired && old(call).stage is SoftPermit ==> final(call).stage is HardPermit,
        outcome is Acquired && old(call).stage is HardPermit ==> final(call).stage is Spawn,
        !(outcome is Acquired) ==> final(call).stage is Done,
        !(outcome is Acquired) ==> (r.release_soft <==> old(call).stage is HardPermit),
        outcome is Closed ==> r.result == Some(Err::<T, ResolveError>(ResolveError::Cancelled)),
        outcome is DeadlinePassed ==> r.result == Some(
            Err::<T, ResolveError>(ResolveError::TimedOut),
        ),
        call_requires(Call::advance::<T>, (call, Event::Permit(outcome))),
{
}

/// A worker that was started is waited for, with the soft permit and the lookup's
/// deadline. One that could not be started ends the lookup with the error that the
/// system gave, and the soft permit is given back.
pub proof fn workers_are_waited_for<T>(call: &mut Call, event: Event<T>, r: Step<T>)
    requires
        old(call).stage is Spawn,
        event is Spawned || event is SpawnFailed,
        call_ensures(Call::advance::<T>, (call, event), r),
    ensures
        event is Spawned ==> r.result is None && !r.release_soft,
        event is Spawned ==> (final(call).stage matches Stage::Worker(wait) && wait.soft_permit
            && !wait.stalled && wait.deadline == old(call).deadline),
        event matches Event::SpawnFailed(err) ==> r.result == Some(
            Err::<T, ResolveError>(ResolveError::Io(err)),
        ) && r.release_soft && final(call).stage is Done,
        call_requires(Call::advance::<T>, (call, event)),
{
}

/// A lookup with a worker ends with exactly what the worker sent, success or
/// failure, stalled or not, with or without a deadline; with `Cancelled` where the
/// worker is lost; and with `TimedOut` only where the deadline passes. A stall
/// leaves it waiting. The first of these gives the soft permit back.
pub proof fn worker_results_are_handed_on<T>(
    call: &mut Call,
    wait: WorkerWait,
    event: WorkerEvent<T>,
    r: Step<T>,
)
    requires
        old(call).stage == Stage::Worker(wait),
        event is StallElapsed ==> !wait.stalled,
        event is DeadlinePassed ==> wait.deadline is Some,
        call_ensures(Call::advance::<T>, (call, Event::Worker(event)), r),
    ensures
        event matches WorkerEvent::Finished(result) ==> r.result == Some(result),
        event is Lost ==> r.result == Some(Err::<T, ResolveError>(ResolveError::Cancelled)),
        event is DeadlinePassed ==> r.result == Some(
            Err::<T, ResolveError>(ResolveError::TimedOut),
        ),
        event is StallElapsed ==> r.result is None && (final(
            call
        ).stage matches Stage::Worker(after) && after.stalled && !after.soft_permit
            && after.deadline == wait.deadline),
        !(event is StallElapsed) ==> final(call).stage is Done,
        r.release_soft <==> wait.soft_permit,
        wait.deadline == old(call).deadline && wait.soft_permit == !wait.stalled ==> call_requires(
            Call::advance::<T>,
            (call, Event::Worker(event)),
        ),
{
}

/// A lookup whose result is `TimedOut` was either told so by the system call or by
/// its worker, or its deadline passed.
pub proof fn only_the_deadline_times_out<T>(call: &mut Call, event: Event<T>, r: Step<T>)
    requires
        old(call).accepts(event),
        call_ensures(Call::advance::<T>, (call, event), r),
        r.result == Some(Err::<T, ResolveError>(ResolveError::TimedOut)),
    ensures
        event == Event::<T>::Returned(Err(ResolveError::TimedOut)) || event == Event::<T>::Worker(
            WorkerEvent::Finished(Err(ResolveError::TimedOut)),
        ) || event == Event::<T>::Permit(PermitOutcome::DeadlinePassed) || event == Event::<
            T,
        >::Worker(WorkerEvent::DeadlinePassed),
{
}

} // verus!
