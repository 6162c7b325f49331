//! Request and response types for system name resolution.
//!
//! These types model the portable part of the `getaddrinfo(3)` and
//! `getnameinfo(3)` interface: lookup hints, returned address records, and the
//! flags and enumerations that configure a call.

use crate::codes::{
    af_inet, af_inet6, af_unspec, ai_addrconfig, ai_canonname, ai_numerichost, ai_numericserv,
    ai_passive, ai_v4mapped, libc_af_inet, libc_af_inet6, libc_af_unspec, libc_ai_addrconfig,
    libc_ai_canonname, libc_ai_numerichost, libc_ai_numericserv, libc_ai_passive,
    libc_ai_v4mapped, libc_ni_dgram, libc_ni_namereqd, libc_ni_nofqdn, libc_ni_numerichost,
    libc_ni_numericserv, libc_sock_dgram, libc_sock_raw, libc_sock_stream, ni_dgram, ni_namereqd,
    ni_nofqdn, ni_numerichost, ni_numericserv, sock_dgram, sock_raw, sock_stream,
};
use libc::c_int;
use vstd::prelude::*;

verus! {

/// Address family that a lookup is restricted to.
#[derive(Debug, Clone, Copy, PartialEq, Eq, Structural)]
pub enum AddressFamily {
    /// `AF_UNSPEC`: both IPv4 and IPv6 results (default).
    Unspec,

    /// `AF_INET`: IPv4 results only.
    Inet,

    /// `AF_INET6`: IPv6 results only.
    Inet6,
}

impl Default for AddressFamily {
    fn default() -> (r: AddressFamily)
        ensures
            r == AddressFamily::Unspec,
    {
        AddressFamily::Unspec
    }
}

impl AddressFamily {
    /// The family's `AF_*` number.
    pub open spec fn code(self) -> c_int {
        match self {
            AddressFamily::Unspec => af_unspec(),
            AddressFamily::Inet => af_inet(),
            AddressFamily::Inet6 => af_inet6(),
        }
    }
}

impl vstd::std_specs::convert::FromSpecImpl<AddressFamily> for c_int {
    open spec fn obeys_from_spec() -> bool {
        true
    }

    open spec fn from_spec(family: AddressFamily) -> c_int {
        family.code()
    }
}

impl From<AddressFamily> for c_int {
    fn from(family: AddressFamily) -> (r: c_int) {
        match family {
            AddressFamily::Unspec => libc_af_unspec(),
            AddressFamily::Inet => libc_af_inet(),
            AddressFamily::Inet6 => libc_af_inet6(),
        }
    }
}

/// Socket type of an address record.
#[derive(Debug, Clone, Copy, PartialEq, Eq, Structural)]
pub enum SockType {
    /// `SOCK_STREAM` (TCP).
    Stream,

    /// `SOCK_DGRAM` (UDP).
    Dgram,

    /// `SOCK_RAW`.
    Raw,

    /// Any other `SOCK_*` value that the system returned, or `0` in
    /// [`AddrInfoHints`] to ask for all socket types.
    Other(i32),
}

impl SockType {
    /// The type's `SOCK_*` number.
    pub open spec fn code(self) -> c_int {
        match self {
            SockType::Stream => sock_stream(),
            SockType::Dgram => sock_dgram(),
            SockType::Raw => sock_raw(),
            SockType::Other(v) => v,
        }
    }

    /// The type that a `SOCK_*` number stands for.
    pub open spec fn of_code(v: c_int) -> SockType {
        if v == sock_stream() {
            SockType::Stream
        } else if v == sock_dgram() {
            SockType::Dgram
        } else if v == sock_raw() {
            SockType::Raw
        } else {
            SockType::Other(v)
        }
    }
}

impl vstd::std_specs::convert::FromSpecImpl<c_int> for SockType {
    open spec fn obeys_from_spec() -> bool {
        true
    }

    open spec fn from_spec(v: c_int) -> SockType {
        SockType::of_code(v)
    }
}

impl From<c_int> for SockType {
    fn from(v: c_int) -> (r: SockType) {
        if v == libc_sock_stream() {
            SockType::Stream
        } else if v == libc_sock_dgram() {
            SockType::Dgram
        } else if v == libc_sock_raw() {
            SockType::Raw
        } else {
            SockType::Other(v)
        }
    }
}

impl vstd::std_specs::convert::FromSpecImpl<SockType> for c_int {
    open spec fn obeys_from_spec() -> bool {
        true
    }

    open spec fn from_spec(s: SockType) -> c_int {
        s.code()
    }
}

impl From<SockType> for c_int {
    fn from(s: SockType) -> (r: c_int) {
        match s {
            SockType::Stream => libc_sock_stream(),
            SockType::Dgram => libc_sock_dgram(),
            SockType::Raw => libc_sock_raw(),
            SockType::Other(v) => v,
        }
    }
}

/// Transport protocol of an address record.
#[derive(Debug, Clone, Copy, PartialEq, Eq, Structural)]
pub enum Protocol {
    /// `0`: any protocol.
    Unspec,

    /// An `IPPROTO_*` value.
    Other(i32),
}

impl Default for Protocol {
    fn default() -> (r: Protocol)
        ensures
            r == Protocol::Unspec,
    {
        Protocol::Unspec
    }
}

impl Protocol {
    /// The protocol's `IPPROTO_*` number.
    pub open spec fn code(self) -> c_int {
        match self {
            Protocol::Unspec => 0,
            Protocol::Other(v) => v,
        }
    }

    /// The protocol that an `IPPROTO_*` number stands for.
    pub open spec fn of_code(v: c_int) -> Protocol {
        if v == 0 {
            Protocol::Unspec
        } else {
            Protocol::Other(v)
        }
    }
}

impl vstd::std_specs::convert::FromSpecImpl<c_int> for Protocol {
    open spec fn obeys_from_spec() -> bool {
        true
    }

    open spec fn from_spec(v: c_int) -> Protocol {
        Protocol::of_code(v)
    }
}

impl From<c_int> for Protocol {
    fn from(v: c_int) -> (r: Protocol) {
        if v == 0 {
            Protocol::Unspec
        } else {
            Protocol::Other(v)
        }
    }
}

impl vstd::std_specs::convert::FromSpecImpl<Protocol> for c_int {
    open spec fn obeys_from_spec() -> bool {
        true
    }

    open spec fn from_spec(p: Protocol) -> c_int {
        p.code()
    }
}

impl From<Protocol> for c_int {
    fn from(p: Protocol) -> (r: c_int) {
        match p {
            Protocol::Unspec => 0,
            Protocol::Other(v) => v,
        }
    }
}

/// `ai_flags` bitmask of a forward lookup.
///
/// Flags combine with `|`.
#[derive(Debug, Clone, Copy, PartialEq, Eq, Hash, Structural)]
#[must_use]
pub struct AiFlags(pub c_int);

#[allow(non_snake_case)]
impl AiFlags {
    /// No flags.
    pub fn NONE() -> (r: AiFlags)
        ensures
            r.0 == 0,
    {
        AiFlags(0)
    }

    /// `AI_PASSIVE`: the addresses are meant for `bind(2)`.
    pub fn PASSIVE() -> (r: AiFlags)
        ensures
            r.0 == ai_passive(),
    {
        AiFlags(libc_ai_passive())
    }

    /// `AI_CANONNAME`: ask for the canonical name in [`AddrInfo::canonname`].
    pub fn CANONNAME() -> (r: AiFlags)
        ensures
            r.0 == ai_canonname(),
    {
        AiFlags(libc_ai_canonname())
    }

    /// `AI_NUMERICHOST`: the host is a numeric address string.
    pub fn NUMERICHOST() -> (r: AiFlags)
        ensures
            r.0 == ai_numerichost(),
    {
        AiFlags(libc_ai_numerichost())
    }

    /// `AI_NUMERICSERV`: the service is a numeric port string.
    pub fn NUMERICSERV() -> (r: AiFlags)
        ensures
            r.0 == ai_numericserv(),
    {
        AiFlags(libc_ai_numericserv())
    }

    /// `AI_V4MAPPED`: IPv4-mapped IPv6 addresses where there are no IPv6 records.
    pub fn V4MAPPED() -> (r: AiFlags)
        ensures
            r.0 == ai_v4mapped(),
    {
        AiFlags(libc_ai_v4mapped())
    }

    /// `AI_ADDRCONFIG`: only address families configured on the host.
    pub fn ADDRCONFIG() -> (r: AiFlags)
        ensures
            r.0 == ai_addrconfig(),
    {
        AiFlags(libc_ai_addrconfig())
    }
}

impl AiFlags {
    /// Whether some bit of `flag` is set here and the sign bit is not set in
    /// both: a shared sign bit makes the common bits a negative number, and hides
    /// every other bit that is shared.
    pub open spec fn has(self, flag: AiFlags) -> bool {
        self.0 & flag.0 > 0
    }

    /// Whether some bit of `flag` is set here and the sign bit is not set in
    /// both.
    pub fn contains(&self, flag: AiFlags) -> (r: bool)
        ensures
            r == self.has(flag),
    {
        (self.0 & flag.0) > 0
    }

    /// Sets the bits of `flag`.
    pub fn insert(&mut self, flag: AiFlags)
        ensures
            *final(self) == AiFlags(old(self).0 | flag.0),
    {
        self.0 = self.0 | flag.0;
    }

    /// Clears the bits of `flag`.
    pub fn remove(&mut self, flag: AiFlags)
        ensures
            *final(self) == AiFlags(old(self).0 & !flag.0),
    {
        self.0 = self.0 & !flag.0;
    }
}

impl Default for AiFlags {
    fn default() -> (r: AiFlags)
        ensures
            r.0 == 0,
    {
        AiFlags(0)
    }
}

impl vstd::std_specs::ops::BitAndSpecImpl for AiFlags {
    open spec fn obeys_bitand_spec() -> bool {
        true
    }

    open spec fn bitand_req(self, rhs: AiFlags) -> bool {
        true
    }

    open spec fn bitand_spec(self, rhs: AiFlags) -> AiFlags {
        AiFlags(self.0 & rhs.0)
    }
}

impl core::ops::BitAnd for AiFlags {
    type Output = AiFlags;

    fn bitand(self, rhs: AiFlags) -> (r: AiFlags) {
        AiFlags(self.0 & rhs.0)
    }
}

impl core::ops::BitAndAssign for AiFlags {
    fn bitand_assign(&mut self, rhs: AiFlags)
        ensures
            *final(self) == AiFlags(old(self).0 & rhs.0),
    {
        *self = AiFlags(self.0 & rhs.0);
    }
}

impl vstd::std_specs::ops::BitOrSpecImpl for AiFlags {
    open spec fn obeys_bitor_spec() -> bool {
        true
    }

    open spec fn bitor_req(self, rhs: AiFlags) -> bool {
        true
    }

    open spec fn bitor_spec(self, rhs: AiFlags) -> AiFlags {
        AiFlags(self.0 | rhs.0)
    }
}

impl core::ops::BitOr for AiFlags {
    type Output = AiFlags;

    fn bitor(self, rhs: AiFlags) -> (r: AiFlags) {
        AiFlags(self.0 | rhs.0)
    }
}

impl core::ops::BitOrAssign for AiFlags {
    fn bitor_assign(&mut self, rhs: AiFlags)
        ensures
            *final(self) == AiFlags(old(self).0 | rhs.0),
    {
        *self = AiFlags(self.0 | rhs.0);
    }
}

impl vstd::std_specs::ops::NotSpecImpl for AiFlags {
    open spec fn obeys_not_spec() -> bool {
        true
    }

    open spec fn not_req(self) -> bool {
        true
    }

    open spec fn not_spec(self) -> AiFlags {
        AiFlags(!self.0)
    }
}

impl core::ops::Not for AiFlags {
    type Output = AiFlags;

    fn not(self) -> (r: AiFlags) {
        AiFlags(!self.0)
    }
}

/// `flags` bitmask of a reverse lookup.
///
/// Flags combine with `|`.
#[derive(Debug, Clone, Copy, PartialEq, Eq, Hash, Structural)]
#[must_use]
pub struct NiFlags(pub c_int);

#[allow(non_snake_case)]
impl NiFlags {
    /// No flags.
    pub fn NONE() -> (r: NiFlags)
        ensures
            r.0 == 0,
    {
        NiFlags(0)
    }

    /// Return the numeric form of the host address.
    pub fn NUMERICHOST() -> (r: NiFlags)
        ensures
            r.0 == ni_numerichost(),
    {
        NiFlags(libc_ni_numerichost())
    }

    /// Return the numeric form of the service (port number).
    pub fn NUMERICSERV() -> (r: NiFlags)
        ensures
            r.0 == ni_numericserv(),
    {
        NiFlags(libc_ni_numericserv())
    }

    /// Return only the hostname part of the FQDN.
    pub fn NOFQDN() -> (r: NiFlags)
        ensures
            r.0 == ni_nofqdn(),
    {
        NiFlags(libc_ni_nofqdn())
    }

    /// Return an error if no hostname can be found.
    pub fn NAMEREQD() -> (r: NiFlags)
        ensures
            r.0 == ni_namereqd(),
    {
        NiFlags(libc_ni_namereqd())
    }

    /// The socket is datagram-based (affects the service lookup).
    pub fn DGRAM() -> (r: NiFlags)
        ensures
            r.0 == ni_dgram(),
    {
        NiFlags(libc_ni_dgram())
    }
}

impl NiFlags {
    /// Whether some bit of `flag` is set here and the sign bit is not set in
    /// both: a shared sign bit makes the common bits a negative number, and hides
    /// every other bit that is shared.
    pub open spec fn has(self, flag: NiFlags) -> bool {
        self.0 & flag.0 > 0
    }

    /// Whether some bit of `flag` is set here and the sign bit is not set in
    /// both.
    pub fn contains(&self, flag: NiFlags) -> (r: bool)
        ensures
            r == self.has(flag),
    {
        (self.0 & flag.0) > 0
    }

    /// Sets the bits of `flag`.
    pub fn insert(&mut self, flag: NiFlags)
        ensures
            *final(self) == NiFlags(old(self).0 | flag.0),
    {
        self.0 = self.0 | flag.0;
    }

    /// Clears the bits of `flag`.
    pub fn remove(&mut self, flag: NiFlags)
        ensures
            *final(self) == NiFlags(old(self).0 & !flag.0),
    {
        self.0 = self.0 & !flag.0;
    }
}

impl Default for NiFlags {
    fn default() -> (r: NiFlags)
        ensures
            r.0 == 0,
    {
        NiFlags(0)
    }
}

impl vstd::std_specs::ops::BitAndSpecImpl for NiFlags {
    open spec fn obeys_bitand_spec() -> bool {
        true
    }

    open spec fn bitand_req(self, rhs: NiFlags) -> bool {
        true
    }

    open spec fn bitand_spec(self, rhs: NiFlags) -> NiFlags {
        NiFlags(self.0 & rhs.0)
    }
}

impl core::ops::BitAnd for NiFlags {
    type Output = NiFlags;

    fn bitand(self, rhs: NiFlags) -> (r: NiFlags) {
        NiFlags(self.0 & rhs.0)
    }
}

impl core::ops::BitAndAssign for NiFlags {
    fn bitand_assign(&mut self, rhs: NiFlags)
        ensures
            *final(self) == NiFlags(old(self).0 & rhs.0),
    {
        *self = NiFlags(self.0 & rhs.0);
    }
}

impl vstd::std_specs::ops::BitOrSpecImpl for NiFlags {
    open spec fn obeys_bitor_spec() -> bool {
        true
    }

    open spec fn bitor_req(self, rhs: NiFlags) -> bool {
        true
    }

    open spec fn bitor_spec(self, rhs: NiFlags) -> NiFlags {
        NiFlags(self.0 | rhs.0)
    }
}

impl core::ops::BitOr for NiFlags {
    type Output = NiFlags;

    fn bitor(self, rhs: NiFlags) -> (r: NiFlags) {
        NiFlags(self.0 | rhs.0)
    }
}

impl core::ops::BitOrAssign for NiFlags {
    fn bitor_assign(&mut self, rhs: NiFlags)
        ensures
            *final(self) == NiFlags(old(self).0 | rhs.0),
    {
        *self = NiFlags(self.0 | rhs.0);
    }
}

impl vstd::std_specs::ops::NotSpecImpl for NiFlags {
    open spec fn obeys_not_spec() -> bool {
        true
    }

    open spec fn not_req(self) -> bool {
        true
    }

    open spec fn not_spec(self) -> NiFlags {
        NiFlags(!self.0)
    }
}

impl core::ops::Not for NiFlags {
    type Output = NiFlags;

    fn not(self) -> (r: NiFlags) {
        NiFlags(!self.0)
    }
}

/// Hints that narrow the results of a forward lookup.
#[derive(Debug, Clone, Copy)]
#[must_use]
pub struct AddrInfoHints {
    /// Restrict results to this address family.
    pub family: AddressFamily,

    /// Restrict results to this socket type; `SockType::Other(0)` for any.
    pub socktype: SockType,

    /// Restrict results to this protocol; `Protocol::Unspec` for any.
    pub protocol: Protocol,

    /// Additional `AI_*` flags.
    pub flags: AiFlags,
}

impl Default for AddrInfoHints {
    /// Hints that restrict nothing.
    fn default() -> (r: AddrInfoHints)
        ensures
            r == (AddrInfoHints {
                family: AddressFamily::Unspec,
                socktype: SockType::Other(0),
                protocol: Protocol::Unspec,
                flags: AiFlags(0),
            }),
    {
        AddrInfoHints {
            family: AddressFamily::Unspec,
            socktype: SockType::Other(0),
            protocol: Protocol::Unspec,
            flags: AiFlags::NONE(),
        }
    }
}

/// An IPv4 address and a port.
#[derive(Debug, Clone, Copy, PartialEq, Eq)]
pub struct SocketAddrV4 {
    /// The address, most significant octet first.
    pub ip: [u8; 4],
    /// The port.
    pub port: u16,
}

/// An IPv6 address, a port, a flow label and a scope.
#[derive(Debug, Clone, Copy, PartialEq, Eq)]
pub struct SocketAddrV6 {
    /// The address, most significant octet first.
    pub ip: [u8; 16],
    /// The port.
    pub port: u16,
    /// The flow information.
    pub flowinfo: u32,
    /// The scope identifier.
    pub scope_id: u32,
}

/// A socket address.
#[derive(Debug, Clone, Copy, PartialEq, Eq)]
pub enum SocketAddr {
    /// An IPv4 socket address.
    V4(SocketAddrV4),
    /// An IPv6 socket address.
    V6(SocketAddrV6),
}

impl SocketAddr {
    /// The port of a socket address.
    pub open spec fn port_of(self) -> u16 {
        match self {
            SocketAddr::V4(v4) => v4.port,
            SocketAddr::V6(v6) => v6.port,
        }
    }

    /// The port.
    pub fn port(&self) -> (r: u16)
        ensures
            r == self.port_of(),
    {
        match self {
            SocketAddr::V4(v4) => v4.port,
            SocketAddr::V6(v6) => v6.port,
        }
    }
}

/// A single address record.
#[derive(Debug, Clone)]
#[must_use]
pub struct AddrInfo {
    /// The resolved socket address. Its port is `0` where no service was asked
    /// for.
    pub addr: SocketAddr,

    /// The canonical name, where [`AiFlags::CANONNAME`] was set.
    pub canonname: Option<String>,

    /// The socket type of this record.
    pub socktype: SockType,

    /// The protocol of this record.
    pub protocol: Protocol,
}

/// The text behind an optional string.
pub open spec fn opt_text(s: Option<String>) -> Option<Seq<char>> {
    match s {
        Some(text) => Some(text@),
        None => None,
    }
}

/// The bytes behind an optional vector.
pub open spec fn opt_vec(v: Option<Vec<u8>>) -> Option<Seq<u8>> {
    match v {
        Some(bytes) => Some(bytes@),
        None => None,
    }
}

/// The view of an [`AddrInfo`].
pub struct AddrInfoView {
    /// See [`AddrInfo::addr`].
    pub addr: SocketAddr,
    /// See [`AddrInfo::canonname`].
    pub canonname: Option<Seq<char>>,
    /// See [`AddrInfo::socktype`].
    pub socktype: SockType,
    /// See [`AddrInfo::protocol`].
    pub protocol: Protocol,
}

impl View for AddrInfo {
    type V = AddrInfoView;

    open spec fn view(&self) -> AddrInfoView {
        AddrInfoView {
            addr: self.addr,
            canonname: opt_text(self.canonname),
            socktype: self.socktype,
            protocol: self.protocol,
        }
    }
}

/// Names returned by a reverse lookup. Each is `None` where the system returned
/// an empty string.
#[derive(Debug, Clone)]
#[must_use]
pub struct ResolvedNames {
    /// The hostname for the address; bytes that are not UTF-8 are replaced.
    pub hostname: Option<String>,

    /// The hostname as the system wrote it.
    pub hostname_raw: Option<Vec<u8>>,

    /// The service name for the port; bytes that are not UTF-8 are replaced.
    pub service: Option<String>,

    /// The service name as the system wrote it.
    pub service_raw: Option<Vec<u8>>,
}

/// The view of a [`ResolvedNames`].
pub struct ResolvedNamesView {
    /// See [`ResolvedNames::hostname`].
    pub hostname: Option<Seq<char>>,
    /// See [`ResolvedNames::hostname_raw`].
    pub hostname_raw: Option<Seq<u8>>,
    /// See [`ResolvedNames::service`].
    pub service: Option<Seq<char>>,
    /// See [`ResolvedNames::service_raw`].
    pub service_raw: Option<Seq<u8>>,
}

impl View for ResolvedNames {
    type V = ResolvedNamesView;

    open spec fn view(&self) -> ResolvedNamesView {
        ResolvedNamesView {
            hostname: opt_text(self.hostname),
            hostname_raw: opt_vec(self.hostname_raw),
            service: opt_text(self.service),
            service_raw: opt_vec(self.service_raw),
        }
    }
}

/// A socket type or protocol number survives the way through its enumeration.
pub proof fn codes_round_trip(v: c_int)
    ensures
        SockType::of_code(v).code() == v,
        Protocol::of_code(v).code() == v,
{
}

/// A socket type or protocol survives the way through its number, unless it is
/// an `Other` that holds the number of a named one.
pub proof fn named_values_round_trip(s: SockType, p: Protocol)
    requires
        s matches SockType::Other(v) ==> v != sock_stream() && v != sock_dgram() && v
            != sock_raw(),
        p != Protocol::Other(0),
    ensures
        SockType::of_code(s.code()) == s,
        Protocol::of_code(p.code()) == p,
{
}

/// Different address families have different numbers.
pub proof fn family_codes_differ(a: AddressFamily, b: AddressFamily)
    requires
        a != b,
    ensures
        a.code() != b.code(),
{
}

/// Setting a flag of `AiFlags` makes it present where it has a bit that counts,
/// clearing it makes it absent, and either leaves every flag with other bits as
/// it was.
pub proof fn ai_insert_and_remove(flags: AiFlags, flag: AiFlags, other: AiFlags)
    ensures
        AiFlags(flags.0 | flag.0).has(flag) <==> flag.0 > 0,
        !AiFlags(flags.0 & !flag.0).has(flag),
        flag.0 & other.0 == 0 ==> AiFlags(flags.0 | flag.0).has(other) == flags.has(other),
        flag.0 & other.0 == 0 ==> AiFlags(flags.0 & !flag.0).has(other) == flags.has(other),
{
    let (x, y, z): (c_int, c_int, c_int) = (flags.0, flag.0, other.0);
    assert(((x | y) & y) == y && ((x & !y) & y) == 0) by (bit_vector);
    assert(y & z == 0 ==> ((x | y) & z) == (x & z) && ((x & !y) & z) == (x & z)) by (bit_vector);
}

/// A union of `AiFlags` has what either side has, unless the flag asked for and
/// one side share the sign bit and the other side has the flag; and meeting a
/// union with one side gives that side.
pub proof fn ai_union(a: AiFlags, b: AiFlags, flag: AiFlags)
    requires
        !(a.0 & flag.0 < 0 && b.has(flag)),
        !(b.0 & flag.0 < 0 && a.has(flag)),
    ensures
        AiFlags(a.0 | b.0).has(flag) == (a.has(flag) || b.has(flag)),
        AiFlags((a.0 | b.0) & a.0) == a,
{
    let (x, y, z): (c_int, c_int, c_int) = (a.0, b.0, flag.0);
    assert((((x | y) & z) > 0) == ((x & z) > 0 || (y & z) > 0)) by (bit_vector)
        requires
            !((x & z) < 0 && (y & z) > 0),
            !((y & z) < 0 && (x & z) > 0),
    ;
    assert(((x | y) & x) == x) by (bit_vector);
}

/// Setting a flag of `NiFlags` makes it present where it has a bit that counts,
/// clearing it makes it absent, and either leaves every flag with other bits as
/// it was.
pub proof fn ni_insert_and_remove(flags: NiFlags, flag: NiFlags, other: NiFlags)
    ensures
        NiFlags(flags.0 | flag.0).has(flag) <==> flag.0 > 0,
        !NiFlags(flags.0 & !flag.0).has(flag),
        flag.0 & other.0 == 0 ==> NiFlags(flags.0 | flag.0).has(other) == flags.has(other),
        flag.0 & other.0 == 0 ==> NiFlags(flags.0 & !flag.0).has(other) == flags.has(other),
{
    let (x, y, z): (c_int, c_int, c_int) = (flags.0, flag.0, other.0);
    assert(((x | y) & y) == y && ((x & !y) & y) == 0) by (bit_vector);
    assert(y & z == 0 ==> ((x | y) & z) == (x & z) && ((x & !y) & z) == (x & z)) by (bit_vector);
}

/// A union of `NiFlags` has what either side has, unless the flag asked for and
/// one side share the sign bit and the other side has the flag; and meeting a
/// union with one side gives that side.
pub proof fn ni_union(a: NiFlags, b: NiFlags, flag: NiFlags)
    requires
        !(a.0 & flag.0 < 0 && b.has(flag)),
        !(b.0 & flag.0 < 0 && a.has(flag)),
    ensures
        NiFlags(a.0 | b.0).has(flag) == (a.has(flag) || b.has(flag)),
        NiFlags((a.0 | b.0) & a.0) == a,
{
    let (x, y, z): (c_int, c_int, c_int) = (a.0, b.0, flag.0);
    assert((((x | y) & z) > 0) == ((x & z) > 0 || (y & z) > 0)) by (bit_vector)
        requires
            !((x & z) < 0 && (y & z) > 0),
            !((y & z) < 0 && (x & z) > 0),
    ;
    assert(((x | y) & x) == x) by (bit_vector);
}

/// The flags of each kind share no bit.
pub proof fn named_flags_are_disjoint()
    ensures
        forall|i: int, j: int|
            0 <= i < j < ai_codes().len() ==> #[trigger] ai_codes()[i] & #[trigger] ai_codes()[j]
                == 0,
        forall|i: int, j: int|
            0 <= i < j < ni_codes().len() ==> #[trigger] ni_codes()[i] & #[trigger] ni_codes()[j]
                == 0,
{
    assert(1i32 & 2 == 0 && 1i32 & 4 == 0 && 1i32 & 8 == 0 && 1i32 & 16 == 0 && 1i32 & 0x20 == 0
        && 1i32 & 0x400 == 0 && 2i32 & 4 == 0 && 2i32 & 8 == 0 && 2i32 & 16 == 0 && 2i32 & 0x20
        == 0 && 2i32 & 0x400 == 0 && 4i32 & 8 == 0 && 4i32 & 16 == 0 && 4i32 & 0x20 == 0 && 4i32
        & 0x400 == 0 && 8i32 & 16 == 0 && 8i32 & 0x20 == 0 && 8i32 & 0x400 == 0 && 0x20i32 & 0x400
        == 0) by (bit_vector);
}

/// The numbers of the `AI_*` flags.
pub open spec fn ai_codes() -> Seq<c_int> {
    seq![
        ai_passive(),
        ai_canonname(),
        ai_numerichost(),
        ai_v4mapped(),
        ai_addrconfig(),
        ai_numericserv(),
    ]
}

/// The numbers of the `NI_*` flags.
pub open spec fn ni_codes() -> Seq<c_int> {
    seq![ni_numerichost(), ni_numericserv(), ni_nofqdn(), ni_namereqd(), ni_dgram()]
}

} // verus!
