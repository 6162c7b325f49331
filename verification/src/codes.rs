//! The numbers of `<sys/socket.h>` and `<netdb.h>` that a lookup uses.
//!
//! Each comes from the `libc` crate. A spec function states its value on x86-64
//! Linux with glibc, the target that the proofs are for.

use libc::c_int;
use vstd::prelude::*;

verus! {

/// `AF_UNSPEC`: any address family.
pub open spec fn af_unspec() -> c_int {
    0
}

/// `AF_INET`: IPv4.
pub open spec fn af_inet() -> c_int {
    2
}

/// `AF_INET6`: IPv6.
pub open spec fn af_inet6() -> c_int {
    10
}

/// `SOCK_STREAM`: stream sockets.
pub open spec fn sock_stream() -> c_int {
    1
}

/// `SOCK_DGRAM`: datagram sockets.
pub open spec fn sock_dgram() -> c_int {
    2
}

/// `SOCK_RAW`: raw sockets.
pub open spec fn sock_raw() -> c_int {
    3
}

/// `AI_PASSIVE`: wildcard addresses, for `bind`.
pub open spec fn ai_passive() -> c_int {
    0x1
}

/// `AI_CANONNAME`: ask for the canonical name.
pub open spec fn ai_canonname() -> c_int {
    0x2
}

/// `AI_NUMERICHOST`: the host is a numeric address.
pub open spec fn ai_numerichost() -> c_int {
    0x4
}

/// `AI_V4MAPPED`: IPv4-mapped IPv6 addresses.
pub open spec fn ai_v4mapped() -> c_int {
    0x8
}

/// `AI_ADDRCONFIG`: only families that the host has configured.
pub open spec fn ai_addrconfig() -> c_int {
    0x20
}

/// `AI_NUMERICSERV`: the service is a port number.
pub open spec fn ai_numericserv() -> c_int {
    0x400
}

/// `NI_NUMERICHOST`: numeric form of the host.
pub open spec fn ni_numerichost() -> c_int {
    1
}

/// `NI_NUMERICSERV`: numeric form of the service.
pub open spec fn ni_numericserv() -> c_int {
    2
}

/// `NI_NOFQDN`: host part of the name only.
pub open spec fn ni_nofqdn() -> c_int {
    4
}

/// `NI_NAMEREQD`: fail where there is no name.
pub open spec fn ni_namereqd() -> c_int {
    8
}

/// `NI_DGRAM`: the service is a datagram service.
pub open spec fn ni_dgram() -> c_int {
    16
}

/// Reads `libc::AF_UNSPEC`. Trusted: its value on x86-64 Linux.
#[verifier::external_body]
pub(crate) fn libc_af_unspec() -> (r: c_int)
    ensures
        r == af_unspec(),
{
    libc::AF_UNSPEC
}

/// Reads `libc::AF_INET`. Trusted: its value on x86-64 Linux.
#[verifier::external_body]
pub(crate) fn libc_af_inet() -> (r: c_int)
    ensures
        r == af_inet(),
{
    libc::AF_INET
}

/// Reads `libc::AF_INET6`. Trusted: its value on x86-64 Linux.
#[verifier::external_body]
pub(crate) fn libc_af_inet6() -> (r: c_int)
    ensures
        r == af_inet6(),
{
    libc::AF_INET6
}

/// Reads `libc::SOCK_STREAM`. Trusted: its value on x86-64 Linux.
#[verifier::external_body]
pub(crate) fn libc_sock_stream() -> (r: c_int)
    ensures
        r == sock_stream(),
{
    libc::SOCK_STREAM
}

/// Reads `libc::SOCK_DGRAM`. Trusted: its value on x86-64 Linux.
#[verifier::external_body]
pub(crate) fn libc_sock_dgram() -> (r: c_int)
    ensures
        r == sock_dgram(),
{
    libc::SOCK_DGRAM
}

/// Reads `libc::SOCK_RAW`. Trusted: its value on x86-64 Linux.
#[verifier::external_body]
pub(crate) fn libc_sock_raw() -> (r: c_int)
    ensures
        r == sock_raw(),
{
    libc::SOCK_RAW
}

/// Reads `libc::AI_PASSIVE`. Trusted: its value on x86-64 Linux.
#[verifier::external_body]
pub(crate) fn libc_ai_passive() -> (r: c_int)
    ensures
        r == ai_passive(),
{
    libc::AI_PASSIVE
}

/// Reads `libc::AI_CANONNAME`. Trusted: its value on x86-64 Linux.
#[verifier::external_body]
pub(crate) fn libc_ai_canonname() -> (r: c_int)
    ensures
        r == ai_canonname(),
{
    libc::AI_CANONNAME
}

/// Reads `libc::AI_NUMERICHOST`. Trusted: its value on x86-64 Linux.
#[verifier::external_body]
pub(crate) fn libc_ai_numerichost() -> (r: c_int)
    ensures
        r == ai_numerichost(),
{
    libc::AI_NUMERICHOST
}

/// Reads `libc::AI_V4MAPPED`. Trusted: its value on x86-64 Linux.
#[verifier::external_body]
pub(crate) fn libc_ai_v4mapped() -> (r: c_int)
    ensures
        r == ai_v4mapped(),
{
    libc::AI_V4MAPPED
}

/// Reads `libc::AI_ADDRCONFIG`. Trusted: its value on x86-64 Linux.
#[verifier::external_body]
pub(crate) fn libc_ai_addrconfig() -> (r: c_int)
    ensures
        r == ai_addrconfig(),
{
    libc::AI_ADDRCONFIG
}

/// Reads `libc::AI_NUMERICSERV`. Trusted: its value on x86-64 Linux.
#[verifier::external_body]
pub(crate) fn libc_ai_numericserv() -> (r: c_int)
    ensures
        r == ai_numericserv(),
{
    libc::AI_NUMERICSERV
}

/// Reads `libc::NI_NUMERICHOST`. Trusted: its value on x86-64 Linux.
#[verifier::external_body]
pub(crate) fn libc_ni_numerichost() -> (r: c_int)
    ensures
        r == ni_numerichost(),
{
    libc::NI_NUMERICHOST
}

/// Reads `libc::NI_NUMERICSERV`. Trusted: its value on x86-64 Linux.
#[verifier::external_body]
pub(crate) fn libc_ni_numericserv() -> (r: c_int)
    ensures
        r == ni_numericserv(),
{
    libc::NI_NUMERICSERV
}

/// Reads `libc::NI_NOFQDN`. Trusted: its value on x86-64 Linux.
#[verifier::external_body]
pub(crate) fn libc_ni_nofqdn() -> (r: c_int)
    ensures
        r == ni_nofqdn(),
{
    libc::NI_NOFQDN
}

/// Reads `libc::NI_NAMEREQD`. Trusted: its value on x86-64 Linux.
#[verifier::external_body]
pub(crate) fn libc_ni_namereqd() -> (r: c_int)
    ensures
        r == ni_namereqd(),
{
    libc::NI_NAMEREQD
}

/// Reads `libc::NI_DGRAM`. Trusted: its value on x86-64 Linux.
#[verifier::external_body]
pub(crate) fn libc_ni_dgram() -> (r: c_int)
    ensures
        r == ni_dgram(),
{
    libc::NI_DGRAM
}

} // verus!
