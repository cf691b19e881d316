//! The constants of the C library that the logic reads, taken from the `libc`
//! crate. Each value below is the one that `libc` defines for every Linux
//! target (in `src/unix/linux_like/mod.rs` or `src/unix/mod.rs`).
use vstd::prelude::*;

verus! {

/// The value of `AF_UNIX` (local sockets).
pub open spec fn spec_af_unix() -> i32 {
    1
}

/// The value of `AF_INET` (IPv4).
pub open spec fn spec_af_inet() -> i32 {
    2
}

/// The value of `INADDR_ANY` (0.0.0.0).
pub open spec fn spec_inaddr_any() -> u32 {
    0
}

/// The value of `EPOLLIN`.
pub open spec fn spec_epollin() -> i32 {
    0x1
}

/// The value of `POLLIN`.
pub open spec fn spec_pollin() -> i16 {
    0x1
}

/// The value of `POLLOUT`.
pub open spec fn spec_pollout() -> i16 {
    0x4
}

/// The value of `POLLERR`.
pub open spec fn spec_pollerr() -> i16 {
    0x8
}

/// The value of `POLLHUP`.
pub open spec fn spec_pollhup() -> i16 {
    0x10
}

/// The value of `ECHO`, the terminal's local-echo flag in `c_lflag`.
pub open spec fn spec_echo() -> u32 {
    0x8
}

/// The value of `FD_SETSIZE`, the number of descriptors an `fd_set` holds.
pub open spec fn spec_fd_setsize() -> usize {
    1024
}

/// `libc::AF_UNIX`; the contract claims the value 1.
#[verifier::external_body]
pub(crate) fn af_unix() -> (r: i32)
    ensures
        r == spec_af_unix(),
{
    libc::AF_UNIX
}

/// `libc::AF_INET`; the contract claims the value 2.
#[verifier::external_body]
pub(crate) fn af_inet() -> (r: i32)
    ensures
        r == spec_af_inet(),
{
    libc::AF_INET
}

/// `libc::INADDR_ANY`; the contract claims the value 0.
#[verifier::external_body]
pub(crate) fn inaddr_any() -> (r: u32)
    ensures
        r == spec_inaddr_any(),
{
    libc::INADDR_ANY
}

/// `libc::EPOLLIN`; the contract claims the value 0x1.
#[verifier::external_body]
pub(crate) fn epollin() -> (r: i32)
    ensures
        r == spec_epollin(),
{
    libc::EPOLLIN
}

/// `libc::POLLIN`; the contract claims the value 0x1.
#[verifier::external_body]
pub(crate) fn pollin() -> (r: i16)
    ensures
        r == spec_pollin(),
{
    libc::POLLIN
}

/// `libc::POLLOUT`; the contract claims the value 0x4.
#[verifier::external_body]
pub(crate) fn pollout() -> (r: i16)
    ensures
        r == spec_pollout(),
{
    libc::POLLOUT
}

/// `libc::POLLERR`; the contract claims the value 0x8.
#[verifier::external_body]
pub(crate) fn pollerr() -> (r: i16)
    ensures
        r == spec_pollerr(),
{
    libc::POLLERR
}

/// `libc::POLLHUP`; the contract claims the value 0x10.
#[verifier::external_body]
pub(crate) fn pollhup() -> (r: i16)
    ensures
        r == spec_pollhup(),
{
    libc::POLLHUP
}

/// `libc::ECHO`; the contract claims the value 0x8.
#[verifier::external_body]
pub(crate) fn echo_flag() -> (r: u32)
    ensures
        r == spec_echo(),
{
    libc::ECHO
}

/// `libc::FD_SETSIZE`; the contract claims the value 1024.
#[verifier::external_body]
pub(crate) fn fd_setsize() -> (r: usize)
    ensures
        r == spec_fd_setsize(),
{
    libc::FD_SETSIZE
}

} // verus!
