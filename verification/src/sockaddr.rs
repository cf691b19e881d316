//! Socket addresses as the programs fill them in, and the small per-byte
//! rules of the one-byte echo servers.
use crate::byte_order::{
    bytes_in_order_u32, from_be_bytes_u32, host_order, htonl, htons,
    lemma_network_u32_is_big_endian, swap_u32, to_network_u16, to_network_u32, u32_from_be_bytes,
};
use crate::consts::{af_inet, af_unix, inaddr_any, spec_af_inet, spec_af_unix, spec_inaddr_any};
use vstd::prelude::*;

verus! {

/// The port that the servers listen on, in host byte order.
pub const DEFAULT_SERVER_PORT: u16 = 8080;

/// The name of the local (`AF_UNIX`) server socket file, with its NUL.
pub const SERVER_SOCKET_FILENAME: [u8; 14] = [
    115u8,
    101,
    114,
    118,
    101,
    114,
    95,
    115,
    111,
    99,
    107,
    101,
    116,
    0,
];

/// The length of `sockaddr_un::sun_path` on Linux.
pub const SUN_PATH_LEN: usize = 108;

/// The fields of a `sockaddr_in` that the programs set; the padding
/// (`sin_zero`) is all zero. `sin_port` and `sin_addr` hold the values stored
/// in the C structure, that is, in network byte order where the program
/// converted them.
#[derive(Clone, Copy, Debug, PartialEq, Eq, Structural)]
pub struct SockAddrIn {
    pub sin_family: u16,
    pub sin_port: u16,
    pub sin_addr: u32,
}

/// A `sockaddr_un`: the family and the bytes of `sun_path`.
#[derive(Clone, Debug)]
pub struct SockAddrUn {
    pub sun_family: u16,
    pub sun_path: Vec<u8>,
}

/// `server_default_sockaddr_in`: IPv4, port 8080 and `INADDR_ANY`
/// (0.0.0.0), both converted to network byte order.
pub fn server_default_sockaddr_in() -> (r: SockAddrIn)
    ensures
        r.sin_family == spec_af_inet() as u16,
        r.sin_port == to_network_u16(host_order(), DEFAULT_SERVER_PORT),
        r.sin_addr == to_network_u32(host_order(), spec_inaddr_any()),
        r.sin_addr == 0,
{
    let family = af_inet();
    let any = inaddr_any();
    let addr = htonl(any);
    assert(swap_u32(0) == 0) by (bit_vector);
    SockAddrIn { sin_family: family as u16, sin_port: htons(DEFAULT_SERVER_PORT), sin_addr: addr }
}

/// The address of the daytime client: IPv4 on the loopback address
/// 127.0.0.1, at the port `s_port` that `getservbyname` gave. That port is
/// already in network byte order, so only its low 16 bits are kept, as they
/// are; the address is converted so that its memory image reads 127.0.0.1.
pub fn daytime_server_addr(s_port: i32) -> (r: SockAddrIn)
    ensures
        r.sin_family == spec_af_inet() as u16,
        r.sin_port == s_port as u16,
        r.sin_addr == to_network_u32(host_order(), 0x7f00_0001),
        bytes_in_order_u32(host_order(), r.sin_addr) == seq![127u8, 0u8, 0u8, 1u8],
{
    let family = af_inet();
    let addr = in_addr_from_entry([127u8, 0, 0, 1]);
    proof {
        let b: [u8; 4] = [127u8, 0, 0, 1];
        assert(b@ =~= seq![127u8, 0u8, 0u8, 1u8]);
        let (b0, b1, b2, b3) = (127u8, 0u8, 0u8, 1u8);
        assert(((b0 as u32) << 24u32) | ((b1 as u32) << 16u32) | ((b2 as u32) << 8u32) | (
        b3 as u32) == 0x7f00_0001u32) by (bit_vector)
            requires
                b0 == 127u8 && b1 == 0u8 && b2 == 0u8 && b3 == 1u8,
        ;
    }
    SockAddrIn { sin_family: family as u16, sin_port: s_port as u16, sin_addr: addr }
}

/// The address that the ping programs send to: IPv4, port 0, and the
/// `s_addr` that the host lookup gave (already in network byte order).
pub fn ping_target_addr(s_addr: u32) -> (r: SockAddrIn)
    ensures
        r == (SockAddrIn { sin_family: spec_af_inet() as u16, sin_port: 0, sin_addr: s_addr }),
{
    let family = af_inet();
    SockAddrIn { sin_family: family as u16, sin_port: 0, sin_addr: s_addr }
}

/// The `s_addr` that the host-name lister builds from one entry of
/// `h_addr_list` (four address bytes in network order):
/// `htonl(u32::from_be_bytes(bytes))`.
pub fn in_addr_from_entry(bytes: [u8; 4]) -> (r: u32)
    ensures
        r == to_network_u32(host_order(), u32_from_be_bytes(bytes@)),
        bytes_in_order_u32(host_order(), r) == bytes@,
{
    let value = from_be_bytes_u32(bytes);
    proof {
        lemma_network_u32_is_big_endian(host_order(), value);
    }
    htonl(value)
}

/// The bytes of `sun_path` for the local server socket: the file name, NUL
/// included, then zeros up to the full length.
pub open spec fn spec_local_socket_path() -> Seq<u8> {
    SERVER_SOCKET_FILENAME@ + Seq::new((SUN_PATH_LEN - 14) as nat, |i: int| 0u8)
}

/// The address of the local (`AF_UNIX`) server socket: a zeroed
/// `sockaddr_un` with family `AF_UNIX` and the socket file's name copied into
/// `sun_path` (as `strcpy` does, NUL included).
pub fn local_server_addr() -> (r: SockAddrUn)
    ensures
        r.sun_family == spec_af_unix() as u16,
        r.sun_path@ == spec_local_socket_path(),
        r.sun_path@.len() == SUN_PATH_LEN,
{
    let family = af_unix();
    let name = SERVER_SOCKET_FILENAME;
    let mut path: Vec<u8> = Vec::new();
    let mut i: usize = 0;
    while i < SUN_PATH_LEN
        invariant
            i <= SUN_PATH_LEN,
            name@ == SERVER_SOCKET_FILENAME@,
            path@.len() == i,
            forall|j: int| 0 <= j < i ==> #[trigger] path@[j] == spec_local_socket_path()[j],
        decreases SUN_PATH_LEN - i,
    {
        if i < 14 {
            path.push(name[i]);
        } else {
            path.push(0);
        }
        i = i + 1;
    }
    assert(path@ =~= spec_local_socket_path());
    SockAddrUn { sun_family: family as u16, sun_path: path }
}

/// `u8::to_ascii_uppercase`: lower-case ASCII letters become upper-case,
/// every other byte stays.
pub open spec fn spec_ascii_uppercase(b: u8) -> u8 {
    if 97 <= b <= 122 {
        (b - 32) as u8
    } else {
        b
    }
}

/// The local server's reply to a one-byte request: the request in upper case.
pub fn uppercase_reply(request: u8) -> (r: u8)
    ensures
        r == spec_ascii_uppercase(request),
{
    if 97 <= request && request <= 122 {
        request - 32
    } else {
        request
    }
}

} // verus!
