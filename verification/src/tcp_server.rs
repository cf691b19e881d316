//! The state of the reusable TCP server: whether its socket is non-blocking,
//! its port, and the listening socket once it exists.
use crate::byte_order::{host_order, to_network_u16};
use crate::consts::spec_af_inet;
use crate::sockaddr::{server_default_sockaddr_in, SockAddrIn, DEFAULT_SERVER_PORT};
use vstd::prelude::*;

verus! {

/// A TCP server before and after `bind_listen`: the listening socket is `-1`
/// until the listening socket exists.
pub struct MyTcpServer {
    server_sockfd: i32,
    is_non_blocking: bool,
    port: u16,
}

impl MyTcpServer {
    /// The listening socket, or `-1`.
    pub closed spec fn spec_server_sockfd(&self) -> i32 {
        self.server_sockfd
    }

    /// Whether the listening socket is to be non-blocking.
    pub closed spec fn spec_is_non_blocking(&self) -> bool {
        self.is_non_blocking
    }

    /// The port the server is configured with.
    pub closed spec fn spec_port(&self) -> u16 {
        self.port
    }

    /// A server with no socket yet, configured for port 8080.
    pub fn new(is_non_blocking: bool) -> (r: MyTcpServer)
        ensures
            r.spec_server_sockfd() == -1,
            r.spec_is_non_blocking() == is_non_blocking,
            r.spec_port() == DEFAULT_SERVER_PORT,
    {
        MyTcpServer { server_sockfd: -1, is_non_blocking, port: DEFAULT_SERVER_PORT }
    }

    /// Configures another port.
    pub fn set_port(&mut self, port: u16)
        ensures
            final(self).spec_port() == port,
            final(self).spec_server_sockfd() == old(self).spec_server_sockfd(),
            final(self).spec_is_non_blocking() == old(self).spec_is_non_blocking(),
    {
        self.port = port;
    }

    /// The listening socket, or `-1` before `bind_listen`.
    pub fn server_sockfd(&self) -> (r: i32)
        ensures
            r == self.spec_server_sockfd(),
    {
        self.server_sockfd
    }

    /// Whether the listening socket is to be non-blocking.
    pub fn is_non_blocking(&self) -> (r: bool)
        ensures
            r == self.spec_is_non_blocking(),
    {
        self.is_non_blocking
    }

    /// The port the server is configured with.
    pub fn port(&self) -> (r: u16)
        ensures
            r == self.spec_port(),
    {
        self.port
    }

    /// The address that `bind_listen` binds: always the default server
    /// address (IPv4, 0.0.0.0, port 8080), whatever port is configured.
    pub fn bind_address(&self) -> (r: SockAddrIn)
        ensures
            r.sin_family == spec_af_inet() as u16,
            r.sin_port == to_network_u16(host_order(), DEFAULT_SERVER_PORT),
            r.sin_addr == 0,
    {
        server_default_sockaddr_in()
    }

    /// Records the listening socket that `bind_listen` created.
    pub fn set_listening(&mut self, fd: i32)
        ensures
            final(self).spec_server_sockfd() == fd,
            final(self).spec_port() == old(self).spec_port(),
            final(self).spec_is_non_blocking() == old(self).spec_is_non_blocking(),
    {
        self.server_sockfd = fd;
    }

    /// The socket to close when the server goes away: the listening socket,
    /// if there is one.
    pub fn socket_to_close(&self) -> (r: Option<i32>)
        ensures
            self.spec_server_sockfd() == -1 ==> r == None::<i32>,
            self.spec_server_sockfd() != -1 ==> r == Some(self.spec_server_sockfd()),
    {
        if self.server_sockfd != -1 {
            Some(self.server_sockfd)
        } else {
            None
        }
    }
}

} // verus!
