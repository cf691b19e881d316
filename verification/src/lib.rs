//! Verified building blocks of a collection of Linux socket, thread and
//! terminal programs: byte-order conversion, socket addresses, decimal text,
//! event-loop decisions for select/poll/epoll servers, and packet layouts.
pub mod byte_order;
pub mod decimal;
pub mod consts;
pub mod sockaddr;
pub mod chat;
pub mod select;
pub mod epoll;
pub mod reactor;
pub mod http;
pub mod ping;
pub mod terminal;
pub mod tcp_server;
