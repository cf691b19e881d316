//! ICMP echo requests as the ping programs lay them out in memory.
use crate::byte_order::{bytes_in_order_u16, bytes_in_order_u32, ByteOrder};
use vstd::prelude::*;

verus! {

/// The ICMP message type of an echo request.
pub const ECHO_REQUEST_TYPE: u8 = 8;

/// The size of a whole ping packet: header and payload.
pub const PACKET_LEN: usize = 64;

/// The size of the ICMP header.
pub const PING_HEADER_LEN: usize = 8;

/// The checksum that the ping program stores in its packet (as a value in
/// host byte order).
pub const PING_CHECKSUM: u16 = 62527;

/// The fields of an ICMP header (`struct icmphdr`); `union_padding` stands
/// for the identifier and sequence number, which the programs leave zero.
#[derive(Clone, Copy, Debug, PartialEq, Eq, Structural)]
pub struct PingHeader {
    pub type_: u8,
    pub code: u8,
    pub checksum: u16,
    pub union_padding: u32,
}

/// The memory image of an ICMP header (`#[repr(C)]`, no padding) on a host
/// with byte order `order`.
pub open spec fn spec_header_bytes(h: PingHeader, order: ByteOrder) -> Seq<u8> {
    seq![h.type_, h.code] + bytes_in_order_u16(order, h.checksum) + bytes_in_order_u32(
        order,
        h.union_padding,
    )
}

impl PingHeader {
    /// The zeroed header of an echo request: type 8, every other field 0.
    pub fn echo_request() -> (r: PingHeader)
        ensures
            r == (PingHeader { type_: ECHO_REQUEST_TYPE, code: 0, checksum: 0, union_padding: 0 }),
    {
        PingHeader { type_: ECHO_REQUEST_TYPE, code: 0, checksum: 0, union_padding: 0 }
    }

    /// The memory image of the header on a host with byte order `order`.
    pub fn to_bytes(&self, order: ByteOrder) -> (r: Vec<u8>)
        ensures
            r@ == spec_header_bytes(*self, order),
            r@.len() == PING_HEADER_LEN,
    {
        let mut out: Vec<u8> = Vec::new();
        out.push(self.type_);
        out.push(self.code);
        let c = order.bytes_u16(self.checksum);
        out.push(c[0]);
        out.push(c[1]);
        let p = order.bytes_u32(self.union_padding);
        out.push(p[0]);
        out.push(p[1]);
        out.push(p[2]);
        out.push(p[3]);
        assert(out@ =~= spec_header_bytes(*self, order));
        out
    }
}

/// The payload byte at index `i` of the ping packet: the characters `'0'`,
/// `'1'`, ... counting up from `'0'`, except the last byte, which stays 0.
pub open spec fn spec_payload_byte(i: int) -> u8 {
    if i < (PACKET_LEN - PING_HEADER_LEN) as int - 1 {
        (i + 48) as u8
    } else {
        0
    }
}

/// The payload byte at index `i`.
fn payload_byte(i: usize) -> (r: u8)
    requires
        i < PACKET_LEN - PING_HEADER_LEN,
    ensures
        r == spec_payload_byte(i as int),
{
    if i < PACKET_LEN - PING_HEADER_LEN - 1 {
        i as u8 + 48
    } else {
        0
    }
}

/// A 64-byte ping packet: an ICMP header and a 56-byte payload.
#[derive(Clone, Debug)]
pub struct PingPacket {
    pub header: PingHeader,
    pub msg: Vec<u8>,
}

impl PingPacket {
    /// The echo request that the ping program sends: type 8, code 0,
    /// checksum 62527, identifier and sequence 0, and the payload
    /// `'0'`, `'1'`, ..., ending in a zero byte.
    pub fn echo_request() -> (r: PingPacket)
        ensures
            r.header == (PingHeader {
                type_: ECHO_REQUEST_TYPE,
                code: 0,
                checksum: PING_CHECKSUM,
                union_padding: 0,
            }),
            r.msg@.len() == PACKET_LEN - PING_HEADER_LEN,
            forall|i: int| 0 <= i < r.msg@.len() ==> #[trigger] r.msg@[i] == spec_payload_byte(i),
    {
        let len: usize = PACKET_LEN - PING_HEADER_LEN;
        let mut msg: Vec<u8> = Vec::new();
        let mut i: usize = 0;
        while i < len
            invariant
                i <= len == PACKET_LEN - PING_HEADER_LEN,
                msg@.len() == i,
                forall|j: int| 0 <= j < i ==> #[trigger] msg@[j] == spec_payload_byte(j),
            decreases len - i,
        {
            msg.push(payload_byte(i));
            i = i + 1;
        }
        PingPacket {
            header: PingHeader {
                type_: ECHO_REQUEST_TYPE,
                code: 0,
                checksum: PING_CHECKSUM,
                union_padding: 0,
            },
            msg,
        }
    }

    /// The memory image of the packet (`#[repr(C)]`: header, then payload)
    /// on a host with byte order `order`.
    pub fn to_bytes(&self, order: ByteOrder) -> (r: Vec<u8>)
        ensures
            r@ == spec_header_bytes(self.header, order) + self.msg@,
    {
        let mut out = self.header.to_bytes(order);
        let ghost head = out@;
        let mut i: usize = 0;
        while i < self.msg.len()
            invariant
                i <= self.msg@.len(),
                out@ == head + self.msg@.take(i as int),
            decreases self.msg.len() - i,
        {
            out.push(self.msg[i]);
            i = i + 1;
            assert(out@ =~= head + self.msg@.take(i as int));
        }
        assert(self.msg@.take(self.msg.len() as int) =~= self.msg@);
        out
    }
}

/// The echo request is exactly one packet long, starts with the echo type,
/// and its payload reads `0123...` from the ninth byte on.
pub proof fn lemma_ping_packet_layout(p: PingPacket, order: ByteOrder, i: int)
    requires
        p.header.type_ == ECHO_REQUEST_TYPE,
        p.msg@.len() == PACKET_LEN - PING_HEADER_LEN,
        forall|k: int| 0 <= k < p.msg@.len() ==> #[trigger] p.msg@[k] == spec_payload_byte(k),
        0 <= i < 55,
    ensures
        (spec_header_bytes(p.header, order) + p.msg@).len() == PACKET_LEN,
        (spec_header_bytes(p.header, order) + p.msg@)[0] == ECHO_REQUEST_TYPE,
        (spec_header_bytes(p.header, order) + p.msg@)[PING_HEADER_LEN + i] == 48 + i,
{
    assert(p.msg@[i] == spec_payload_byte(i));
}

} // verus!
