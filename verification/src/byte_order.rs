//! Host and network byte order.
//!
//! Network byte order is big-endian. `htons`/`htonl` turn a value held in the
//! host's byte order into one whose memory representation is big-endian, and
//! `ntohs`/`ntohl` undo it.
use vstd::endian::{endianness, Endian};
use vstd::prelude::*;

verus! {

/// The order in which the bytes of a multi-byte integer are laid out in memory.
#[derive(Clone, Copy, Debug, PartialEq, Eq, Structural)]
pub enum ByteOrder {
    /// The least significant byte comes first.
    Little,
    /// The most significant byte comes first ("network byte order").
    Big,
}

/// The byte order of the machine that runs the program.
pub open spec fn host_order() -> ByteOrder {
    match endianness() {
        Endian::Little => ByteOrder::Little,
        Endian::Big => ByteOrder::Big,
    }
}

/// The bytes of `x`, least significant first.
pub open spec fn le_bytes_u32(x: u32) -> Seq<u8> {
    seq![
        (x & 0xff) as u8,
        ((x >> 8u32) & 0xff) as u8,
        ((x >> 16u32) & 0xff) as u8,
        ((x >> 24u32) & 0xff) as u8,
    ]
}

/// The bytes of `x`, most significant first.
pub open spec fn be_bytes_u32(x: u32) -> Seq<u8> {
    seq![
        ((x >> 24u32) & 0xff) as u8,
        ((x >> 16u32) & 0xff) as u8,
        ((x >> 8u32) & 0xff) as u8,
        (x & 0xff) as u8,
    ]
}

/// The bytes of `x`, least significant first.
pub open spec fn le_bytes_u16(x: u16) -> Seq<u8> {
    seq![(x & 0xff) as u8, ((x >> 8u16) & 0xff) as u8]
}

/// The bytes of `x`, most significant first.
pub open spec fn be_bytes_u16(x: u16) -> Seq<u8> {
    seq![((x >> 8u16) & 0xff) as u8, (x & 0xff) as u8]
}

/// The memory representation of `x` in byte order `order`.
pub open spec fn bytes_in_order_u32(order: ByteOrder, x: u32) -> Seq<u8> {
    match order {
        ByteOrder::Little => le_bytes_u32(x),
        ByteOrder::Big => be_bytes_u32(x),
    }
}

/// The memory representation of `x` in byte order `order`.
pub open spec fn bytes_in_order_u16(order: ByteOrder, x: u16) -> Seq<u8> {
    match order {
        ByteOrder::Little => le_bytes_u16(x),
        ByteOrder::Big => be_bytes_u16(x),
    }
}

/// `x` with its two bytes exchanged.
pub open spec fn swap_u16(x: u16) -> u16 {
    (((x & 0xff) << 8u16) | (x >> 8u16)) as u16
}

/// `x` with the order of its four bytes reversed.
pub open spec fn swap_u32(x: u32) -> u32 {
    ((x & 0xff) << 24u32) | (((x >> 8u32) & 0xff) << 16u32) | (((x >> 16u32) & 0xff) << 8u32) | (
    x >> 24u32)
}

/// The value whose representation in byte order `order` is the big-endian
/// representation of `x`.
pub open spec fn to_network_u16(order: ByteOrder, x: u16) -> u16 {
    match order {
        ByteOrder::Little => swap_u16(x),
        ByteOrder::Big => x,
    }
}

/// The value whose representation in byte order `order` is the big-endian
/// representation of `x`.
pub open spec fn to_network_u32(order: ByteOrder, x: u32) -> u32 {
    match order {
        ByteOrder::Little => swap_u32(x),
        ByteOrder::Big => x,
    }
}

/// The byte order that a memory image of the integer 1 reveals: `[0, 0, 0, 1]`
/// is big-endian, `[1, 0, 0, 0]` little-endian, anything else neither.
pub open spec fn spec_classify_byte_order(bytes: Seq<u8>) -> Option<ByteOrder> {
    if bytes == seq![0u8, 0u8, 0u8, 1u8] {
        Some(ByteOrder::Big)
    } else if bytes == seq![1u8, 0u8, 0u8, 0u8] {
        Some(ByteOrder::Little)
    } else {
        None
    }
}

/// `u32::to_ne_bytes`: the memory representation of `x` in the byte order of
/// the machine that runs the program. The contract claims that this is the
/// little-endian or the big-endian representation, as the machine's byte order
/// (vstd's `endianness()`) says.
#[verifier::external_body]
fn native_bytes_u32(x: u32) -> (r: [u8; 4])
    ensures
        r@ == bytes_in_order_u32(host_order(), x),
{
    x.to_ne_bytes()
}

/// Tells the byte order from the memory image of the integer 1.
pub fn classify_byte_order(bytes: [u8; 4]) -> (r: Option<ByteOrder>)
    ensures
        r == spec_classify_byte_order(bytes@),
{
    if bytes[0] == 0 && bytes[1] == 0 && bytes[2] == 0 && bytes[3] == 1 {
        assert(bytes@ =~= seq![0u8, 0u8, 0u8, 1u8]);
        Some(ByteOrder::Big)
    } else if bytes[0] == 1 && bytes[1] == 0 && bytes[2] == 0 && bytes[3] == 0 {
        assert(bytes@ =~= seq![1u8, 0u8, 0u8, 0u8]);
        Some(ByteOrder::Little)
    } else {
        proof {
            if bytes@ == seq![0u8, 0u8, 0u8, 1u8] {
                assert(bytes@[3] == 1u8);
            }
            if bytes@ == seq![1u8, 0u8, 0u8, 0u8] {
                assert(bytes@[0] == 1u8);
            }
        }
        None
    }
}

/// The memory image of 1 in each byte order.
proof fn lemma_bytes_of_one()
    ensures
        le_bytes_u32(1) =~= seq![1u8, 0u8, 0u8, 0u8],
        be_bytes_u32(1) =~= seq![0u8, 0u8, 0u8, 1u8],
{
    assert((1u32 & 0xff) as u8 == 1u8) by (bit_vector);
    assert(((1u32 >> 8u32) & 0xff) as u8 == 0u8) by (bit_vector);
    assert(((1u32 >> 16u32) & 0xff) as u8 == 0u8) by (bit_vector);
    assert(((1u32 >> 24u32) & 0xff) as u8 == 0u8) by (bit_vector);
}

/// The memory image of the integer 1 tells the byte order it was laid out in.
pub proof fn lemma_image_of_one_reveals_order(order: ByteOrder)
    ensures
        spec_classify_byte_order(bytes_in_order_u32(order, 1)) == Some(order),
{
    lemma_bytes_of_one();
}

/// The byte order of the machine that runs the program, found by looking at
/// how the integer 1 is laid out in memory.
pub fn host_byte_order() -> (r: ByteOrder)
    ensures
        r == host_order(),
{
    let bytes = native_bytes_u32(1);
    proof {
        lemma_image_of_one_reveals_order(host_order());
    }
    match classify_byte_order(bytes) {
        Some(order) => order,
        None => {
            // The image of 1 is always one of the two patterns.
            proof {
                assert(false);
            }
            ByteOrder::Little
        },
    }
}

impl ByteOrder {
    /// Converts `x`, held in this byte order, to network byte order.
    pub fn to_network_u16(self, x: u16) -> (r: u16)
        ensures
            r == to_network_u16(self, x),
    {
        match self {
            ByteOrder::Little => ((x & 0xff) << 8u16) | (x >> 8u16),
            ByteOrder::Big => x,
        }
    }

    /// Converts `x`, held in this byte order, to network byte order.
    pub fn to_network_u32(self, x: u32) -> (r: u32)
        ensures
            r == to_network_u32(self, x),
    {
        match self {
            ByteOrder::Little => ((x & 0xff) << 24u32) | (((x >> 8u32) & 0xff) << 16u32) | (((x
                >> 16u32) & 0xff) << 8u32) | (x >> 24u32),
            ByteOrder::Big => x,
        }
    }

    /// Converts `x`, held in network byte order, to this byte order.
    pub fn from_network_u16(self, x: u16) -> (r: u16)
        ensures
            to_network_u16(self, r) == x,
            r == to_network_u16(self, x),
    {
        proof {
            lemma_network_u16_involution(self, x);
        }
        self.to_network_u16(x)
    }

    /// Converts `x`, held in network byte order, to this byte order.
    pub fn from_network_u32(self, x: u32) -> (r: u32)
        ensures
            to_network_u32(self, r) == x,
            r == to_network_u32(self, x),
    {
        proof {
            lemma_network_u32_involution(self, x);
        }
        self.to_network_u32(x)
    }
}

impl ByteOrder {
    /// The memory representation of `x` in this byte order.
    pub fn bytes_u16(self, x: u16) -> (r: [u8; 2])
        ensures
            r@ == bytes_in_order_u16(self, x),
    {
        let lo = (x & 0xff) as u8;
        let hi = ((x >> 8u16) & 0xff) as u8;
        let r = match self {
            ByteOrder::Little => [lo, hi],
            ByteOrder::Big => [hi, lo],
        };
        assert(r@ =~= bytes_in_order_u16(self, x));
        r
    }

    /// The memory representation of `x` in this byte order.
    pub fn bytes_u32(self, x: u32) -> (r: [u8; 4])
        ensures
            r@ == bytes_in_order_u32(self, x),
    {
        let b0 = (x & 0xff) as u8;
        let b1 = ((x >> 8u32) & 0xff) as u8;
        let b2 = ((x >> 16u32) & 0xff) as u8;
        let b3 = ((x >> 24u32) & 0xff) as u8;
        let r = match self {
            ByteOrder::Little => [b0, b1, b2, b3],
            ByteOrder::Big => [b3, b2, b1, b0],
        };
        assert(r@ =~= bytes_in_order_u32(self, x));
        r
    }
}

/// `htons`: converts a 16-bit value from host to network byte order.
pub fn htons(x: u16) -> (r: u16)
    ensures
        r == to_network_u16(host_order(), x),
{
    host_byte_order().to_network_u16(x)
}

/// `htonl`: converts a 32-bit value from host to network byte order.
pub fn htonl(x: u32) -> (r: u32)
    ensures
        r == to_network_u32(host_order(), x),
{
    host_byte_order().to_network_u32(x)
}

/// `ntohs`: converts a 16-bit value from network to host byte order.
pub fn ntohs(x: u16) -> (r: u16)
    ensures
        to_network_u16(host_order(), r) == x,
        r == to_network_u16(host_order(), x),
{
    host_byte_order().from_network_u16(x)
}

/// `ntohl`: converts a 32-bit value from network to host byte order.
pub fn ntohl(x: u32) -> (r: u32)
    ensures
        to_network_u32(host_order(), r) == x,
        r == to_network_u32(host_order(), x),
{
    host_byte_order().from_network_u32(x)
}

/// Converting to network order twice gives back the value: the conversion is
/// its own inverse, so `ntohs(htons(x)) == x` and `htons(ntohs(x)) == x`.
pub proof fn lemma_network_u16_involution(order: ByteOrder, x: u16)
    ensures
        to_network_u16(order, to_network_u16(order, x)) == x,
{
    assert(swap_u16(swap_u16(x)) == x) by (bit_vector);
}

/// Converting to network order twice gives back the value: the conversion is
/// its own inverse, so `ntohl(htonl(x)) == x` and `htonl(ntohl(x)) == x`.
pub proof fn lemma_network_u32_involution(order: ByteOrder, x: u32)
    ensures
        to_network_u32(order, to_network_u32(order, x)) == x,
{
    assert(swap_u32(swap_u32(x)) == x) by (bit_vector);
}

/// In any byte order, the memory representation of the converted value is the
/// big-endian representation of the given value: what `htons` returns is laid out
/// in network byte order.
pub proof fn lemma_network_u16_is_big_endian(order: ByteOrder, x: u16)
    ensures
        bytes_in_order_u16(order, to_network_u16(order, x)) == be_bytes_u16(x),
{
    let s = swap_u16(x);
    assert((s & 0xff) as u8 == ((x >> 8u16) & 0xff) as u8) by (bit_vector)
        requires
            s == swap_u16(x),
    ;
    assert(((s >> 8u16) & 0xff) as u8 == (x & 0xff) as u8) by (bit_vector)
        requires
            s == swap_u16(x),
    ;
    assert(bytes_in_order_u16(order, to_network_u16(order, x)) =~= be_bytes_u16(x));
}

/// In any byte order, the memory representation of the converted value is the
/// big-endian representation of the given value: what `htonl` returns is laid out
/// in network byte order.
pub proof fn lemma_network_u32_is_big_endian(order: ByteOrder, x: u32)
    ensures
        bytes_in_order_u32(order, to_network_u32(order, x)) == be_bytes_u32(x),
{
    let s = swap_u32(x);
    assert((s & 0xff) as u8 == ((x >> 24u32) & 0xff) as u8) by (bit_vector)
        requires
            s == swap_u32(x),
    ;
    assert(((s >> 8u32) & 0xff) as u8 == ((x >> 16u32) & 0xff) as u8) by (bit_vector)
        requires
            s == swap_u32(x),
    ;
    assert(((s >> 16u32) & 0xff) as u8 == ((x >> 8u32) & 0xff) as u8) by (bit_vector)
        requires
            s == swap_u32(x),
    ;
    assert(((s >> 24u32) & 0xff) as u8 == (x & 0xff) as u8) by (bit_vector)
        requires
            s == swap_u32(x),
    ;
    assert(bytes_in_order_u32(order, to_network_u32(order, x)) =~= be_bytes_u32(x));
}

/// On a big-endian host the conversions change nothing.
pub proof fn lemma_network_order_on_big_endian(x16: u16, x32: u32)
    ensures
        to_network_u16(ByteOrder::Big, x16) == x16,
        to_network_u32(ByteOrder::Big, x32) == x32,
{
}

/// The value whose big-endian memory representation is `bytes`
/// (`u32::from_be_bytes`).
pub open spec fn u32_from_be_bytes(bytes: Seq<u8>) -> u32 {
    ((bytes[0] as u32) << 24u32) | ((bytes[1] as u32) << 16u32) | ((bytes[2] as u32) << 8u32) | (
    bytes[3] as u32)
}

/// `u32::from_be_bytes`: reads four bytes as a big-endian integer.
pub fn from_be_bytes_u32(bytes: [u8; 4]) -> (r: u32)
    ensures
        r == u32_from_be_bytes(bytes@),
        be_bytes_u32(r) == bytes@,
{
    let b0 = bytes[0];
    let b1 = bytes[1];
    let b2 = bytes[2];
    let b3 = bytes[3];
    let r = ((b0 as u32) << 24u32) | ((b1 as u32) << 16u32) | ((b2 as u32) << 8u32) | (b3 as u32);
    assert(((r >> 24u32) & 0xff) as u8 == b0 && ((r >> 16u32) & 0xff) as u8 == b1 && ((r >> 8u32)
        & 0xff) as u8 == b2 && (r & 0xff) as u8 == b3) by (bit_vector)
        requires
            r == ((b0 as u32) << 24u32) | ((b1 as u32) << 16u32) | ((b2 as u32) << 8u32) | (
            b3 as u32),
    ;
    assert(be_bytes_u32(r) =~= bytes@);
    r
}

} // verus!
