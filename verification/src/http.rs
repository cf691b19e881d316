//! The header of the HTTP response with which the file servers send a file.
use crate::decimal::{
    all_digits, append_decimal, ascii_chars, decimal_bytes, digits_value,
    lemma_decimal_digits_value,
};
use vstd::prelude::*;

verus! {

/// `HTTP/1.1 200 OK\r\nContent-Length: `
pub const HTTP_OK_CONTENT_LENGTH: [u8; 33] = [
    72u8,
    84,
    84,
    80,
    47,
    49,
    46,
    49,
    32,
    50,
    48,
    48,
    32,
    79,
    75,
    13,
    10,
    67,
    111,
    110,
    116,
    101,
    110,
    116,
    45,
    76,
    101,
    110,
    103,
    116,
    104,
    58,
    32,
];

/// `\r\n\r\n`: the end of the last header line and of the header.
pub const HEADER_END: [u8; 4] = [13u8, 10, 13, 10];

/// The response header for a body of `content_length` bytes:
/// `HTTP/1.1 200 OK\r\nContent-Length: <n>\r\n\r\n`.
pub open spec fn spec_http_ok_header(content_length: nat) -> Seq<u8> {
    HTTP_OK_CONTENT_LENGTH@ + decimal_bytes(content_length) + HEADER_END@
}

/// Builds the response header for a body of `content_length` bytes, as
/// `format!("HTTP/1.1 200 OK\r\nContent-Length: {}\r\n\r\n", content_length)`.
pub fn http_ok_header(content_length: u64) -> (r: Vec<u8>)
    ensures
        r@ == spec_http_ok_header(content_length as nat),
{
    let prefix = HTTP_OK_CONTENT_LENGTH;
    let end = HEADER_END;
    let mut out: Vec<u8> = Vec::new();
    let mut i: usize = 0;
    while i < 33
        invariant
            i <= 33,
            prefix@ == HTTP_OK_CONTENT_LENGTH@,
            out@ == prefix@.take(i as int),
        decreases 33 - i,
    {
        out.push(prefix[i]);
        i = i + 1;
        assert(out@ =~= prefix@.take(i as int));
    }
    assert(prefix@.take(33) =~= prefix@);
    append_decimal(&mut out, content_length);
    let ghost head = out@;
    let mut j: usize = 0;
    while j < 4
        invariant
            j <= 4,
            end@ == HEADER_END@,
            out@ == head + end@.take(j as int),
        decreases 4 - j,
    {
        out.push(end[j]);
        j = j + 1;
        assert(out@ =~= head + end@.take(j as int));
    }
    assert(end@.take(4) =~= end@);
    assert(out@ =~= spec_http_ok_header(content_length as nat));
    out
}

/// The header announces exactly the body's length: it is the fixed
/// `HTTP/1.1 200 OK\r\nContent-Length: ` line start, then one or more
/// decimal digits without a leading zero that denote `content_length`, then
/// the fixed `\r\n\r\n`.
pub proof fn lemma_http_header_announces_length(content_length: nat)
    ensures
        spec_http_ok_header(content_length).len() > 33 + 4,
        spec_http_ok_header(content_length).take(33) == HTTP_OK_CONTENT_LENGTH@,
        spec_http_ok_header(content_length).skip(spec_http_ok_header(content_length).len() - 4)
            == HEADER_END@,
        all_digits(
            ascii_chars(
                spec_http_ok_header(content_length).subrange(
                    33,
                    spec_http_ok_header(content_length).len() - 4,
                ),
            ),
        ),
        digits_value(
            ascii_chars(
                spec_http_ok_header(content_length).subrange(
                    33,
                    spec_http_ok_header(content_length).len() - 4,
                ),
            ),
        ) == content_length,
        spec_http_ok_header(content_length)[33] != 48u8 || content_length == 0,
        HTTP_OK_CONTENT_LENGTH@ == seq![
            72u8, 84u8, 84u8, 80u8, 47u8, 49u8, 46u8, 49u8, 32u8, 50u8, 48u8, 48u8, 32u8, 79u8,
            75u8, 13u8, 10u8, 67u8, 111u8, 110u8, 116u8, 101u8, 110u8, 116u8, 45u8, 76u8, 101u8,
            110u8, 103u8, 116u8, 104u8, 58u8, 32u8,
        ],
        HEADER_END@ == seq![13u8, 10u8, 13u8, 10u8],
{
    let h = spec_http_ok_header(content_length);
    let d = decimal_bytes(content_length);
    lemma_decimal_digits_value(content_length);
    assert(HTTP_OK_CONTENT_LENGTH@ =~= seq![
        72u8, 84u8, 84u8, 80u8, 47u8, 49u8, 46u8, 49u8, 32u8, 50u8, 48u8, 48u8, 32u8, 79u8,
        75u8, 13u8, 10u8, 67u8, 111u8, 110u8, 116u8, 101u8, 110u8, 116u8, 45u8, 76u8, 101u8,
        110u8, 103u8, 116u8, 104u8, 58u8, 32u8,
    ]);
    assert(HEADER_END@ =~= seq![13u8, 10u8, 13u8, 10u8]);
    assert(HTTP_OK_CONTENT_LENGTH@.len() == 33);
    assert(HEADER_END@.len() == 4);
    assert(h.take(33) =~= HTTP_OK_CONTENT_LENGTH@);
    assert(h.skip(h.len() - 4) =~= HEADER_END@);
    assert(h.subrange(33, h.len() - 4) =~= d);
    assert(h[33] == d[0]);
}

} // verus!
