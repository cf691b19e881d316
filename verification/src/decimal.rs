//! Decimal text: formatting unsigned integers as ASCII digits, and reading a
//! `u16` back the way `str::parse::<u16>` does (optionally after
//! `str::trim_end`), as the servers do with
//! `/proc/sys/net/ipv4/tcp_max_syn_backlog`.
use vstd::prelude::*;

verus! {

/// The ASCII decimal digits of `n`, most significant first, with no leading
/// zeros (`0` is `"0"`).
pub open spec fn decimal_bytes(n: nat) -> Seq<u8>
    decreases n,
{
    if n < 10 {
        seq![(48 + n) as u8]
    } else {
        decimal_bytes(n / 10).push((48 + n % 10) as u8)
    }
}

/// The characters of an ASCII byte string.
pub open spec fn ascii_chars(bytes: Seq<u8>) -> Seq<char> {
    bytes.map_values(|b: u8| b as char)
}

/// Appends the decimal digits of `n` to `out`.
fn push_decimal(out: &mut Vec<u8>, n: u64)
    ensures
        final(out)@ == old(out)@ + decimal_bytes(n as nat),
    decreases n,
{
    if n >= 10 {
        push_decimal(out, n / 10);
    }
    let digit: u8 = (n % 10) as u8;
    out.push(48u8 + digit);
    proof {
        if n >= 10 {
            assert(decimal_bytes(n as nat) == decimal_bytes((n / 10) as nat).push(
                (48 + n % 10) as u8,
            ));
        }
    }
    assert(final(out)@ =~= old(out)@ + decimal_bytes(n as nat));
}

/// Appends the decimal digits of `n` to `out`, as `write!(out, "{}", n)` would.
pub fn append_decimal(out: &mut Vec<u8>, n: u64)
    ensures
        final(out)@ == old(out)@ + decimal_bytes(n as nat),
{
    push_decimal(out, n);
}

/// The decimal digits of `n`, as `n.to_string()` would give them.
pub fn format_decimal(n: u64) -> (r: Vec<u8>)
    ensures
        r@ == decimal_bytes(n as nat),
{
    let mut out = Vec::new();
    push_decimal(&mut out, n);
    assert(out@ =~= decimal_bytes(n as nat));
    out
}

/// `char::is_whitespace`: the characters with the Unicode `White_Space`
/// property.
pub open spec fn is_whitespace(c: char) -> bool {
    let u = c as u32;
    ||| 0x09 <= u <= 0x0d
    ||| u == 0x20
    ||| u == 0x85
    ||| u == 0xa0
    ||| u == 0x1680
    ||| 0x2000 <= u <= 0x200a
    ||| u == 0x2028
    ||| u == 0x2029
    ||| u == 0x202f
    ||| u == 0x205f
    ||| u == 0x3000
}

/// `str::trim_end`: `s` without its trailing whitespace.
pub open spec fn trim_end(s: Seq<char>) -> Seq<char>
    decreases s.len(),
{
    if s.len() > 0 && is_whitespace(s.last()) {
        trim_end(s.drop_last())
    } else {
        s
    }
}

/// An ASCII decimal digit.
pub open spec fn is_digit(c: char) -> bool {
    '0' as u32 <= c as u32 <= '9' as u32
}

/// Every character of `s` is an ASCII decimal digit.
pub open spec fn all_digits(s: Seq<char>) -> bool {
    forall|i: int| 0 <= i < s.len() ==> #[trigger] is_digit(s[i])
}

/// The number that a string of decimal digits denotes.
pub open spec fn digits_value(s: Seq<char>) -> nat
    decreases s.len(),
{
    if s.len() == 0 {
        0
    } else {
        digits_value(s.drop_last()) * 10 + (s.last() as u32 - '0' as u32) as nat
    }
}

/// The digits that `str::parse::<u16>` reads: `s` without one leading `+`.
pub open spec fn unsigned_digits(s: Seq<char>) -> Seq<char> {
    if s.len() > 0 && s[0] == '+' {
        s.drop_first()
    } else {
        s
    }
}

/// `str::parse::<u16>`: an optional `+`, then one or more ASCII digits whose
/// value fits in a `u16`; anything else (empty text, a lone sign, a `-`,
/// whitespace, other characters, overflow) is an error.
pub open spec fn spec_parse_u16(s: Seq<char>) -> Option<u16> {
    let d = unsigned_digits(s);
    if d.len() > 0 && all_digits(d) && digits_value(d) <= u16::MAX {
        Some(digits_value(d) as u16)
    } else {
        None
    }
}

/// The characters of `text`, in order.
fn chars_of(text: &str) -> (r: Vec<char>)
    ensures
        r@ == text@,
{
    let mut out: Vec<char> = Vec::new();
    for c in it: text.chars()
        invariant
            out@ == it.seq().take(it.index() as int),
            it.seq() == text@,
    {
        out.push(c);
    }
    out
}

/// A prefix of an all-digit string never denotes more than the whole string.
proof fn lemma_digits_prefix_le(s: Seq<char>, k: int)
    requires
        0 <= k <= s.len(),
    ensures
        digits_value(s.take(k)) <= digits_value(s),
    decreases s.len(),
{
    if k < s.len() {
        lemma_digits_prefix_le(s.drop_last(), k);
        assert(s.drop_last().take(k) =~= s.take(k));
    } else {
        assert(s.take(k) =~= s);
    }
}

/// Extending an all-digit run by one more digit multiplies its value by ten
/// and adds the digit.
proof fn lemma_extend_digits(v: Seq<char>, start: int, i: int)
    requires
        0 <= start <= i < v.len(),
        all_digits(v.subrange(start, i)),
        is_digit(v[i]),
    ensures
        all_digits(v.subrange(start, i + 1)),
        digits_value(v.subrange(start, i + 1)) == digits_value(v.subrange(start, i)) * 10 + (
        v[i] as u32 - '0' as u32) as nat,
{
    let prefix = v.subrange(start, i);
    let next = v.subrange(start, i + 1);
    assert(next.drop_last() =~= prefix);
    assert(next.last() == v[i]);
    assert forall|j: int| 0 <= j < next.len() implies #[trigger] is_digit(next[j]) by {
        if j < prefix.len() {
            assert(next[j] == prefix[j]);
        }
    }
}

/// Reads the first `end` characters of `v` as `str::parse::<u16>` would.
fn parse_u16_prefix(v: &Vec<char>, end: usize) -> (r: Option<u16>)
    requires
        end <= v.len(),
    ensures
        r == spec_parse_u16(v@.take(end as int)),
{
    let ghost s = v@.take(end as int);
    let ghost d = unsigned_digits(s);
    let start: usize = if end > 0 && v[0] == '+' {
        1
    } else {
        0
    };
    assert(d =~= v@.subrange(start as int, end as int));
    if start == end {
        return None;
    }
    let mut acc: u32 = 0;
    let mut i: usize = start;
    while i < end
        invariant
            start <= i <= end <= v.len(),
            d == v@.subrange(start as int, end as int),
            d == unsigned_digits(v@.take(end as int)),
            all_digits(v@.subrange(start as int, i as int)),
            acc as nat == digits_value(v@.subrange(start as int, i as int)),
            acc <= u16::MAX,
        decreases end - i,
    {
        let c = v[i];
        let code = c as u32;
        if code < 48 || code > 57 {
            assert(d[i - start] == c);
            assert(!is_digit(d[i - start]));
            return None;
        }
        proof {
            lemma_extend_digits(v@, start as int, i as int);
        }
        acc = acc * 10 + (code - 48);
        if acc > 65535 {
            proof {
                assert(d.take(i + 1 - start) =~= v@.subrange(start as int, i + 1));
                lemma_digits_prefix_le(d, i + 1 - start);
            }
            return None;
        }
        i = i + 1;
    }
    Some(acc as u16)
}

/// `text.parse::<u16>()`, with `None` for every error.
pub fn parse_u16(text: &str) -> (r: Option<u16>)
    ensures
        r == spec_parse_u16(text@),
{
    let v = chars_of(text);
    assert(v@.take(v.len() as int) =~= v@);
    parse_u16_prefix(&v, v.len())
}

/// `text.trim_end().parse::<u16>()`, with `None` for every error: how the
/// servers read the SYN backlog limit out of
/// `/proc/sys/net/ipv4/tcp_max_syn_backlog`.
pub fn listen_backlog(text: &str) -> (r: Option<u16>)
    ensures
        r == spec_parse_u16(trim_end(text@)),
{
    let v = chars_of(text);
    let mut end: usize = v.len();
    assert(v@.take(end as int) =~= v@);
    while end > 0 && is_whitespace_char(v[end - 1])
        invariant
            end <= v.len(),
            trim_end(v@.take(end as int)) == trim_end(v@),
        decreases end,
    {
        assert(v@.take(end as int).drop_last() =~= v@.take(end - 1));
        end = end - 1;
    }
    proof {
        let t = v@.take(end as int);
        if end > 0 {
            assert(t.last() == v@[end - 1]);
        }
        assert(trim_end(t) == t);
    }
    parse_u16_prefix(&v, end)
}

/// `char::is_whitespace`.
pub fn is_whitespace_char(c: char) -> (r: bool)
    ensures
        r == is_whitespace(c),
{
    let u = c as u32;
    (0x09 <= u && u <= 0x0d) || u == 0x20 || u == 0x85 || u == 0xa0 || u == 0x1680 || (0x2000 <= u
        && u <= 0x200a) || u == 0x2028 || u == 0x2029 || u == 0x202f || u == 0x205f || u == 0x3000
}

/// The decimal digits of `n` are all digits and denote `n`.
/// The decimal text of `n` is one or more digits, without a leading zero
/// (unless `n` is 0), that denote `n`.
pub proof fn lemma_decimal_digits_value(n: nat)
    ensures
        all_digits(ascii_chars(decimal_bytes(n))),
        digits_value(ascii_chars(decimal_bytes(n))) == n,
        decimal_bytes(n).len() > 0,
        ascii_chars(decimal_bytes(n))[0] != '+',
        decimal_bytes(n)[0] != 48u8 || n == 0,
    decreases n,
{
    let s = ascii_chars(decimal_bytes(n));
    if n < 10 {
        assert(s.len() == 1);
        assert(s[0] == ((48 + n) as u8) as char);
        assert((((48 + n) as u8) as char) as u32 == 48 + n);
        assert(s.drop_last() =~= Seq::<char>::empty());
        assert(digits_value(s.drop_last()) == 0);
        assert(s.last() == s[0]);
    } else {
        lemma_decimal_digits_value(n / 10);
        let p = ascii_chars(decimal_bytes(n / 10));
        assert(s.drop_last() =~= p);
        assert(s.last() == ((48 + n % 10) as u8) as char);
        assert((((48 + n % 10) as u8) as char) as u32 == 48 + n % 10);
        assert(digits_value(s) == digits_value(p) * 10 + n % 10);
        assert(n == (n / 10) * 10 + n % 10);
        assert forall|i: int| 0 <= i < s.len() implies #[trigger] is_digit(s[i]) by {
            if i < p.len() {
                assert(s[i] == p[i]);
            }
        }
        assert(s[0] == p[0]);
        assert(decimal_bytes(n)[0] == decimal_bytes(n / 10)[0]);
    }
}

/// Reading back what `format_decimal` writes gives the number again:
/// `x.to_string().parse::<u16>() == Ok(x)`, also with the trailing newline
/// that a file under `/proc` ends with, once `trim_end` has removed it.
pub proof fn lemma_parse_format_roundtrip(x: u16)
    ensures
        spec_parse_u16(ascii_chars(decimal_bytes(x as nat))) == Some(x),
        spec_parse_u16(trim_end(ascii_chars(decimal_bytes(x as nat)).push('\n'))) == Some(x),
{
    let s = ascii_chars(decimal_bytes(x as nat));
    lemma_decimal_digits_value(x as nat);
    assert(unsigned_digits(s) == s);
    let t = s.push('\n');
    assert(t.drop_last() =~= s);
    assert(is_whitespace(t.last()));
    assert(!is_whitespace(s.last())) by {
        assert(is_digit(s[s.len() - 1]));
    }
    assert(trim_end(t) == trim_end(s));
}

} // verus!
