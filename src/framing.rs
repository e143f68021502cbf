//! The wire framing: a block of `name: value` header lines, each ended by CRLF,
//! closed by an empty line, then exactly `Content-Length` bytes of UTF-8 text.
use vstd::prelude::*;
use vstd::slice::slice_subrange;
use vstd::utf8::{decode_utf8, encode_utf8, valid_utf8};

verus! {

broadcast use {vstd::utf8::encode_utf8_valid_utf8, vstd::utf8::encode_utf8_decode_utf8};

/// Why a frame could not be read.
#[derive(Debug, Clone, Copy, PartialEq, Eq, Structural)]
pub enum FramingError {
    /// A header line without a trailing CRLF, or without `": "` in it.
    MalformedHeader,
    /// A `Content-Length` value that is not a non-negative integer that fits a `usize`.
    InvalidContentLength,
    /// The header block ended without a `Content-Length` header.
    MissingContentLength,
    /// The stream ended before `Content-Length` bytes of body were read.
    TruncatedBody,
    /// The body is not valid UTF-8.
    InvalidUtf8,
}

/// What one header line does to the header block being read.
#[derive(Debug, Clone, Copy, PartialEq, Eq, Structural)]
pub enum HeaderStep {
    /// A header: more lines follow. Carries the content length known so far.
    More(Option<usize>),
    /// The empty line: the block is over. Carries the content length found.
    End(Option<usize>),
}

pub open spec fn is_digit(b: u8) -> bool {
    48 <= b <= 57
}

/// The bytes of `Content-Length`.
pub open spec fn content_length_name() -> Seq<u8> {
    seq![67u8, 111u8, 110u8, 116u8, 101u8, 110u8, 116u8, 45u8, 76u8, 101u8, 110u8, 103u8, 116u8, 104u8]
}

/// Index just past the first line feed at or after `pos`; the end of `s` if there is none.
pub open spec fn line_end(s: Seq<u8>, pos: int) -> int
    decreases s.len() - pos,
{
    if pos < 0 || pos >= s.len() {
        s.len() as int
    } else if s[pos] == 10u8 {
        pos + 1
    } else {
        line_end(s, pos + 1)
    }
}

/// Index of the first `": "` in `c` at or after `k`.
pub open spec fn separator_at(c: Seq<u8>, k: int) -> Option<int>
    decreases c.len() - k,
{
    if k < 0 || k + 1 >= c.len() {
        None
    } else if c[k] == 58u8 && c[k + 1] == 32u8 {
        Some(k)
    } else {
        separator_at(c, k + 1)
    }
}

/// The value of a string of decimal digits.
pub open spec fn digits_value(s: Seq<u8>) -> nat
    decreases s.len(),
{
    if s.len() == 0 {
        0
    } else {
        digits_value(s.drop_last()) * 10 + (s.last() - 48) as nat
    }
}

/// The digits of an unsigned integer text, after an optional leading `+`.
pub open spec fn unsigned_digits(v: Seq<u8>) -> Seq<u8> {
    if v.len() > 0 && v[0] == 43u8 {
        v.drop_first()
    } else {
        v
    }
}

/// A `usize` read from text: an optional `+`, one or more decimal digits, and a
/// value that fits.
pub open spec fn parse_usize(v: Seq<u8>) -> Option<usize> {
    let d = unsigned_digits(v);
    if d.len() > 0 && (forall|i: int| 0 <= i < d.len() ==> is_digit(#[trigger] d[i]))
        && digits_value(d) <= usize::MAX {
        Some(digits_value(d) as usize)
    } else {
        None
    }
}

/// What one line of the header block means, given the content length seen so far.
pub open spec fn header_step(line: Seq<u8>, size: Option<usize>) -> Result<HeaderStep, FramingError> {
    if line.len() < 2 || line[line.len() - 2] != 13u8 || line[line.len() - 1] != 10u8 {
        Err(FramingError::MalformedHeader)
    } else {
        let content = line.subrange(0, line.len() - 2);
        if content.len() == 0 {
            Ok(HeaderStep::End(size))
        } else {
            match separator_at(content, 0) {
                None => Err(FramingError::MalformedHeader),
                Some(k) => if content.subrange(0, k) == content_length_name() {
                    match parse_usize(content.subrange(k + 2, content.len() as int)) {
                        Some(n) => Ok(HeaderStep::More(Some(n))),
                        None => Err(FramingError::InvalidContentLength),
                    }
                } else {
                    Ok(HeaderStep::More(size))
                },
            }
        }
    }
}

/// Where reading the header block from `pos` on leads.
pub enum HeaderScan {
    /// The stream ended where a line should have begun.
    Eof,
    Failed(FramingError),
    /// The block ended; the body starts at the given index.
    Body(int, Option<usize>),
}

pub open spec fn scan_headers(s: Seq<u8>, pos: int, size: Option<usize>) -> HeaderScan
    decreases s.len() - pos,
{
    if pos < 0 || pos >= s.len() {
        HeaderScan::Eof
    } else {
        let end = line_end(s, pos);
        if end <= pos || end > s.len() {
            HeaderScan::Eof
        } else {
            match header_step(s.subrange(pos, end), size) {
                Err(e) => HeaderScan::Failed(e),
                Ok(HeaderStep::End(sz)) => HeaderScan::Body(end, sz),
                Ok(HeaderStep::More(sz)) => scan_headers(s, end, sz),
            }
        }
    }
}

/// The first frame of `s`: `Ok(None)` where the stream is over before a header
/// line begins, else the body text and the number of bytes the frame took.
pub open spec fn frame_text(s: Seq<u8>) -> Result<Option<(Seq<char>, int)>, FramingError> {
    match scan_headers(s, 0, None) {
        HeaderScan::Eof => Ok(None),
        HeaderScan::Failed(e) => Err(e),
        HeaderScan::Body(_, None) => Err(FramingError::MissingContentLength),
        HeaderScan::Body(start, Some(n)) => if start + n > s.len() {
            Err(FramingError::TruncatedBody)
        } else {
            let body = s.subrange(start, start + n);
            if valid_utf8(body) {
                Ok(Some((decode_utf8(body), start + n)))
            } else {
                Err(FramingError::InvalidUtf8)
            }
        },
    }
}

pub open spec fn digit_byte(d: nat) -> u8 {
    (d + 48) as u8
}

/// Decimal digits of `n`, most significant first, without leading zeros.
pub open spec fn decimal_bytes(n: nat) -> Seq<u8>
    decreases n,
{
    if n < 10 {
        seq![digit_byte(n)]
    } else {
        decimal_bytes(n / 10).push(digit_byte(n % 10))
    }
}

/// The frame that carries `body`.
pub open spec fn frame_of(body: Seq<char>) -> Seq<u8> {
    content_length_name() + seq![58u8, 32u8] + decimal_bytes(encode_utf8(body).len())
        + seq![13u8, 10u8, 13u8, 10u8] + encode_utf8(body)
}

proof fn lemma_line_end_bounds(s: Seq<u8>, pos: int)
    requires
        0 <= pos < s.len(),
    ensures
        pos < line_end(s, pos) <= s.len(),
        forall|i: int| pos <= i < line_end(s, pos) - 1 ==> s[i] != 10u8,
        line_end(s, pos) < s.len() ==> s[line_end(s, pos) - 1] == 10u8,
    decreases s.len() - pos,
{
    if s[pos] != 10u8 {
        if pos + 1 < s.len() {
            lemma_line_end_bounds(s, pos + 1);
            assert(line_end(s, pos) == line_end(s, pos + 1));
        } else {
            assert(line_end(s, pos + 1) == s.len());
        }
    }
}

fn find_line_end(s: &[u8], pos: usize) -> (r: usize)
    requires
        pos < s@.len(),
    ensures
        r as int == line_end(s@, pos as int),
{
    let mut i: usize = pos;
    while i < s.len() && s[i] != 10u8
        invariant
            pos <= i <= s@.len(),
            line_end(s@, pos as int) == line_end(s@, i as int),
        decreases s@.len() - i,
    {
        i = i + 1;
    }
    if i < s.len() {
        i + 1
    } else {
        i
    }
}

fn find_separator(c: &[u8]) -> (r: Option<usize>)
    ensures
        r matches Some(k) ==> separator_at(c@, 0) == Some(k as int) && k + 1 < c@.len(),
        r is None ==> separator_at(c@, 0) is None,
{
    let mut k: usize = 0;
    while k < c.len() && c.len() - k > 1
        invariant
            k <= c@.len(),
            separator_at(c@, 0) == separator_at(c@, k as int),
        decreases c@.len() - k,
    {
        if c[k] == 58u8 && c[k + 1] == 32u8 {
            return Some(k);
        }
        k = k + 1;
    }
    None
}

fn is_content_length_name(name: &[u8]) -> (r: bool)
    ensures
        r == (name@ == content_length_name()),
{
    let ok = name.len() == 14 && name[0] == 67u8 && name[1] == 111u8 && name[2] == 110u8
        && name[3] == 116u8 && name[4] == 101u8 && name[5] == 110u8 && name[6] == 116u8
        && name[7] == 45u8 && name[8] == 76u8 && name[9] == 101u8 && name[10] == 110u8
        && name[11] == 103u8 && name[12] == 116u8 && name[13] == 104u8;
    if ok {
        assert(name@ =~= content_length_name());
    } else {
        assert(name@ != content_length_name() ) by {
            if name@ == content_length_name() {
                assert(name@.len() == 14);
            }
        }
    }
    ok
}

/// Reads a `usize` the way `usize::from_str` does: an optional `+`, then one or
/// more decimal digits whose value fits.
pub fn parse_content_length(v: &[u8]) -> (r: Option<usize>)
    ensures
        r == parse_usize(v@),
{
    let start: usize = if v.len() > 0 && v[0] == 43u8 {
        1
    } else {
        0
    };
    let ghost d = unsigned_digits(v@);
    assert(d =~= v@.subrange(start as int, v@.len() as int));
    if start >= v.len() {
        return None;
    }
    let mut value: usize = 0;
    let mut i: usize = start;
    while i < v.len()
        invariant
            start < v@.len(),
            start <= i <= v@.len(),
            d == unsigned_digits(v@),
            d =~= v@.subrange(start as int, v@.len() as int),
            forall|j: int| 0 <= j < i - start ==> is_digit(#[trigger] d[j]),
            value as nat == digits_value(d.subrange(0, i - start)),
        decreases v@.len() - i,
    {
        let b = v[i];
        assert(d[i - start] == b);
        if b < 48u8 || b > 57u8 {
            assert(!is_digit(d[i - start]));
            assert(!(forall|j: int| 0 <= j < d.len() ==> is_digit(#[trigger] d[j])));
            return None;
        }
        let ghost prefix = d.subrange(0, i - start + 1);
        assert(prefix.drop_last() =~= d.subrange(0, i - start));
        assert(digits_value(prefix) == value * 10 + (b - 48) as nat);
        let next = match value.checked_mul(10) {
            None => None,
            Some(m) => m.checked_add((b - 48u8) as usize),
        };
        match next {
            None => {
                proof {
                    assert(digits_value(prefix) > usize::MAX);
                    if forall|j: int| 0 <= j < d.len() ==> is_digit(#[trigger] d[j]) {
                        lemma_digits_value_prefix_bound(d, i - start + 1);
                        assert(digits_value(d) > usize::MAX);
                    }
                }
                return None;
            },
            Some(t) => {
                value = t;
            },
        }
        i = i + 1;
    }
    assert(d.subrange(0, d.len() as int) =~= d);
    Some(value)
}

/// A longer prefix of digits is worth at least as much as a shorter one.
proof fn lemma_digits_value_prefix_bound(d: Seq<u8>, k: int)
    requires
        0 <= k <= d.len(),
        forall|j: int| 0 <= j < d.len() ==> is_digit(#[trigger] d[j]),
    ensures
        digits_value(d.subrange(0, k)) <= digits_value(d),
    decreases d.len() - k,
{
    if k < d.len() {
        lemma_digits_value_prefix_bound(d, k + 1);
        assert(d.subrange(0, k + 1).drop_last() =~= d.subrange(0, k));
    } else {
        assert(d.subrange(0, k) =~= d);
    }
}

/// Reads one header line, its CRLF included, given the content length seen so far.
pub fn parse_header_line(line: &[u8], size: Option<usize>) -> (r: Result<HeaderStep, FramingError>)
    ensures
        r == header_step(line@, size),
{
    let n = line.len();
    if n < 2 || line[n - 2] != 13u8 || line[n - 1] != 10u8 {
        return Err(FramingError::MalformedHeader);
    }
    let content = slice_subrange(line, 0, n - 2);
    if content.len() == 0 {
        return Ok(HeaderStep::End(size));
    }
    match find_separator(content) {
        None => Err(FramingError::MalformedHeader),
        Some(k) => {
            let name = slice_subrange(content, 0, k);
            if is_content_length_name(name) {
                let value = slice_subrange(content, k + 2, content.len());
                match parse_content_length(value) {
                    Some(v) => Ok(HeaderStep::More(Some(v))),
                    None => Err(FramingError::InvalidContentLength),
                }
            } else {
                Ok(HeaderStep::More(size))
            }
        },
    }
}

/// Relies on `std::str::from_utf8`: it succeeds exactly on valid UTF-8 and then
/// yields the characters that the bytes encode.
#[verifier::external_body]
fn utf8_text(bytes: &[u8]) -> (r: Option<&str>)
    ensures
        r is Some <==> valid_utf8(bytes@),
        r matches Some(s) ==> s@ == decode_utf8(bytes@),
{
    std::str::from_utf8(bytes).ok()
}

/// Turns a frame's body into text.
pub fn body_text(bytes: &[u8]) -> (r: Result<String, FramingError>)
    ensures
        r matches Ok(s) ==> valid_utf8(bytes@) && s@ == decode_utf8(bytes@),
        r is Err ==> !valid_utf8(bytes@) && r == Err::<String, FramingError>(FramingError::InvalidUtf8),
{
    match utf8_text(bytes) {
        Some(s) => Ok(String::from_str(s)),
        None => Err(FramingError::InvalidUtf8),
    }
}

/// Reads the first frame of `input`. Returns `Ok(None)` where the input is over
/// before a header line begins (the peer closed the stream); else the body text
/// and the number of bytes the frame took.
pub fn read_msg_text(input: &[u8]) -> (r: Result<Option<(String, usize)>, FramingError>)
    ensures
        match frame_text(input@) {
            Ok(None) => r matches Ok(None),
            Ok(Some((text, used))) => r matches Ok(Some((t, u))) && t@ == text && u == used,
            Err(e) => r == Err::<Option<(String, usize)>, FramingError>(e),
        },
{
    let mut pos: usize = 0;
    let mut size: Option<usize> = None;
    let mut start: usize = 0;
    loop
        invariant_except_break
            pos <= input@.len(),
            scan_headers(input@, 0, None) == scan_headers(input@, pos as int, size),
        ensures
            start <= input@.len(),
            scan_headers(input@, 0, None) == HeaderScan::Body(start as int, size),
        decreases input@.len() - pos,
    {
        if pos >= input.len() {
            return Ok(None);
        }
        let end = find_line_end(input, pos);
        proof {
            lemma_line_end_bounds(input@, pos as int);
        }
        let line = slice_subrange(input, pos, end);
        match parse_header_line(line, size) {
            Err(e) => {
                return Err(e);
            },
            Ok(HeaderStep::End(sz)) => {
                start = end;
                size = sz;
                break ;
            },
            Ok(HeaderStep::More(sz)) => {
                pos = end;
                size = sz;
            },
        }
    }
    let n = match size {
        None => {
            return Err(FramingError::MissingContentLength);
        },
        Some(n) => n,
    };
    if n > input.len() - start {
        return Err(FramingError::TruncatedBody);
    }
    let body = slice_subrange(input, start, start + n);
    match body_text(body) {
        Ok(text) => Ok(Some((text, start + n))),
        Err(e) => Err(e),
    }
}

fn push_decimal(out: &mut Vec<u8>, n: usize)
    ensures
        final(out)@ == old(out)@ + decimal_bytes(n as nat),
    decreases n,
{
    if n >= 10 {
        push_decimal(out, n / 10);
    }
    out.push(((n % 10) as u8) + 48u8);
    proof {
        if n >= 10 {
            assert(final(out)@ =~= old(out)@ + decimal_bytes(n as nat));
        } else {
            assert(final(out)@ =~= old(out)@ + decimal_bytes(n as nat));
        }
    }
}

/// Frames a message body for the wire: `Content-Length: <N>\r\n\r\n` and then
/// the body's `N` UTF-8 bytes.
pub fn frame_message_text(body: &str) -> (r: Vec<u8>)
    ensures
        r@ == frame_of(body@),
{
    let bytes = body.as_bytes();
    let mut out: Vec<u8> = Vec::new();
    out.push(67u8);
    out.push(111u8);
    out.push(110u8);
    out.push(116u8);
    out.push(101u8);
    out.push(110u8);
    out.push(116u8);
    out.push(45u8);
    out.push(76u8);
    out.push(101u8);
    out.push(110u8);
    out.push(103u8);
    out.push(116u8);
    out.push(104u8);
    out.push(58u8);
    out.push(32u8);
    assert(out@ =~= content_length_name() + seq![58u8, 32u8]);
    push_decimal(&mut out, bytes.len());
    out.push(13u8);
    out.push(10u8);
    out.push(13u8);
    out.push(10u8);
    let ghost head = out@;
    assert(head =~= content_length_name() + seq![58u8, 32u8] + decimal_bytes(encode_utf8(body@).len())
        + seq![13u8, 10u8, 13u8, 10u8]);
    let mut i: usize = 0;
    while i < bytes.len()
        invariant
            i <= bytes@.len(),
            out@ =~= head + bytes@.subrange(0, i as int),
        decreases bytes@.len() - i,
    {
        out.push(bytes[i]);
        i = i + 1;
    }
    assert(bytes@.subrange(0, bytes@.len() as int) =~= bytes@);
    out
}

proof fn lemma_line_end_at(s: Seq<u8>, pos: int, e: int)
    requires
        0 <= pos < e <= s.len(),
        forall|i: int| pos <= i < e - 1 ==> s[i] != 10u8,
        s[e - 1] == 10u8,
    ensures
        line_end(s, pos) == e,
    decreases e - pos,
{
    if pos < e - 1 {
        lemma_line_end_at(s, pos + 1, e);
    }
}

proof fn lemma_separator_at(c: Seq<u8>, k: int, m: int)
    requires
        0 <= k <= m,
        m + 1 < c.len(),
        c[m] == 58u8,
        c[m + 1] == 32u8,
        forall|j: int| k <= j < m ==> c[j] != 58u8,
    ensures
        separator_at(c, k) == Some(m),
    decreases m - k,
{
    if k < m {
        lemma_separator_at(c, k + 1, m);
    }
}

proof fn lemma_decimal_bytes(n: nat)
    ensures
        decimal_bytes(n).len() >= 1,
        forall|i: int| 0 <= i < decimal_bytes(n).len() ==> is_digit(#[trigger] decimal_bytes(n)[i]),
        digits_value(decimal_bytes(n)) == n,
    decreases n,
{
    if n < 10 {
        let d = decimal_bytes(n);
        assert(d.drop_last() =~= Seq::<u8>::empty());
        assert(digits_value(d.drop_last()) == 0);
        assert(digits_value(d) == digits_value(d.drop_last()) * 10 + (d.last() - 48) as nat);
    } else {
        lemma_decimal_bytes(n / 10);
        let d = decimal_bytes(n);
        assert(d.drop_last() =~= decimal_bytes(n / 10));
        assert(d.last() == digit_byte(n % 10));
        assert((d.last() - 48) as nat == n % 10);
        assert((n / 10) * 10 + n % 10 == n);
        assert(digits_value(d) == digits_value(d.drop_last()) * 10 + (d.last() - 48) as nat);
        assert forall|i: int| 0 <= i < d.len() implies is_digit(#[trigger] d[i]) by {
            if i < d.len() - 1 {
                assert(d[i] == decimal_bytes(n / 10)[i]);
            }
        }
    }
}

/// Reading what was framed gives back the body, and exactly the frame's bytes
/// are used, whatever follows the frame on the stream.
pub proof fn lemma_frame_round_trip(body: Seq<char>, rest: Seq<u8>)
    requires
        encode_utf8(body).len() <= usize::MAX,
    ensures
        frame_text(frame_of(body) + rest) == Ok::<Option<(Seq<char>, int)>, FramingError>(
            Some((body, frame_of(body).len() as int)),
        ),
{
    let bytes = encode_utf8(body);
    let n: nat = bytes.len();
    let d = decimal_bytes(n);
    lemma_decimal_bytes(n);
    let s = frame_of(body) + rest;
    let e1: int = d.len() as int + 18;
    let e2: int = e1 + 2;
    assert(s[e1 - 1] == 10u8);
    assert forall|i: int| 0 <= i < e1 - 1 implies s[i] != 10u8 by {
        if 16 <= i < 16 + d.len() {
            assert(s[i] == d[i - 16]);
        }
    }
    lemma_line_end_at(s, 0, e1);
    let line1 = s.subrange(0, e1);
    let content = line1.subrange(0, line1.len() - 2);
    assert(content =~= content_length_name() + seq![58u8, 32u8] + d);
    lemma_separator_at(content, 0, 14);
    assert(content.subrange(0, 14) =~= content_length_name());
    assert(content.subrange(16, content.len() as int) =~= d);
    assert(unsigned_digits(d) == d);
    assert(header_step(line1, None) == Ok::<HeaderStep, FramingError>(HeaderStep::More(Some(n as usize))));
    lemma_line_end_at(s, e1, e2);
    let line2 = s.subrange(e1, e2);
    assert(line2 =~= seq![13u8, 10u8]);
    assert(line2.subrange(0, 0).len() == 0);
    assert(header_step(line2, Some(n as usize)) == Ok::<HeaderStep, FramingError>(HeaderStep::End(Some(n as usize))));
    assert(scan_headers(s, e1, Some(n as usize)) == HeaderScan::Body(e2, Some(n as usize)));
    assert(scan_headers(s, 0, None) == HeaderScan::Body(e2, Some(n as usize)));
    assert(frame_of(body).len() == e2 + n);
    assert(s.subrange(e2, e2 + n) =~= bytes);
}

} // verus!
