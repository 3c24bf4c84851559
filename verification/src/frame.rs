//! `Content-Length` framing of the worker protocol.
//!
//! A frame is a block of header lines ended by an empty line, followed by
//! exactly as many payload bytes as its `Content-Length` header announces.
use vstd::prelude::*;
use vstd::utf8::*;

use crate::text::{
    push_decimal, digit_char, is_ascii_digit, digit_value, trim_start_ws, trim_end_ws, is_white_space,
    index_of_from, ascii_lower,
    eq_ignore_ascii_case, parse_usize, split_at_colon, trim, trim_line_end, utf8_text,
    ascii_bytes, decimal_digits, decimal_value, eq_ignore_ascii_case_spec, parses_as_usize,
    split_once_spec, trim_end_crlf, trim_ws, unsigned_digits,
};
use crate::transport::TransportError;

verus! {

broadcast use vstd::seq_lib::group_seq_properties;

/// The end (exclusive) of the line that starts at `i`: just past its `\n`,
/// or the end of the input when the line is not terminated.
pub open spec fn line_end(s: Seq<u8>, i: int) -> int
    decreases s.len() - i,
{
    if i >= s.len() {
        s.len() as int
    } else if s[i] == 10 {
        i + 1
    } else {
        line_end(s, i + 1)
    }
}

/// How one header line reads.
pub enum HeaderLine {
    /// The empty line that ends the header block.
    Blank,
    /// A `Content-Length` header with its value.
    ContentLength(usize),
    /// Any other line.
    Other,
    /// The line is not UTF-8 text.
    NotText,
    /// A `Content-Length` header whose value is not a `usize`.
    BadLength,
}

/// The meaning of one header line (its bytes, line terminator included).
pub open spec fn classify_header(line: Seq<u8>) -> HeaderLine {
    if !valid_utf8(line) {
        HeaderLine::NotText
    } else {
        let text = trim_end_crlf(decode_utf8(line));
        if text.len() == 0 {
            HeaderLine::Blank
        } else {
            match split_once_spec(text, ':') {
                Some((name, value)) => {
                    if eq_ignore_ascii_case_spec(name, "content-length"@) {
                        let v = trim_ws(value);
                        if parses_as_usize(v) {
                            HeaderLine::ContentLength(decimal_value(unsigned_digits(v)) as usize)
                        } else {
                            HeaderLine::BadLength
                        }
                    } else {
                        HeaderLine::Other
                    }
                },
                None => HeaderLine::Other,
            }
        }
    }
}

/// How the header block ended.
pub enum HeaderEnd {
    /// The input ended at the start of a header line.
    Eof,
    /// The empty line was reached; the last `Content-Length` seen, if any.
    Done(Option<usize>),
    NotText,
    BadLength,
}

/// Reads header lines from `p` on, `len` being the last `Content-Length` seen
/// so far; gives how the block ended and the position just after its last line.
pub open spec fn scan_headers(s: Seq<u8>, p: int, len: Option<usize>) -> (HeaderEnd, int)
    decreases s.len() - p,
{
    if p < 0 || p >= s.len() {
        (HeaderEnd::Eof, p)
    } else {
        let e = line_end(s, p);
        if e <= p || e > s.len() {
            (HeaderEnd::Eof, p)
        } else {
            match classify_header(s.subrange(p, e)) {
                HeaderLine::Blank => (HeaderEnd::Done(len), e),
                HeaderLine::ContentLength(n) => scan_headers(s, e, Some(n)),
                HeaderLine::Other => scan_headers(s, e, len),
                HeaderLine::NotText => (HeaderEnd::NotText, e),
                HeaderLine::BadLength => (HeaderEnd::BadLength, e),
            }
        }
    }
}

/// What reading one frame from the complete input `s` yields.
pub enum FrameSpec {
    /// The input ended before a frame began.
    End,
    /// A frame with this payload, `consumed` bytes long in all.
    Frame(Seq<u8>, int),
    /// A header line that is not UTF-8 text.
    NotText,
    /// A `Content-Length` value that is not a `usize`.
    BadLength,
    /// A header block without `Content-Length`.
    MissingLength,
    /// A `Content-Length` above the limit.
    TooLarge,
    /// The input ended inside the payload.
    Truncated,
}

pub open spec fn frame_spec(s: Seq<u8>, max: usize) -> FrameSpec {
    let (h, p) = scan_headers(s, 0, None);
    match h {
        HeaderEnd::Eof => FrameSpec::End,
        HeaderEnd::NotText => FrameSpec::NotText,
        HeaderEnd::BadLength => FrameSpec::BadLength,
        HeaderEnd::Done(None) => FrameSpec::MissingLength,
        HeaderEnd::Done(Some(n)) => {
            if n > max {
                FrameSpec::TooLarge
            } else if p + n <= s.len() {
                FrameSpec::Frame(s.subrange(p, p + n), p + n)
            } else {
                FrameSpec::Truncated
            }
        },
    }
}

/// How many bytes of the input one read takes: the whole frame, the header
/// lines read before an error, or everything when the input runs out.
pub open spec fn frame_consumed(s: Seq<u8>, max: usize) -> int {
    let (h, p) = scan_headers(s, 0, None);
    match frame_spec(s, max) {
        FrameSpec::Frame(_, c) => c,
        FrameSpec::End => s.len() as int,
        FrameSpec::Truncated => s.len() as int,
        _ => p,
    }
}

/// True when the outcome of reading a frame from `s` can no longer change
/// however the input continues: the header block ended with a terminated line
/// (or a terminated line was in error) and any payload is complete.
pub open spec fn frame_decided(s: Seq<u8>, max: usize) -> bool {
    let (h, p) = scan_headers(s, 0, None);
    &&& !(h is Eof)
    &&& 0 < p <= s.len()
    &&& s[p - 1] == 10
    &&& match h {
        HeaderEnd::Done(Some(n)) => n <= max ==> p + n <= s.len(),
        _ => true,
    }
}

/// The message of the error raised for a header block without length.
pub open spec fn missing_length_message() -> Seq<char> {
    "missing Content-Length"@
}

/// The executable result `r` is what a read returns for outcome `f`.
pub open spec fn frame_result_matches(
    r: Result<Option<Vec<u8>>, TransportError>,
    f: FrameSpec,
    max: usize,
) -> bool {
    match f {
        FrameSpec::End => r matches Ok(None),
        FrameSpec::Frame(payload, _) => r matches Ok(Some(v)) && v@ == payload,
        FrameSpec::NotText => r matches Err(TransportError::InvalidFrame(_)),
        FrameSpec::BadLength => r matches Err(TransportError::InvalidFrame(_)),
        FrameSpec::MissingLength => r matches Err(TransportError::InvalidFrame(m)) && m@
            == missing_length_message(),
        FrameSpec::TooLarge => r == Err::<Option<Vec<u8>>, TransportError>(
            TransportError::FrameTooLarge { limit: max },
        ),
        FrameSpec::Truncated => r == Err::<Option<Vec<u8>>, TransportError>(
            TransportError::WorkerExited,
        ),
    }
}

pub proof fn lemma_line_end(s: Seq<u8>, i: int)
    requires
        0 <= i < s.len(),
    ensures
        i < line_end(s, i) <= s.len(),
        line_end(s, i) == s.len() || s[line_end(s, i) - 1] == 10,
        s[line_end(s, i) - 1] != 10 ==> line_end(s, i) == s.len(),
        forall|j: int| i <= j < line_end(s, i) - 1 ==> s[j] != 10,
    decreases s.len() - i,
{
    if s[i] != 10 {
        if i + 1 < s.len() {
            lemma_line_end(s, i + 1);
        } else {
            assert(line_end(s, i + 1) == s.len());
        }
    }
}

/// A terminated line reads the same whatever follows the input.
pub proof fn lemma_line_end_extend(s: Seq<u8>, t: Seq<u8>, i: int)
    requires
        0 <= i < s.len(),
        s[line_end(s, i) - 1] == 10,
    ensures
        line_end(s + t, i) == line_end(s, i),
    decreases s.len() - i,
{
    lemma_line_end(s, i);
    if s[i] != 10 {
        lemma_line_end_extend(s, t, i + 1);
    }
}

/// Header reading that ended on a terminated line ends the same way whatever
/// follows the input.
pub proof fn lemma_scan_headers_extend(s: Seq<u8>, t: Seq<u8>, p: int, len: Option<usize>)
    requires
        0 <= p,
        !(scan_headers(s, p, len).0 is Eof),
        scan_headers(s, p, len).1 <= s.len(),
        s[scan_headers(s, p, len).1 - 1] == 10,
    ensures
        scan_headers(s + t, p, len) == scan_headers(s, p, len),
    decreases s.len() - p,
{
    let e = line_end(s, p);
    lemma_line_end(s, p);
    if e < s.len() {
        lemma_line_end_extend(s, t, p);
    } else {
        assert(e == s.len());
        if s[e - 1] == 10 {
            lemma_line_end_extend(s, t, p);
        } else {
            match classify_header(s.subrange(p, e)) {
                HeaderLine::ContentLength(n) => {
                    assert(scan_headers(s, e, Some(n)).0 is Eof);
                },
                HeaderLine::Other => {
                    assert(scan_headers(s, e, len).0 is Eof);
                },
                _ => {},
            }
        }
    }
    lemma_line_end(s + t, p);
    assert((s + t).subrange(p, e) =~= s.subrange(p, e));
    match classify_header(s.subrange(p, e)) {
        HeaderLine::ContentLength(n) => {
            lemma_scan_headers_extend(s, t, e, Some(n));
        },
        HeaderLine::Other => {
            lemma_scan_headers_extend(s, t, e, len);
        },
        _ => {},
    }
}

/// Once a frame's outcome is decided on the bytes received so far, more bytes
/// never change it: reading from any continuation gives the same outcome and
/// takes the same number of bytes.
pub proof fn frame_decided_is_stable(s: Seq<u8>, t: Seq<u8>, max: usize)
    requires
        frame_decided(s, max),
    ensures
        frame_spec(s + t, max) == frame_spec(s, max),
        frame_consumed(s + t, max) == frame_consumed(s, max),
{
    lemma_scan_headers_extend(s, t, 0, None);
    let (h, p) = scan_headers(s, 0, None);
    if let HeaderEnd::Done(Some(n)) = h {
        if n <= max {
            assert((s + t).subrange(p, p + n) =~= s.subrange(p, p + n));
        }
    }
}

/// How one header line reads, as computed.
pub enum HeaderLineRead {
    Blank,
    ContentLength(usize),
    Other,
    NotText(String),
    BadLength(String),
}

pub open spec fn header_read_matches(r: HeaderLineRead, h: HeaderLine) -> bool {
    match (r, h) {
        (HeaderLineRead::Blank, HeaderLine::Blank) => true,
        (HeaderLineRead::ContentLength(a), HeaderLine::ContentLength(b)) => a == b,
        (HeaderLineRead::Other, HeaderLine::Other) => true,
        (HeaderLineRead::NotText(_), HeaderLine::NotText) => true,
        (HeaderLineRead::BadLength(_), HeaderLine::BadLength) => true,
        _ => false,
    }
}

/// Interprets one header line: strips its line ending, and reads a
/// `Content-Length` header (name matched without regard to ASCII case, value
/// trimmed and parsed as a `usize`).
pub fn read_header_line(line: &[u8]) -> (r: HeaderLineRead)
    ensures
        header_read_matches(r, classify_header(line@)),
{
    let text = match utf8_text(line) {
        Ok(text) => text,
        Err(message) => return HeaderLineRead::NotText(message),
    };
    let header = trim_line_end(text);
    if header.is_empty() {
        return HeaderLineRead::Blank;
    }
    match split_at_colon(header) {
        Some((name, value)) => {
            if eq_ignore_ascii_case(name, "content-length") {
                match parse_usize(trim(value)) {
                    Ok(n) => HeaderLineRead::ContentLength(n),
                    Err(message) => HeaderLineRead::BadLength(message),
                }
            } else {
                HeaderLineRead::Other
            }
        },
        None => HeaderLineRead::Other,
    }
}

/// The end of the line that starts at `p`.
fn find_line_end(s: &[u8], p: usize) -> (e: usize)
    requires
        p < s@.len(),
    ensures
        e == line_end(s@, p as int),
{
    let mut i = p;
    while i < s.len()
        invariant
            p <= i <= s@.len(),
            line_end(s@, i as int) == line_end(s@, p as int),
        decreases s@.len() - i,
    {
        if s[i] == 10 {
            return i + 1;
        }
        i = i + 1;
    }
    i
}

/// The outcome of reading one frame from a byte sequence.
pub struct FrameScan {
    /// What the reader returns.
    pub result: Result<Option<Vec<u8>>, TransportError>,
    /// How many bytes the read took.
    pub consumed: usize,
    /// Whether more input could change `result`.
    pub decided: bool,
}

/// Reads one frame from the start of `s`, `s` being treated as the whole of
/// the rest of the input. Also tells whether the outcome is already decided
/// should more input follow.
pub fn scan_frame(s: &[u8], max_frame_bytes: usize) -> (r: FrameScan)
    ensures
        frame_result_matches(r.result, frame_spec(s@, max_frame_bytes), max_frame_bytes),
        r.consumed == frame_consumed(s@, max_frame_bytes),
        r.decided == frame_decided(s@, max_frame_bytes),
{
    let mut p: usize = 0;
    let mut len: Option<usize> = None;
    loop
        invariant
            p <= s@.len(),
            scan_headers(s@, p as int, len) == scan_headers(s@, 0, None),
        decreases s@.len() - p,
    {
        if p >= s.len() {
            return FrameScan { result: Ok(None), consumed: p, decided: false };
        }
        let e = find_line_end(s, p);
        proof {
            lemma_line_end(s@, p as int);
        }
        let line = &s[p..e];
        let read = read_header_line(line);
        match read {
            HeaderLineRead::Blank => {
                let terminated = s[e - 1] == 10;
                match len {
                    None => {
                        return FrameScan {
                            result: Err(TransportError::InvalidFrame("missing Content-Length".to_string())),
                            consumed: e,
                            decided: terminated,
                        };
                    },
                    Some(n) => {
                        if n > max_frame_bytes {
                            return FrameScan {
                                result: Err(TransportError::FrameTooLarge { limit: max_frame_bytes }),
                                consumed: e,
                                decided: terminated,
                            };
                        }
                        if n <= s.len() - e {
                            let payload = vstd::slice::slice_to_vec(&s[e..e + n]);
                            return FrameScan {
                                result: Ok(Some(payload)),
                                consumed: e + n,
                                decided: terminated,
                            };
                        }
                        return FrameScan {
                            result: Err(TransportError::WorkerExited),
                            consumed: s.len(),
                            decided: false,
                        };
                    },
                }
            },
            HeaderLineRead::ContentLength(n) => {
                len = Some(n);
                p = e;
            },
            HeaderLineRead::Other => {
                p = e;
            },
            HeaderLineRead::NotText(message) => {
                let terminated = s[e - 1] == 10;
                return FrameScan {
                    result: Err(TransportError::InvalidFrame(message)),
                    consumed: e,
                    decided: terminated,
                };
            },
            HeaderLineRead::BadLength(message) => {
                let terminated = s[e - 1] == 10;
                return FrameScan {
                    result: Err(TransportError::InvalidFrame(message)),
                    consumed: e,
                    decided: terminated,
                };
            },
        }
    }
}

/// A buffered byte stream read frame by frame: the bytes received from the
/// worker that no read has taken yet.
pub struct FrameReader {
    data: Vec<u8>,
}

impl FrameReader {
    /// The bytes not yet read.
    pub closed spec fn pending(self) -> Seq<u8> {
        self.data@
    }

    /// A reader over `data`.
    pub fn new(data: Vec<u8>) -> (r: Self)
        ensures
            r.pending() == data@,
    {
        FrameReader { data }
    }

    /// Appends bytes that arrived from the worker.
    pub fn extend(&mut self, bytes: &[u8])
        ensures
            final(self).pending() == old(self).pending() + bytes@,
    {
        let mut i: usize = 0;
        while i < bytes.len()
            invariant
                i <= bytes@.len(),
                self.data@ == old(self).pending() + bytes@.take(i as int),
            decreases bytes@.len() - i,
        {
            self.data.push(bytes[i]);
            proof {
                assert(self.data@ =~= old(self).pending() + bytes@.take(i + 1));
            }
            i = i + 1;
        }
        proof {
            assert(bytes@.take(bytes@.len() as int) =~= bytes@);
        }
    }

    /// Whether every received byte has been read.
    pub fn is_drained(&self) -> (r: bool)
        ensures
            r == (self.pending().len() == 0),
    {
        self.data.len() == 0
    }

    /// Drops the first `n` bytes.
    fn consume(&mut self, n: usize)
        requires
            n <= old(self).pending().len(),
        ensures
            final(self).pending() == old(self).pending().skip(n as int),
    {
        let rest = self.data.split_off(n);
        self.data = rest;
    }

    fn scan(&self, max_frame_bytes: usize) -> (r: FrameScan)
        ensures
            frame_result_matches(r.result, frame_spec(self.pending(), max_frame_bytes), max_frame_bytes),
            r.consumed == frame_consumed(self.pending(), max_frame_bytes),
            r.decided == frame_decided(self.pending(), max_frame_bytes),
            r.consumed <= self.pending().len(),
    {
        let r = scan_frame(self.data.as_slice(), max_frame_bytes);
        proof {
            lemma_frame_consumed_bound(self.data@, max_frame_bytes);
        }
        r
    }
}

/// Reads the next frame, the input ending with the bytes received so far:
/// `Ok(None)` when it ends before a frame starts.
pub fn read_frame(reader: &mut FrameReader, max_frame_bytes: usize) -> (r: Result<
    Option<Vec<u8>>,
    TransportError,
>)
    ensures
        frame_result_matches(r, frame_spec(old(reader).pending(), max_frame_bytes), max_frame_bytes),
        final(reader).pending() == old(reader).pending().skip(
            frame_consumed(old(reader).pending(), max_frame_bytes),
        ),
{
    let scanned = reader.scan(max_frame_bytes);
    reader.consume(scanned.consumed);
    scanned.result
}

/// Reads the next frame while more input may still arrive: `None` (and
/// nothing taken) until the bytes received decide the outcome.
pub fn poll_frame(reader: &mut FrameReader, max_frame_bytes: usize) -> (r: Option<
    Result<Option<Vec<u8>>, TransportError>,
>)
    ensures
        match r {
            Some(result) => {
                &&& frame_decided(old(reader).pending(), max_frame_bytes)
                &&& frame_result_matches(
                    result,
                    frame_spec(old(reader).pending(), max_frame_bytes),
                    max_frame_bytes,
                )
                &&& final(reader).pending() == old(reader).pending().skip(
                    frame_consumed(old(reader).pending(), max_frame_bytes),
                )
            },
            None => {
                &&& !frame_decided(old(reader).pending(), max_frame_bytes)
                &&& final(reader).pending() == old(reader).pending()
            },
        },
{
    let scanned = reader.scan(max_frame_bytes);
    if scanned.decided {
        reader.consume(scanned.consumed);
        Some(scanned.result)
    } else {
        None
    }
}

pub proof fn lemma_scan_headers_bound(s: Seq<u8>, p: int, len: Option<usize>)
    requires
        0 <= p <= s.len(),
    ensures
        p <= scan_headers(s, p, len).1 <= s.len(),
    decreases s.len() - p,
{
    if p < s.len() {
        lemma_line_end(s, p);
        let e = line_end(s, p);
        match classify_header(s.subrange(p, e)) {
            HeaderLine::ContentLength(n) => lemma_scan_headers_bound(s, e, Some(n)),
            HeaderLine::Other => lemma_scan_headers_bound(s, e, len),
            _ => {},
        }
    }
}

pub proof fn lemma_frame_consumed_bound(s: Seq<u8>, max: usize)
    ensures
        0 <= frame_consumed(s, max) <= s.len(),
{
    lemma_scan_headers_bound(s, 0, None);
}

/// The characters of the header block announcing a payload of `n` bytes.
pub open spec fn frame_header(n: nat) -> Seq<char> {
    content_length_prefix() + decimal_digits(n) + seq!['\r', '\n', '\r', '\n']
}

/// `Content-Length: `.
pub open spec fn content_length_prefix() -> Seq<char> {
    seq!['C', 'o', 'n', 't', 'e', 'n', 't', '-', 'L', 'e', 'n', 'g', 't', 'h', ':', ' ']
}

/// The bytes written for one frame carrying `payload`.
pub open spec fn encoded_frame(payload: Seq<u8>) -> Seq<u8> {
    ascii_bytes(frame_header(payload.len())) + payload
}

/// Frames a serialized message for the worker: a `Content-Length` header, an
/// empty line, then the payload. A payload above the limit is refused.
pub fn encode_frame(payload: &[u8], max_frame_bytes: usize) -> (r: Result<Vec<u8>, TransportError>)
    ensures
        payload@.len() > max_frame_bytes ==> r == Err::<Vec<u8>, TransportError>(
            TransportError::FrameTooLarge { limit: max_frame_bytes },
        ),
        payload@.len() <= max_frame_bytes ==> (r matches Ok(bytes) && bytes@ == encoded_frame(
            payload@,
        )),
{
    if payload.len() > max_frame_bytes {
        return Err(TransportError::FrameTooLarge { limit: max_frame_bytes });
    }
    let prefix: [u8; 16] = [67, 111, 110, 116, 101, 110, 116, 45, 76, 101, 110, 103, 116, 104, 58, 32];
    let mut out: Vec<u8> = Vec::new();
    let mut i: usize = 0;
    while i < 16
        invariant
            i <= 16,
            prefix@ == seq![67u8, 111, 110, 116, 101, 110, 116, 45, 76, 101, 110, 103, 116, 104, 58, 32],
            out@ == prefix@.take(i as int),
        decreases 16 - i,
    {
        out.push(prefix[i]);
        proof {
            assert(out@ =~= prefix@.take(i + 1));
        }
        i = i + 1;
    }
    push_decimal(&mut out, payload.len());
    out.push(13u8);
    out.push(10u8);
    out.push(13u8);
    out.push(10u8);
    let mut j: usize = 0;
    let ghost header = out@;
    while j < payload.len()
        invariant
            j <= payload@.len(),
            out@ == header + payload@.take(j as int),
        decreases payload@.len() - j,
    {
        out.push(payload[j]);
        proof {
            assert(out@ =~= header + payload@.take(j + 1));
        }
        j = j + 1;
    }
    proof {
        assert(payload@.take(payload@.len() as int) =~= payload@);
        assert(ascii_bytes(content_length_prefix()) =~= prefix@.take(16));
        let digits = decimal_digits(payload@.len());
        assert(ascii_bytes(frame_header(payload@.len())) =~= ascii_bytes(content_length_prefix())
            + ascii_bytes(digits) + seq![13u8, 10u8, 13u8, 10u8]);
    }
    Ok(out)
}

/// The digits of `decimal_digits(n)` spell `n`.
pub proof fn lemma_decimal_digits(n: nat)
    ensures
        decimal_digits(n).len() > 0,
        forall|i: int| 0 <= i < decimal_digits(n).len() ==> is_ascii_digit(#[trigger] decimal_digits(n)[i]),
        decimal_value(decimal_digits(n)) == n,
    decreases n,
{
    if n < 10 {
        assert(decimal_digits(n) =~= seq![digit_char(n)]);
        assert(decimal_value(seq![digit_char(n)]) == decimal_value(Seq::<char>::empty()) * 10 + digit_value(digit_char(n)));
    } else {
        lemma_decimal_digits(n / 10);
        let d = decimal_digits(n);
        assert(d.drop_last() =~= decimal_digits(n / 10));
        assert(n == (n / 10) * 10 + n % 10) by (nonlinear_arith);
    }
}

/// A line without `\n` before `j` and with one at `j` ends just past `j`.
pub proof fn lemma_line_end_at(s: Seq<u8>, i: int, j: int)
    requires
        0 <= i <= j < s.len(),
        s[j] == 10,
        forall|k: int| i <= k < j ==> s[k] != 10,
    ensures
        line_end(s, i) == j + 1,
    decreases j - i,
{
    if i < j {
        lemma_line_end_at(s, i + 1, j);
    }
}

/// ASCII text is valid UTF-8 and decodes back to itself.
pub proof fn lemma_ascii_decode(t: Seq<char>)
    requires
        is_ascii_chars(t),
    ensures
        valid_utf8(ascii_bytes(t)),
        decode_utf8(ascii_bytes(t)) == t,
{
    is_ascii_chars_encode_utf8(t);
    assert(encode_utf8(t) =~= ascii_bytes(t));
    encode_utf8_valid_utf8(t);
    encode_utf8_decode_utf8(t);
}

/// The header line written for `n` reads as `Content-Length` `n`.
pub proof fn lemma_length_line(n: usize)
    ensures
        classify_header(ascii_bytes(content_length_prefix() + decimal_digits(n as nat) + seq!['\r', '\n']))
            == HeaderLine::ContentLength(n),
{
    let digits = decimal_digits(n as nat);
    lemma_decimal_digits(n as nat);
    let line = content_length_prefix() + digits + seq!['\r', '\n'];
    assert(is_ascii_chars(line)) by {
        assert forall|i: int| 0 <= i < line.len() implies '\0' <= #[trigger] line[i] <= '\u{7f}' by {
            if i >= 16 && i < 16 + digits.len() {
                assert(line[i] == digits[i - 16]);
                assert(is_ascii_digit(digits[i - 16]));
            }
        }
    }
    lemma_ascii_decode(line);
    let text = content_length_prefix() + digits;
    assert(trim_end_crlf(line) == text) by {
        let once = line.drop_last();
        assert(once =~= content_length_prefix() + digits + seq!['\r']);
        assert(once.drop_last() =~= text);
        assert(text.last() == digits.last());
        assert(is_ascii_digit(text.last()));
        assert(trim_end_crlf(text) == text);
        assert(trim_end_crlf(once) == trim_end_crlf(text));
        assert(trim_end_crlf(line) == trim_end_crlf(once));
    }
    assert(index_of_from(text, ':', 0) == 14) by {
        reveal_with_fuel(index_of_from, 16);
    }
    let name = text.take(14);
    let value = text.skip(15);
    reveal_strlit("content-length");
    assert(eq_ignore_ascii_case_spec(name, "content-length"@)) by {
        assert forall|i: int| 0 <= i < name.len() implies ascii_lower(#[trigger] name[i]) == ascii_lower(
            "content-length"@[i],
        ) by {
            if i == 0 {
            } else if i == 8 {
            } else {
            }
        }
    }
    assert(value =~= seq![' '] + digits);
    assert(trim_ws(value) == digits) by {
        assert(value.drop_first() =~= digits);
        assert(is_white_space(value[0]));
        assert(is_ascii_digit(digits[0]));
        assert(trim_start_ws(value) == trim_start_ws(digits));
        assert(trim_start_ws(digits) == digits);
        assert(is_ascii_digit(digits.last()));
        assert(trim_end_ws(digits) == digits);
    }
    assert(unsigned_digits(digits) == digits);
}

/// The blank line written after the length reads as the end of the headers.
pub proof fn lemma_blank_line()
    ensures
        classify_header(ascii_bytes(seq!['\r', '\n'])) == HeaderLine::Blank,
{
    let line = seq!['\r', '\n'];
    lemma_ascii_decode(line);
    assert(line.drop_last() =~= seq!['\r']);
    assert(line.drop_last().drop_last() =~= Seq::<char>::empty());
    assert(trim_end_crlf(Seq::<char>::empty()) == Seq::<char>::empty());
    assert(trim_end_crlf(line.drop_last()) == trim_end_crlf(Seq::<char>::empty()));
    assert(trim_end_crlf(line) == trim_end_crlf(line.drop_last()));
    assert(trim_end_crlf(line).len() == 0);
}

/// Reading a frame gives back the payload that was framed, and takes exactly
/// the framed bytes, whatever follows them.
pub proof fn read_after_encode(payload: Seq<u8>, rest: Seq<u8>, max: usize)
    requires
        payload.len() <= max,
    ensures
        frame_spec(encoded_frame(payload) + rest, max) == FrameSpec::Frame(
            payload,
            encoded_frame(payload).len() as int,
        ),
        frame_consumed(encoded_frame(payload) + rest, max) == encoded_frame(payload).len(),
        frame_decided(encoded_frame(payload) + rest, max),
{
    let n = payload.len() as usize;
    let digits = decimal_digits(n as nat);
    lemma_decimal_digits(n as nat);
    let l1 = content_length_prefix() + digits + seq!['\r', '\n'];
    let l2 = seq!['\r', '\n'];
    let h = ascii_bytes(frame_header(n as nat));
    assert(frame_header(n as nat) =~= l1 + l2);
    assert(h =~= ascii_bytes(l1) + ascii_bytes(l2));
    let s = encoded_frame(payload) + rest;
    assert(s =~= ascii_bytes(l1) + ascii_bytes(l2) + payload + rest);
    let e1 = l1.len() as int;
    let e2 = e1 + 2;
    assert forall|k: int| 0 <= k < e1 - 1 implies s[k] != 10 by {
        assert(s[k] == l1[k] as u8);
        if k >= 16 && k < 16 + digits.len() {
            assert(l1[k] == digits[k - 16]);
            assert(is_ascii_digit(digits[k - 16]));
        }
    }
    lemma_line_end_at(s, 0, e1 - 1);
    lemma_line_end_at(s, e1, e1 + 1);
    assert(s.subrange(0, e1) =~= ascii_bytes(l1));
    assert(s.subrange(e1, e2) =~= ascii_bytes(l2));
    lemma_length_line(n);
    lemma_blank_line();
    assert(scan_headers(s, e1, Some(n)) == (HeaderEnd::Done(Some(n)), e2));
    assert(scan_headers(s, 0, None) == (HeaderEnd::Done(Some(n)), e2));
    assert(s.subrange(e2, e2 + n) =~= payload);
}

/// No frame longer than the limit is ever read.
pub proof fn frames_respect_limit(s: Seq<u8>, max: usize)
    ensures
        frame_spec(s, max) matches FrameSpec::Frame(payload, _) ==> payload.len() <= max,
{
    lemma_scan_headers_bound(s, 0, None);
}

/// Once the header block has ended with a terminated line, the outcome of
/// the read no longer waits for more input unless a payload is still being
/// received: an error in the headers (a line that is not text, a bad
/// `Content-Length`, a block without one, or a length above the limit) is
/// decided at once, as is a frame whose payload has fully arrived, so
/// `poll_frame` reports it.
pub proof fn ended_header_blocks_are_decided(s: Seq<u8>, max: usize)
    requires
        !(scan_headers(s, 0, None).0 is Eof),
        0 < scan_headers(s, 0, None).1,
        s[scan_headers(s, 0, None).1 - 1] == 10,
        !(frame_spec(s, max) is Truncated),
    ensures
        frame_decided(s, max),
{
    lemma_scan_headers_bound(s, 0, None);
}

} // verus!
