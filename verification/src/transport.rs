//! LSP message framing.
//!
//! LSP frames each JSON-RPC payload with HTTP-style headers:
//!
//! ```text
//! Content-Length: 123\r\n
//! \r\n
//! {"jsonrpc":"2.0", ...}
//! ```
//!
//! [`HeaderReader`] decides, line by line, what a header block means;
//! [`append_frame`] writes the framing around a payload. Reading from and
//! writing to a byte stream is left to the caller.

use crate::error::Error;
use crate::strings::{chars_of, concat2, concat3, debug_quoted, debug_text, string_of_range, string_push};
use vstd::prelude::*;

verus! {

/// The largest `Content-Length` accepted, guarding against a malformed or
/// hostile header exhausting memory.
pub const MAX_CONTENT_LENGTH: usize = 268435456;

/// Whether `c` is Unicode white space (`char::is_whitespace`).
pub open spec fn is_white(c: char) -> bool {
    ('\u{9}' <= c <= '\u{d}') || c == ' ' || c == '\u{85}' || c == '\u{a0}' || c == '\u{1680}'
        || ('\u{2000}' <= c <= '\u{200a}') || c == '\u{2028}' || c == '\u{2029}' || c
        == '\u{202f}' || c == '\u{205f}' || c == '\u{3000}'
}

/// `s` without trailing white space.
pub open spec fn trim_end(s: Seq<char>) -> Seq<char>
    decreases s.len(),
{
    if s.len() > 0 && is_white(s.last()) {
        trim_end(s.drop_last())
    } else {
        s
    }
}

/// `s` without leading white space.
pub open spec fn trim_start(s: Seq<char>) -> Seq<char>
    decreases s.len(),
{
    if s.len() > 0 && is_white(s[0]) {
        trim_start(s.drop_first())
    } else {
        s
    }
}

/// `s` without leading or trailing white space (`str::trim`).
pub open spec fn trim(s: Seq<char>) -> Seq<char> {
    trim_start(trim_end(s))
}

/// `s` without trailing `\r` and `\n` characters.
pub open spec fn strip_line_end(s: Seq<char>) -> Seq<char>
    decreases s.len(),
{
    if s.len() > 0 && (s.last() == '\r' || s.last() == '\n') {
        strip_line_end(s.drop_last())
    } else {
        s
    }
}

/// The index of the first `:` of `s`, if any.
pub open spec fn colon_index(s: Seq<char>, from: int) -> Option<int>
    decreases s.len() - from,
{
    if from < 0 || from >= s.len() {
        None
    } else if s[from] == ':' {
        Some(from)
    } else {
        colon_index(s, from + 1)
    }
}

/// ASCII lowercase of a character.
pub open spec fn lower_char(c: char) -> char {
    if 'A' <= c <= 'Z' {
        ((c as u32) + 32) as char
    } else {
        c
    }
}

/// The header name `content-length`.
pub open spec fn content_length_name() -> Seq<char> {
    seq!['c', 'o', 'n', 't', 'e', 'n', 't', '-', 'l', 'e', 'n', 'g', 't', 'h']
}

/// Whether `name` is `content-length` ignoring ASCII case.
pub open spec fn is_content_length_name(name: Seq<char>) -> bool {
    name.len() == 14 && forall|i: int|
        0 <= i < 14 ==> lower_char(#[trigger] name[i]) == content_length_name()[i]
}

/// The decimal digit character for `d < 10`.
pub open spec fn digit_char(d: nat) -> char {
    (48 + d) as char
}

/// The value of a sequence of decimal digit characters.
pub open spec fn digits_value(s: Seq<char>) -> nat
    decreases s.len(),
{
    if s.len() == 0 {
        0
    } else {
        digits_value(s.drop_last()) * 10 + ((s.last() as u32) - 48) as nat
    }
}

/// Whether every character of `s` is an ASCII digit.
pub open spec fn all_digits(s: Seq<char>) -> bool {
    forall|i: int| 0 <= i < s.len() ==> '0' <= #[trigger] s[i] <= '9'
}

/// The unsigned number `s` spells (`usize::from_str`): an optional `+`
/// followed by at least one decimal digit, with a value that fits in a
/// `usize`.
pub open spec fn parse_unsigned(s: Seq<char>) -> Option<nat> {
    let digits = if s.len() > 0 && s[0] == '+' {
        s.drop_first()
    } else {
        s
    };
    if digits.len() > 0 && all_digits(digits) && digits_value(digits) <= usize::MAX {
        Some(digits_value(digits))
    } else {
        None
    }
}

/// The decimal rendering of `n`.
pub open spec fn decimal(n: nat) -> Seq<char>
    decreases n,
{
    if n < 10 {
        seq![digit_char(n)]
    } else {
        decimal(n / 10).push(digit_char(n % 10))
    }
}

/// What one header line means.
pub ghost enum HeaderOutcome {
    /// Keep reading, with this `Content-Length` so far.
    Continue(Option<nat>),
    /// The header block ended with this payload length.
    Complete(nat),
    /// The header block is malformed; the protocol error's message.
    Failed(Seq<char>),
}

/// What the end of the header block means, given the `Content-Length`
/// seen.
pub open spec fn block_end(content_length: Option<nat>) -> HeaderOutcome {
    match content_length {
        Some(len) => if len > MAX_CONTENT_LENGTH {
            HeaderOutcome::Failed("Content-Length "@ + decimal(len) + " exceeds limit"@)
        } else {
            HeaderOutcome::Complete(len)
        },
        None => HeaderOutcome::Failed("missing Content-Length header"@),
    }
}

/// What reading the header line `line` (as read, with its line ending)
/// means, given the `Content-Length` seen so far. A blank line ends the
/// block; a line without `:` is malformed; a `Content-Length` header
/// (name matched ignoring case and surrounding white space) must hold an
/// unsigned number; other headers are ignored.
pub open spec fn header_line(content_length: Option<nat>, line: Seq<char>) -> HeaderOutcome {
    let t = strip_line_end(line);
    if t.len() == 0 {
        block_end(content_length)
    } else {
        match colon_index(t, 0) {
            None => HeaderOutcome::Failed("malformed header line: "@ + debug_text(t)),
            Some(c) => if is_content_length_name(trim(t.take(c))) {
                match parse_unsigned(trim(t.skip(c + 1))) {
                    Some(n) => HeaderOutcome::Continue(Some(n)),
                    None => HeaderOutcome::Failed(
                        "invalid Content-Length: "@ + debug_text(trim(t.skip(c + 1))),
                    ),
                }
            } else {
                HeaderOutcome::Continue(content_length)
            },
        }
    }
}

/// The outcome of one header line.
#[derive(Debug)]
pub enum HeaderStep {
    /// Keep reading header lines.
    Continue,
    /// The header block is complete; the payload has this many bytes.
    Complete(usize),
    /// The header block is malformed.
    Failed(Error),
}

/// Reads an LSP header block one line at a time.
#[derive(Debug, Clone)]
pub struct HeaderReader {
    content_length: Option<usize>,
    saw_any_byte: bool,
}

fn is_white_char(c: char) -> (r: bool)
    ensures
        r == is_white(c),
{
    ('\u{9}' <= c && c <= '\u{d}') || c == ' ' || c == '\u{85}' || c == '\u{a0}' || c
        == '\u{1680}' || ('\u{2000}' <= c && c <= '\u{200a}') || c == '\u{2028}' || c
        == '\u{2029}' || c == '\u{202f}' || c == '\u{205f}' || c == '\u{3000}'
}

proof fn lemma_trim_end_sub(s: Seq<char>, lo: int, hi: int)
    requires
        0 <= lo <= hi <= s.len(),
        hi == lo || !is_white(s[hi - 1]),
        forall|k: int| hi <= k < s.len() ==> is_white(#[trigger] s[k]),
    ensures
        trim_end(s.subrange(lo, s.len() as int)) == s.subrange(lo, hi),
    decreases s.len() - hi,
{
    let sub = s.subrange(lo, s.len() as int);
    if hi < s.len() {
        assert(sub.drop_last() =~= s.drop_last().subrange(lo, s.drop_last().len() as int));
        lemma_trim_end_sub(s.drop_last(), lo, hi);
        assert(s.drop_last().subrange(lo, hi) =~= s.subrange(lo, hi));
    } else {
        assert(sub =~= s.subrange(lo, hi));
    }
}

proof fn lemma_trim_start_sub(s: Seq<char>, lo: int, hi: int)
    requires
        0 <= lo <= hi <= s.len(),
        lo == hi || !is_white(s[lo]),
        forall|k: int| 0 <= k < lo ==> is_white(#[trigger] s[k]),
    ensures
        trim_start(s.subrange(0, hi)) == s.subrange(lo, hi),
    decreases lo,
{
    let sub = s.subrange(0, hi);
    if lo > 0 {
        assert(sub.drop_first() =~= s.drop_first().subrange(0, hi - 1));
        lemma_trim_start_sub(s.drop_first(), lo - 1, hi - 1);
        assert(s.drop_first().subrange(lo - 1, hi - 1) =~= s.subrange(lo, hi));
    } else {
        assert(sub =~= s.subrange(lo, hi));
    }
}

/// `str::trim` of `v[lo..hi]`, as the bounds of the trimmed part.
fn trim_bounds(v: &Vec<char>, lo: usize, hi: usize) -> (r: (usize, usize))
    requires
        lo <= hi <= v.len(),
    ensures
        lo <= r.0 <= r.1 <= hi,
        trim(v@.subrange(lo as int, hi as int)) == v@.subrange(r.0 as int, r.1 as int),
{
    let ghost s = v@.subrange(lo as int, hi as int);
    let mut end = hi;
    while end > lo && is_white_char(v[end - 1])
        invariant
            lo <= end <= hi <= v.len(),
            forall|k: int| end <= k < hi ==> is_white(#[trigger] v@[k]),
        decreases end,
    {
        end -= 1;
    }
    proof {
        lemma_trim_end_sub(s, 0, end - lo);
        assert(s.subrange(0, s.len() as int) =~= s);
        assert(s.subrange(0, end - lo) =~= v@.subrange(lo as int, end as int));
    }
    let mut start = lo;
    while start < end && is_white_char(v[start])
        invariant
            lo <= start <= end <= hi <= v.len(),
            forall|k: int| lo <= k < start ==> is_white(#[trigger] v@[k]),
        decreases end - start,
    {
        start += 1;
    }
    proof {
        let t = v@.subrange(lo as int, end as int);
        assert forall|k: int| 0 <= k < start - lo implies is_white(#[trigger] t[k]) by {
            assert(t[k] == v@[lo + k]);
        }
        lemma_trim_start_sub(t, start - lo, end - lo);
        assert(t.subrange(0, end - lo) =~= t);
        assert(t.subrange(start - lo, end - lo) =~= v@.subrange(start as int, end as int));
    }
    (start, end)
}

proof fn lemma_strip_line_end(s: Seq<char>, hi: int)
    requires
        0 <= hi <= s.len(),
        hi == 0 || !(s[hi - 1] == '\r' || s[hi - 1] == '\n'),
        forall|k: int| hi <= k < s.len() ==> (#[trigger] s[k] == '\r' || s[k] == '\n'),
    ensures
        strip_line_end(s) == s.take(hi),
    decreases s.len() - hi,
{
    if hi < s.len() {
        lemma_strip_line_end(s.drop_last(), hi);
        assert(s.drop_last().take(hi) =~= s.take(hi));
    } else {
        assert(s.take(hi) =~= s);
    }
}

fn find_colon(v: &Vec<char>, end: usize) -> (r: Option<usize>)
    requires
        end <= v.len(),
    ensures
        match r {
            Some(c) => colon_index(v@.take(end as int), 0) == Some(c as int) && c < end,
            None => colon_index(v@.take(end as int), 0) is None,
        },
{
    let ghost t = v@.take(end as int);
    let mut i: usize = 0;
    while i < end
        invariant
            i <= end <= v.len(),
            t == v@.take(end as int),
            colon_index(t, 0) == colon_index(t, i as int),
        decreases end - i,
    {
        if v[i] == ':' {
            return Some(i);
        }
        i += 1;
    }
    None
}

fn lower_ascii(c: char) -> (r: char)
    ensures
        r == lower_char(c),
{
    if 'A' <= c && c <= 'Z' {
        ((c as u8) + 32) as char
    } else {
        c
    }
}

/// Whether `v[lo..hi]` is `content-length` ignoring ASCII case.
fn is_content_length(v: &Vec<char>, lo: usize, hi: usize) -> (r: bool)
    requires
        lo <= hi <= v.len(),
    ensures
        r == is_content_length_name(v@.subrange(lo as int, hi as int)),
{
    let ghost name = v@.subrange(lo as int, hi as int);
    if hi - lo != 14 {
        return false;
    }
    let expected: [char; 14] = [
        'c',
        'o',
        'n',
        't',
        'e',
        'n',
        't',
        '-',
        'l',
        'e',
        'n',
        'g',
        't',
        'h',
    ];
    proof {
        assert(expected@ =~= content_length_name());
    }
    let mut i: usize = 0;
    while i < 14
        invariant
            i <= 14,
            hi - lo == 14,
            lo <= hi <= v.len(),
            name == v@.subrange(lo as int, hi as int),
            expected@ == content_length_name(),
            forall|k: int| 0 <= k < i ==> lower_char(#[trigger] name[k]) == content_length_name()[k],
        decreases 14 - i,
    {
        if lower_ascii(v[lo + i]) != expected[i] {
            assert(lower_char(name[i as int]) != content_length_name()[i as int]);
            return false;
        }
        i += 1;
    }
    true
}

/// Parse `v[lo..hi]` as an unsigned number (`usize::from_str`).
fn parse_usize(v: &Vec<char>, lo: usize, hi: usize) -> (r: Option<usize>)
    requires
        lo <= hi <= v.len(),
    ensures
        match r {
            Some(n) => parse_unsigned(v@.subrange(lo as int, hi as int)) == Some(n as nat),
            None => parse_unsigned(v@.subrange(lo as int, hi as int)) is None,
        },
{
    let ghost s = v@.subrange(lo as int, hi as int);
    let mut start = lo;
    if start < hi && v[start] == '+' {
        start += 1;
    }
    let ghost digits = v@.subrange(start as int, hi as int);
    proof {
        if lo < hi && v@[lo as int] == '+' {
            assert(s.drop_first() =~= digits);
        } else {
            assert(s =~= digits);
        }
    }
    let ghost outcome = if digits.len() > 0 && all_digits(digits) && digits_value(digits)
        <= usize::MAX {
        Some(digits_value(digits))
    } else {
        None
    };
    assert(parse_unsigned(s) == outcome);
    if start == hi {
        return None;
    }
    let mut i = start;
    while i < hi
        invariant
            start <= i <= hi <= v.len(),
            digits == v@.subrange(start as int, hi as int),
            lo <= start < hi,
            parse_unsigned(v@.subrange(lo as int, hi as int)) == outcome,
            outcome == (if digits.len() > 0 && all_digits(digits) && digits_value(digits)
                <= usize::MAX {
                Some(digits_value(digits))
            } else {
                None
            }),
            forall|k: int| start <= k < i ==> '0' <= #[trigger] v@[k] <= '9',
        decreases hi - i,
    {
        let c = v[i];
        if !('0' <= c && c <= '9') {
            proof {
                assert(!('0' <= digits[i - start] <= '9'));
            }
            return None;
        }
        i += 1;
    }
    assert(all_digits(digits));
    let mut value: usize = 0;
    i = start;
    proof {
        assert(v@.subrange(start as int, start as int) =~= Seq::<char>::empty());
    }
    while i < hi
        invariant
            start <= i <= hi <= v.len(),
            digits == v@.subrange(start as int, hi as int),
            lo <= start < hi,
            parse_unsigned(v@.subrange(lo as int, hi as int)) == outcome,
            outcome == (if digits.len() > 0 && all_digits(digits) && digits_value(digits)
                <= usize::MAX {
                Some(digits_value(digits))
            } else {
                None
            }),
            all_digits(digits),
            value == digits_value(v@.subrange(start as int, i as int)),
        decreases hi - i,
    {
        let c = v[i];
        assert('0' <= digits[i - start] <= '9');
        let d = (c as u8 - 48) as usize;
        proof {
            assert(v@.subrange(start as int, i + 1).drop_last() =~= v@.subrange(
                start as int,
                i as int,
            ));
            assert(digits.take(i + 1 - start) =~= v@.subrange(start as int, i + 1));
        }
        if value > (usize::MAX - d) / 10 {
            proof {
                lemma_digits_value_prefix_monotone(digits, i + 1 - start);
                assert(value * 10 + d > usize::MAX) by (nonlinear_arith)
                    requires
                        value > (usize::MAX - d) / 10,
                        d <= 9,
                ;
            }
            return None;
        }
        proof {
            assert(value * 10 + d <= usize::MAX) by (nonlinear_arith)
                requires
                    value <= (usize::MAX - d) / 10,
                    d <= 9,
            ;
        }
        value = value * 10 + d;
        i += 1;
    }
    proof {
        assert(v@.subrange(start as int, hi as int) =~= digits);
    }
    Some(value)
}

proof fn lemma_digits_value_prefix_monotone(s: Seq<char>, k: int)
    requires
        0 <= k <= s.len(),
        all_digits(s),
    ensures
        digits_value(s.take(k)) <= digits_value(s),
    decreases s.len() - k,
{
    if k < s.len() {
        lemma_digits_value_prefix_monotone(s, k + 1);
        assert(s.take(k + 1).drop_last() =~= s.take(k));
        assert('0' <= s[k] <= '9');
    } else {
        assert(s.take(k) =~= s);
    }
}

/// The decimal rendering of an integer, with a `-` before a negative one.
pub open spec fn signed_decimal(n: int) -> Seq<char> {
    if n < 0 {
        seq!['-'] + decimal((-n) as nat)
    } else {
        decimal(n as nat)
    }
}

/// The decimal rendering of `n`, as `format!("{n}")` writes it.
pub fn signed_decimal_string(n: i64) -> (r: String)
    ensures
        r@ == signed_decimal(n as int),
{
    if n < 0 {
        let magnitude: u64 = if n == i64::MIN {
            9_223_372_036_854_775_808
        } else {
            (-n) as u64
        };
        let digits = decimal_string(magnitude);
        proof {
            reveal_strlit("-");
        }
        concat2("-", digits.as_str())
    } else {
        decimal_string(n as u64)
    }
}

/// The decimal rendering of `n`.
pub fn decimal_string(n: u64) -> (r: String)
    ensures
        r@ == decimal(n as nat),
{
    let mut digits: Vec<char> = Vec::new();
    let mut m = n;
    let ghost mut done: Seq<char> = Seq::empty();
    while m >= 10
        invariant
            decimal(n as nat) == decimal(m as nat) + done,
            digits@ == done.reverse(),
        decreases m,
    {
        let d = (m % 10) as u8;
        digits.push((48 + d) as char);
        proof {
            assert(decimal(m as nat) == decimal((m / 10) as nat).push(digit_char((m % 10) as nat)));
            assert(decimal((m / 10) as nat).push(digit_char((m % 10) as nat)) + done
                =~= decimal((m / 10) as nat) + (seq![digit_char((m % 10) as nat)] + done));
            assert((seq![digit_char((m % 10) as nat)] + done).reverse() =~= done.reverse().push(
                digit_char((m % 10) as nat),
            ));
            done = seq![digit_char((m % 10) as nat)] + done;
        }
        m = m / 10;
    }
    digits.push((48 + m as u8) as char);
    proof {
        assert(decimal(m as nat) =~= seq![digit_char(m as nat)]);
        assert((seq![digit_char(m as nat)] + done).reverse() =~= done.reverse().push(
            digit_char(m as nat),
        ));
        done = seq![digit_char(m as nat)] + done;
    }
    let mut out = String::new();
    let mut k = digits.len();
    while k > 0
        invariant
            k <= digits.len(),
            digits@ == done.reverse(),
            decimal(n as nat) == done,
            out@ == done.take(digits.len() - k),
        decreases k,
    {
        k -= 1;
        string_push(&mut out, digits[k]);
        proof {
            assert(done.take(digits.len() - k) =~= done.take(digits.len() - k - 1).push(
                digits@[k as int],
            ));
        }
    }
    proof {
        assert(done.take(digits.len() as int) =~= done);
    }
    out
}

impl HeaderReader {
    /// The `Content-Length` seen so far.
    pub closed spec fn content_length(&self) -> Option<nat> {
        match self.content_length {
            Some(n) => Some(n as nat),
            None => None,
        }
    }

    /// Whether any header line has been read.
    pub closed spec fn started(&self) -> bool {
        self.saw_any_byte
    }

    /// A reader at the start of a header block.
    pub fn new() -> (r: Self)
        ensures
            r.content_length() is None,
            !r.started(),
    {
        HeaderReader { content_length: None, saw_any_byte: false }
    }

    /// What the end of the stream means: a clean end (`Ok(None)`) before
    /// any header line, an error inside a header block.
    pub fn on_eof(&self) -> (r: Result<Option<usize>, Error>)
        ensures
            !self.started() ==> r == Ok::<Option<usize>, Error>(None),
            self.started() ==> (r matches Err(Error::Protocol(m)) && m@
                == "connection closed inside header block"@),
    {
        if self.saw_any_byte {
            Err(Error::protocol("connection closed inside header block"))
        } else {
            Ok(None)
        }
    }

    /// Read one header line (as read, including its line ending).
    pub fn on_line(&mut self, line: &str) -> (r: HeaderStep)
        ensures
            final(self).started(),
            match header_line(old(self).content_length(), line@) {
                HeaderOutcome::Continue(len) => r is Continue && final(self).content_length()
                    == len,
                HeaderOutcome::Complete(len) => r matches HeaderStep::Complete(n) && n == len,
                HeaderOutcome::Failed(message) => r matches HeaderStep::Failed(Error::Protocol(m))
                    && m@ == message,
            },
    {
        self.saw_any_byte = true;
        let v = chars_of(line);
        let mut end = v.len();
        while end > 0 && (v[end - 1] == '\r' || v[end - 1] == '\n')
            invariant
                end <= v.len(),
                forall|k: int| end <= k < v.len() ==> (#[trigger] v@[k] == '\r' || v@[k] == '\n'),
            decreases end,
        {
            end -= 1;
        }
        proof {
            lemma_strip_line_end(v@, end as int);
        }
        let ghost t = v@.take(end as int);
        if end == 0 {
            return match self.content_length {
                Some(len) => if len > MAX_CONTENT_LENGTH {
                    let digits = decimal_string(len as u64);
                    HeaderStep::Failed(
                        Error::Protocol(concat3("Content-Length ", digits.as_str(), " exceeds limit")),
                    )
                } else {
                    HeaderStep::Complete(len)
                },
                None => HeaderStep::Failed(Error::protocol("missing Content-Length header")),
            };
        }
        match find_colon(&v, end) {
            None => {
                let text = string_of_range(v.as_slice(), 0, end);
                let quoted = debug_quoted(text.as_str());
                HeaderStep::Failed(Error::Protocol(concat2("malformed header line: ", quoted.as_str())))
            },
            Some(colon) => {
                let (name_lo, name_hi) = trim_bounds(&v, 0, colon);
                proof {
                    assert(t.take(colon as int) =~= v@.subrange(0, colon as int));
                    assert(t.skip(colon + 1) =~= v@.subrange(colon + 1, end as int));
                }
                if is_content_length(&v, name_lo, name_hi) {
                    let (value_lo, value_hi) = trim_bounds(&v, colon + 1, end);
                    match parse_usize(&v, value_lo, value_hi) {
                        Some(n) => {
                            self.content_length = Some(n);
                            HeaderStep::Continue
                        },
                        None => {
                            let text = string_of_range(v.as_slice(), value_lo, value_hi);
                            let quoted = debug_quoted(text.as_str());
                            HeaderStep::Failed(
                                Error::Protocol(concat2("invalid Content-Length: ", quoted.as_str())),
                            )
                        },
                    }
                } else {
                    HeaderStep::Continue
                }
            },
        }
    }
}

/// The header that frames a payload of `len` bytes:
/// `Content-Length: <len>\r\n\r\n`.
pub open spec fn frame_header(len: nat) -> Seq<char> {
    "Content-Length: "@ + decimal(len) + "\r\n\r\n"@
}

/// Append one framed payload to `buf`: the `Content-Length` header for
/// `body`, then `body` itself. Batching several frames into one buffer
/// lets a writer issue a single write for all of them.
pub fn append_frame(buf: &mut Vec<u8>, body: &[u8])
    ensures
        final(buf)@ == old(buf)@ + vstd::utf8::encode_utf8(frame_header(body.len() as nat))
            + body@,
{
    let digits = decimal_string(body.len() as u64);
    let header = concat3("Content-Length: ", digits.as_str(), "\r\n\r\n");
    let bytes = header.as_str().as_bytes();
    let mut i: usize = 0;
    let ghost start = buf@;
    while i < bytes.len()
        invariant
            i <= bytes.len(),
            buf@ == start + bytes@.take(i as int),
        decreases bytes.len() - i,
    {
        buf.push(bytes[i]);
        proof {
            assert(bytes@.take(i + 1) =~= bytes@.take(i as int).push(bytes@[i as int]));
        }
        i += 1;
    }
    let mut j: usize = 0;
    proof {
        assert(bytes@.take(bytes.len() as int) =~= bytes@);
    }
    while j < body.len()
        invariant
            j <= body.len(),
            buf@ == start + bytes@ + body@.take(j as int),
        decreases body.len() - j,
    {
        buf.push(body[j]);
        proof {
            assert(body@.take(j + 1) =~= body@.take(j as int).push(body@[j as int]));
        }
        j += 1;
    }
    proof {
        assert(body@.take(body.len() as int) =~= body@);
    }
}

} // verus!

verus! {

proof fn lemma_decimal_digits(n: nat)
    ensures
        decimal(n).len() > 0,
        all_digits(decimal(n)),
        digits_value(decimal(n)) == n,
        decimal(n)[0] != '+',
        !is_white(decimal(n)[0]),
        !is_white(decimal(n).last()),
        decimal(n).last() != '\r' && decimal(n).last() != '\n',
        forall|i: int| 0 <= i < decimal(n).len() ==> #[trigger] decimal(n)[i] != ':',
    decreases n,
{
    let d = decimal(n);
    if n < 10 {
        assert(d == seq![digit_char(n)]);
        assert(((48 + n) as char) as u32 == 48 + n);
        assert(d.drop_last() =~= Seq::<char>::empty());
        assert(digits_value(d) == digits_value(d.drop_last()) * 10 + n);
    } else {
        lemma_decimal_digits(n / 10);
        let p = decimal(n / 10);
        assert(d == p.push(digit_char(n % 10)));
        assert(((48 + n % 10) as char) as u32 == 48 + n % 10);
        assert(d.drop_last() =~= p);
        assert(digits_value(d) == digits_value(p) * 10 + n % 10);
        assert((n / 10) * 10 + n % 10 == n) by (nonlinear_arith);
        assert(d[0] == p[0]);
        assert forall|i: int| 0 <= i < d.len() implies '0' <= #[trigger] d[i] <= '9' by {
            if i < p.len() {
                assert(d[i] == p[i]);
            }
        }
        assert forall|i: int| 0 <= i < d.len() implies #[trigger] d[i] != ':' by {
            if i < p.len() {
                assert(d[i] == p[i]);
            }
        }
    }
}

proof fn lemma_colon_index_at(s: Seq<char>, k: int, c: int)
    requires
        0 <= k <= c < s.len(),
        s[c] == ':',
        forall|i: int| k <= i < c ==> #[trigger] s[i] != ':',
    ensures
        colon_index(s, k) == Some(c),
    decreases c - k,
{
    if k < c {
        lemma_colon_index_at(s, k + 1, c);
    }
}

/// Trimming a string that has no surrounding white space leaves it alone.
proof fn lemma_trim_unchanged(s: Seq<char>)
    requires
        s.len() > 0,
        !is_white(s[0]),
        !is_white(s.last()),
    ensures
        trim(s) == s,
{
}

/// A frame header reads back as what it frames: its `Content-Length` line
/// records the payload length, and the blank line after it completes the
/// header block with that length.
pub proof fn lemma_frame_header_round_trip(len: nat)
    requires
        len <= MAX_CONTENT_LENGTH,
    ensures
        header_line(None, "Content-Length: "@ + decimal(len) + "\r\n"@) == HeaderOutcome::Continue(
            Some(len),
        ),
        header_line(Some(len), "\r\n"@) == HeaderOutcome::Complete(len),
        frame_header(len) == ("Content-Length: "@ + decimal(len) + "\r\n"@) + "\r\n"@,
{
    reveal_strlit("Content-Length: ");
    reveal_strlit("\r\n");
    reveal_strlit("\r\n\r\n");
    lemma_decimal_digits(len);
    let d = decimal(len);
    let prefix = "Content-Length: "@;
    let body = prefix + d;
    let line = body + "\r\n"@;
    // The line ending is stripped.
    assert(line.drop_last() =~= body + seq!['\r']);
    assert(line.drop_last().drop_last() =~= body);
    assert(body.last() == d.last());
    assert(strip_line_end(body) == body);
    assert(line.last() == '\n');
    assert(line.drop_last().last() == '\r');
    assert(strip_line_end(line) == strip_line_end(line.drop_last()));
    assert(strip_line_end(line.drop_last()) == strip_line_end(body));
    // The first `:` ends the name.
    assert(body[14] == ':');
    assert forall|i: int| 0 <= i < 14 implies body[i] != ':' by {}
    lemma_colon_index_at(body, 0, 14);
    // The name is `Content-Length`.
    let name = body.take(14);
    lemma_trim_unchanged(name);
    assert(is_content_length_name(name)) by {
        assert forall|i: int| 0 <= i < 14 implies lower_char(#[trigger] name[i])
            == content_length_name()[i] by {
            assert(name[i] == prefix[i]);
        }
    }
    // The value is the decimal rendering of the length.
    let value = body.skip(15);
    assert(value =~= seq![' '] + d);
    assert(trim_end(value) == value);
    assert(value.drop_first() =~= d);
    assert(trim_start(d) == d);
    assert(trim(value) == d);
    assert(parse_unsigned(d) == Some(len));
    // The blank line completes the block.
    let crlf = "\r\n"@;
    assert(crlf.drop_last().drop_last() =~= Seq::<char>::empty());
    assert(strip_line_end(crlf) == strip_line_end(crlf.drop_last()));
    assert(strip_line_end(crlf.drop_last()) == strip_line_end(crlf.drop_last().drop_last()));
    assert(frame_header(len) =~= body + "\r\n"@ + "\r\n"@);
}

} // verus!
