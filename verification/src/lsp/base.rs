//! Foundational LSP value types shared across requests.

use crate::strings::{chars_of, str_eq, string_of, string_push};
use vstd::prelude::*;
use vstd::string::StringSliceAdditionalSpecFns;
use vstd::utf8::{decode_utf8, encode_utf8, is_ascii_chars, is_ascii_chars_encode_utf8, valid_utf8};

verus! {

// ---------------------------------------------------------------------------
// Character classes.

/// An ASCII letter.
pub open spec fn is_ascii_alpha(c: char) -> bool {
    ('a' <= c <= 'z') || ('A' <= c <= 'Z')
}

/// An ASCII decimal digit.
pub open spec fn is_ascii_digit(c: char) -> bool {
    '0' <= c <= '9'
}

/// A character allowed after the first one in a URI scheme.
pub open spec fn is_scheme_char(c: char) -> bool {
    is_ascii_alpha(c) || is_ascii_digit(c) || c == '+' || c == '-' || c == '.'
}

/// A syntactically valid URI scheme: `ALPHA *( ALPHA / DIGIT / "+" / "-" / "." )`.
pub open spec fn is_valid_scheme(s: Seq<char>) -> bool {
    &&& s.len() > 0
    &&& is_ascii_alpha(s[0])
    &&& forall|i: int| 1 <= i < s.len() ==> is_scheme_char(#[trigger] s[i])
}

/// The index of the first `c` in `s` at or after `from`, or `s.len()`.
pub open spec fn find_char(s: Seq<char>, c: char, from: int) -> int
    decreases s.len() - from,
{
    if from >= s.len() {
        s.len() as int
    } else if s[from] == c {
        from
    } else {
        find_char(s, c, from + 1)
    }
}

proof fn lemma_find_char_bounds(s: Seq<char>, c: char, from: int)
    requires
        0 <= from,
    ensures
        from <= find_char(s, c, from) <= s.len() || (from > s.len() && find_char(s, c, from)
            == s.len()),
        find_char(s, c, from) < s.len() ==> s[find_char(s, c, from)] == c,
        forall|j: int| from <= j < find_char(s, c, from) ==> s[j] != c,
    decreases s.len() - from,
{
    if from < s.len() && s[from] != c {
        lemma_find_char_bounds(s, c, from + 1);
    }
}

proof fn lemma_scheme_len_bounds(s: Seq<char>)
    ensures
        0 <= scheme_len(s) <= s.len(),
{
    lemma_find_char_bounds(s, ':', 0);
}

/// The scheme of a URI: the text before its first `:`, if that is a valid
/// scheme.
pub open spec fn uri_scheme(s: Seq<char>) -> Option<Seq<char>> {
    let colon = find_char(s, ':', 0);
    if colon < s.len() && is_valid_scheme(s.take(colon)) {
        Some(s.take(colon))
    } else {
        None
    }
}

/// The length of a URI's scheme, or 0 if it has none.
pub open spec fn scheme_len(s: Seq<char>) -> int {
    match uri_scheme(s) {
        Some(scheme) => scheme.len() as int,
        None => 0,
    }
}

/// ASCII lowercase of `c`.
pub open spec fn ascii_lower(c: char) -> char {
    if 'A' <= c <= 'Z' {
        ((c as u32) + 32) as char
    } else {
        c
    }
}

/// `c` with a lowercase hexadecimal letter (`a`-`f`) made uppercase.
pub open spec fn hex_upper(c: char) -> char {
    if 'a' <= c <= 'f' {
        ((c as u32) - 32) as char
    } else {
        c
    }
}

/// `s` with its first `n` characters lowercased.
pub open spec fn lower_prefix(s: Seq<char>, n: int) -> Seq<char> {
    Seq::new(s.len(), |i: int| if i < n { ascii_lower(s[i]) } else { s[i] })
}

/// `s` with the hexadecimal digits of every percent-escape found scanning
/// from `i` made uppercase. The scan reads the string's UTF-8 bytes: a `%`
/// covers the next two bytes, so a `%` followed by a non-ASCII character
/// only covers that character, and scanning resumes after the covered
/// bytes.
pub open spec fn upper_escapes_from(s: Seq<char>, i: int) -> Seq<char>
    decreases s.len() + 3 - i,
{
    if i < 0 || i >= s.len() {
        s
    } else if s[i] == '%' {
        if i + 1 < s.len() {
            let s1 = s.update(i + 1, hex_upper(s[i + 1]));
            if s[i + 1] <= '\u{7f}' {
                let s2 = if i + 2 < s.len() {
                    s1.update(i + 2, hex_upper(s1[i + 2]))
                } else {
                    s1
                };
                upper_escapes_from(s2, i + 3)
            } else {
                upper_escapes_from(s1, i + 2)
            }
        } else {
            s
        }
    } else {
        upper_escapes_from(s, i + 1)
    }
}

/// The normal form of a URI string: scheme lowercased, percent-encoding
/// hex digits uppercased, everything else (path case included) unchanged.
pub open spec fn normalized(s: Seq<char>) -> Seq<char> {
    upper_escapes_from(lower_prefix(s, scheme_len(s)), 0)
}

// ---------------------------------------------------------------------------
// Normalization is idempotent.

/// Whether the escape scan of `s` from `i` uppercases position `j`.
spec fn touched(s: Seq<char>, i: int, j: int) -> bool
    decreases s.len() + 3 - i,
{
    if i < 0 || i >= s.len() {
        false
    } else if s[i] == '%' {
        if i + 1 < s.len() {
            if s[i + 1] <= '\u{7f}' {
                j == i + 1 || (j == i + 2 && i + 2 < s.len()) || touched(s, i + 3, j)
            } else {
                j == i + 1 || touched(s, i + 2, j)
            }
        } else {
            false
        }
    } else {
        touched(s, i + 1, j)
    }
}

/// Two strings of the same shape: `%` and ASCII at the same positions.
spec fn same_shape(s: Seq<char>, t: Seq<char>) -> bool {
    &&& s.len() == t.len()
    &&& forall|k: int|
        0 <= k < s.len() ==> ((#[trigger] s[k] == '%') == (t[k] == '%')) && ((s[k] <= '\u{7f}')
            == (t[k] <= '\u{7f}'))
}

proof fn lemma_touched_after(s: Seq<char>, i: int, j: int)
    requires
        0 <= i,
        touched(s, i, j),
    ensures
        i < j < s.len(),
        exists|p: int| i <= p < j && #[trigger] s[p] == '%',
    decreases s.len() + 3 - i,
{
    if s[i] == '%' {
        if i + 1 < s.len() && s[i + 1] <= '\u{7f}' {
            if !(j == i + 1 || (j == i + 2 && i + 2 < s.len())) {
                lemma_touched_after(s, i + 3, j);
            }
        } else if !(j == i + 1) {
            lemma_touched_after(s, i + 2, j);
        }
        assert(s[i] == '%');
    } else {
        lemma_touched_after(s, i + 1, j);
        let p = choose|p: int| i + 1 <= p < j && #[trigger] s[p] == '%';
        assert(s[p] == '%');
    }
}

proof fn lemma_touched_shape(s: Seq<char>, t: Seq<char>, i: int, j: int)
    requires
        same_shape(s, t),
    ensures
        touched(s, i, j) == touched(t, i, j),
    decreases s.len() + 3 - i,
{
    if 0 <= i < s.len() {
        assert(s[i] == '%' <==> t[i] == '%');
        if i + 1 < s.len() {
            assert(s[i + 1] <= '\u{7f}' <==> t[i + 1] <= '\u{7f}');
        }
        lemma_touched_shape(s, t, i + 1, j);
        lemma_touched_shape(s, t, i + 2, j);
        lemma_touched_shape(s, t, i + 3, j);
    }
}

proof fn lemma_touched_suffix(s: Seq<char>, t: Seq<char>, i: int, j: int)
    requires
        0 <= i,
        s.len() == t.len(),
        forall|k: int| i <= k < s.len() ==> #[trigger] s[k] == t[k],
    ensures
        touched(s, i, j) == touched(t, i, j),
    decreases s.len() + 3 - i,
{
    if i < s.len() {
        lemma_touched_suffix(s, t, i + 1, j);
        lemma_touched_suffix(s, t, i + 2, j);
        lemma_touched_suffix(s, t, i + 3, j);
    }
}

/// What the escape scan does, position by position.
proof fn lemma_upper_escapes_pointwise(s: Seq<char>, i: int)
    requires
        0 <= i,
    ensures
        upper_escapes_from(s, i).len() == s.len(),
        forall|j: int|
            0 <= j < s.len() ==> #[trigger] upper_escapes_from(s, i)[j] == if touched(s, i, j) {
                hex_upper(s[j])
            } else {
                s[j]
            },
    decreases s.len() + 3 - i,
{
    if i >= s.len() {
        assert forall|j: int| 0 <= j < s.len() implies !touched(s, i, j) by {}
    } else if s[i] == '%' {
        if i + 1 < s.len() {
            let s1 = s.update(i + 1, hex_upper(s[i + 1]));
            if s[i + 1] <= '\u{7f}' {
                let s2 = if i + 2 < s.len() {
                    s1.update(i + 2, hex_upper(s1[i + 2]))
                } else {
                    s1
                };
                lemma_upper_escapes_pointwise(s2, i + 3);
                lemma_touched_suffix(s, s2, i + 3, 0);
                assert forall|j: int| 0 <= j < s.len() implies #[trigger] upper_escapes_from(
                    s,
                    i,
                )[j] == if touched(s, i, j) {
                    hex_upper(s[j])
                } else {
                    s[j]
                } by {
                    lemma_touched_suffix(s, s2, i + 3, j);
                    if touched(s, i + 3, j) {
                        lemma_touched_after(s, i + 3, j);
                    }
                    if touched(s2, i + 3, j) {
                        lemma_touched_after(s2, i + 3, j);
                    }
                }
            } else {
                lemma_upper_escapes_pointwise(s1, i + 2);
                assert forall|j: int| 0 <= j < s.len() implies #[trigger] upper_escapes_from(
                    s,
                    i,
                )[j] == if touched(s, i, j) {
                    hex_upper(s[j])
                } else {
                    s[j]
                } by {
                    lemma_touched_suffix(s, s1, i + 2, j);
                    if touched(s, i + 2, j) {
                        lemma_touched_after(s, i + 2, j);
                    }
                }
            }
        } else {
            assert forall|j: int| 0 <= j < s.len() implies !touched(s, i, j) by {}
        }
    } else {
        lemma_upper_escapes_pointwise(s, i + 1);
    }
}

proof fn lemma_char_maps(c: char)
    ensures
        ascii_lower(ascii_lower(c)) == ascii_lower(c),
        hex_upper(hex_upper(c)) == hex_upper(c),
        (ascii_lower(c) == '%') == (c == '%'),
        (hex_upper(c) == '%') == (c == '%'),
        (ascii_lower(c) == ':') == (c == ':'),
        (hex_upper(c) == ':') == (c == ':'),
        (ascii_lower(c) <= '\u{7f}') == (c <= '\u{7f}'),
        (hex_upper(c) <= '\u{7f}') == (c <= '\u{7f}'),
        is_ascii_alpha(ascii_lower(c)) == is_ascii_alpha(c),
        is_ascii_alpha(hex_upper(c)) == is_ascii_alpha(c),
        is_scheme_char(ascii_lower(c)) == is_scheme_char(c),
        is_scheme_char(hex_upper(c)) == is_scheme_char(c),
{
}

proof fn lemma_find_char_same(s: Seq<char>, t: Seq<char>, c: char, from: int)
    requires
        0 <= from,
        s.len() == t.len(),
        forall|k: int| 0 <= k < s.len() ==> (#[trigger] s[k] == c) == (t[k] == c),
    ensures
        find_char(s, c, from) == find_char(t, c, from),
    decreases s.len() - from,
{
    if from < s.len() {
        lemma_find_char_same(s, t, c, from + 1);
    }
}

/// Normalizing a URI twice gives what normalizing it once gives.
pub proof fn lemma_normalized_idempotent(s: Seq<char>)
    ensures
        normalized(normalized(s)) == normalized(s),
{
    let sl = scheme_len(s);
    lemma_scheme_len_bounds(s);
    let l = lower_prefix(s, sl);
    let n = normalized(s);
    lemma_upper_escapes_pointwise(l, 0);
    assert forall|k: int| 0 <= k < s.len() implies l[k] == (if k < sl {
        ascii_lower(s[k])
    } else {
        s[k]
    }) by {}
    assert forall|k: int| 0 <= k < s.len() implies #[trigger] n[k] == (if touched(l, 0, k) {
        hex_upper(l[k])
    } else {
        l[k]
    }) by {}
    // The scan touches nothing inside the scheme.
    assert forall|k: int| 0 <= k < sl implies !touched(l, 0, k) by {
        if touched(l, 0, k) {
            lemma_touched_after(l, 0, k);
            let p = choose|p: int| 0 <= p < k && #[trigger] l[p] == '%';
            lemma_char_maps(s[p]);
            assert(uri_scheme(s) is Some);
            let colon = find_char(s, ':', 0);
            lemma_find_char_bounds(s, ':', 0);
            assert(colon == sl);
            assert(is_valid_scheme(s.take(sl)));
            assert(s.take(sl)[p] == s[p]);
            if p > 0 {
                assert(is_scheme_char(s.take(sl)[p]));
            }
        }
    }
    assert(same_shape(s, l)) by {
        assert forall|k: int| 0 <= k < s.len() implies ((#[trigger] s[k] == '%') == (l[k] == '%'))
            && ((s[k] <= '\u{7f}') == (l[k] <= '\u{7f}')) by {
            lemma_char_maps(s[k]);
        }
    }
    assert(same_shape(l, n)) by {
        assert forall|k: int| 0 <= k < l.len() implies ((#[trigger] l[k] == '%') == (n[k] == '%'))
            && ((l[k] <= '\u{7f}') == (n[k] <= '\u{7f}')) by {
            lemma_char_maps(l[k]);
        }
    }
    // The scheme is found at the same place with the same validity.
    assert forall|k: int| 0 <= k < s.len() implies (#[trigger] s[k] == ':') == (n[k] == ':') by {
        lemma_char_maps(s[k]);
        lemma_char_maps(l[k]);
    }
    lemma_find_char_same(s, n, ':', 0);
    let colon = find_char(s, ':', 0);
    lemma_find_char_bounds(s, ':', 0);
    if colon < s.len() {
        let a = s.take(colon);
        let b = n.take(colon);
        assert forall|k: int| 0 <= k < colon implies is_scheme_char(#[trigger] a[k])
            == is_scheme_char(b[k]) && is_ascii_alpha(a[k]) == is_ascii_alpha(b[k]) by {
            lemma_char_maps(s[k]);
            lemma_char_maps(l[k]);
        }
        if is_valid_scheme(a) {
            assert(is_ascii_alpha(b[0]));
            assert forall|k: int| 1 <= k < b.len() implies is_scheme_char(#[trigger] b[k]) by {
                assert(is_scheme_char(a[k]));
            }
        }
        if is_valid_scheme(b) {
            assert(is_ascii_alpha(a[0]));
            assert forall|k: int| 1 <= k < a.len() implies is_scheme_char(#[trigger] a[k]) by {
                assert(is_scheme_char(b[k]));
            }
        }
    }
    assert(scheme_len(n) == sl);
    let l2 = lower_prefix(n, sl);
    lemma_upper_escapes_pointwise(l2, 0);
    assert(same_shape(l, l2)) by {
        assert forall|k: int| 0 <= k < l.len() implies ((#[trigger] l[k] == '%') == (l2[k] == '%'))
            && ((l[k] <= '\u{7f}') == (l2[k] <= '\u{7f}')) by {
            lemma_char_maps(l[k]);
            lemma_char_maps(n[k]);
        }
    }
    assert forall|k: int| 0 <= k < s.len() implies #[trigger] normalized(n)[k] == n[k] by {
        lemma_touched_shape(l, l2, 0, k);
        lemma_char_maps(s[k]);
        lemma_char_maps(l[k]);
    }
    assert(normalized(n) =~= n);
}

fn to_ascii_lower(c: char) -> (r: char)
    ensures
        r == ascii_lower(c),
{
    if 'A' <= c && c <= 'Z' {
        ((c as u8) + 32) as char
    } else {
        c
    }
}

fn to_hex_upper(c: char) -> (r: char)
    ensures
        r == hex_upper(c),
{
    if 'a' <= c && c <= 'f' {
        ((c as u8) - 32) as char
    } else {
        c
    }
}

fn is_alpha(c: char) -> (r: bool)
    ensures
        r == is_ascii_alpha(c),
{
    ('a' <= c && c <= 'z') || ('A' <= c && c <= 'Z')
}

fn find_char_in(v: &[char], c: char, from: usize) -> (r: usize)
    requires
        from <= v.len(),
    ensures
        r == find_char(v@, c, from as int),
        from <= r <= v.len(),
{
    let mut i = from;
    while i < v.len() && v[i] != c
        invariant
            from <= i <= v.len(),
            find_char(v@, c, i as int) == find_char(v@, c, from as int),
        decreases v.len() - i,
    {
        i += 1;
    }
    i
}

/// Whether the first `len` characters of `v` form a valid URI scheme.
fn is_valid_scheme_prefix(v: &[char], len: usize) -> (r: bool)
    requires
        len <= v.len(),
    ensures
        r == is_valid_scheme(v@.take(len as int)),
{
    if len == 0 || !is_alpha(v[0]) {
        return false;
    }
    let mut i: usize = 1;
    while i < len
        invariant
            1 <= i <= len <= v.len(),
            forall|j: int| 1 <= j < i ==> is_scheme_char(#[trigger] v@.take(len as int)[j]),
        decreases len - i,
    {
        let c = v[i];
        if !(is_alpha(c) || ('0' <= c && c <= '9') || c == '+' || c == '-' || c == '.') {
            assert(!is_scheme_char(v@.take(len as int)[i as int]));
            return false;
        }
        i += 1;
    }
    true
}

/// The scheme length of the URI `v`.
fn scheme_len_of(v: &[char]) -> (r: usize)
    ensures
        r == scheme_len(v@),
{
    let colon = find_char_in(v, ':', 0);
    if colon < v.len() && is_valid_scheme_prefix(v, colon) {
        colon
    } else {
        0
    }
}

/// Lowercase the scheme and uppercase percent-encoding hex digits.
fn normalize_uri(uri: &str) -> (r: String)
    ensures
        r@ == normalized(uri@),
{
    let mut v = chars_of(uri);
    let ghost input = v@;
    let scheme = scheme_len_of(&v);
    proof {
        lemma_scheme_len_bounds(input);
    }
    let mut i: usize = 0;
    while i < scheme
        invariant
            scheme <= v.len(),
            v.len() == input.len(),
            scheme == scheme_len(input),
            forall|j: int| 0 <= j < i ==> v@[j] == ascii_lower(input[j]),
            forall|j: int| i <= j < v.len() ==> v@[j] == input[j],
            i <= scheme,
        decreases scheme - i,
    {
        let c = to_ascii_lower(v[i]);
        v.set(i, c);
        i += 1;
    }
    proof {
        assert(v@ =~= lower_prefix(input, scheme_len(input)));
    }
    let ghost lowered = v@;
    let n = v.len();
    i = 0;
    while i < n
        invariant
            n == v.len(),
            upper_escapes_from(lowered, 0) == upper_escapes_from(v@, i as int),
        decreases n - i,
    {
        if v[i] == '%' {
            if i + 1 < n {
                let c1 = v[i + 1];
                let u1 = to_hex_upper(c1);
                v.set(i + 1, u1);
                if c1 <= '\u{7f}' {
                    if i + 2 < n {
                        let u2 = to_hex_upper(v[i + 2]);
                        v.set(i + 2, u2);
                    }
                    if n - i <= 3 {
                        proof {
                            assert(upper_escapes_from(v@, i + 3) == v@);
                        }
                        i = n;
                    } else {
                        i = i + 3;
                    }
                } else {
                    i = i + 2;
                }
            } else {
                i = n;
            }
        } else {
            i += 1;
        }
    }
    string_of(&v)
}

// ---------------------------------------------------------------------------
// File paths.

/// An ASCII byte that `file://` URIs keep unescaped: an RFC 3986
/// unreserved character or the path separator.
pub open spec fn is_kept_path_byte(b: u8) -> bool {
    (0x30 <= b <= 0x39) || (0x41 <= b <= 0x5A) || (0x61 <= b <= 0x7A) || b == 0x2Du8
        || b == 0x2Eu8 || b == 0x5Fu8 || b == 0x7Eu8 || b == 0x2Fu8
}

/// The uppercase hexadecimal digit for `n < 16`.
pub open spec fn hex_digit_char(n: u8) -> char {
    if n < 10 {
        (48 + n) as char
    } else {
        (55 + n) as char
    }
}

/// The URI text for a path's UTF-8 bytes: kept bytes as themselves, every
/// other byte as `%XX` with uppercase hex digits.
pub open spec fn encode_path(bytes: Seq<u8>) -> Seq<char>
    decreases bytes.len(),
{
    if bytes.len() == 0 {
        Seq::empty()
    } else {
        let b = bytes.last();
        encode_path(bytes.drop_last()) + if is_kept_path_byte(b) {
            seq![b as char]
        } else {
            seq!['%', hex_digit_char(b / 16), hex_digit_char(b % 16)]
        }
    }
}

/// The `file://` prefix.
pub open spec fn file_prefix() -> Seq<char> {
    seq!['f', 'i', 'l', 'e', ':', '/', '/']
}

/// The UTF-8 bytes of the `file://` prefix.
pub open spec fn file_prefix_bytes() -> Seq<u8> {
    seq![0x66u8, 0x69u8, 0x6Cu8, 0x65u8, 0x3Au8, 0x2Fu8, 0x2Fu8]
}

/// The `file://` URI of an absolute path with UTF-8 bytes `path`.
pub open spec fn file_uri_of(path: Seq<u8>) -> Seq<char> {
    file_prefix() + encode_path(path)
}

/// The URI text for a Windows path's UTF-8 bytes: as [`encode_path`],
/// except that a `\` separator is written as `/` and a drive's `:` is kept.
pub open spec fn encode_windows_path(bytes: Seq<u8>) -> Seq<char>
    decreases bytes.len(),
{
    if bytes.len() == 0 {
        Seq::empty()
    } else {
        let b = bytes.last();
        encode_windows_path(bytes.drop_last()) + if b == 0x5Cu8 {
            seq!['/']
        } else if b == 0x3Au8 {
            seq![':']
        } else if is_kept_path_byte(b) {
            seq![b as char]
        } else {
            seq!['%', hex_digit_char(b / 16), hex_digit_char(b % 16)]
        }
    }
}

/// The `file://` URI of an absolute Windows path with UTF-8 bytes `path`:
/// a `/` before the path (so `C:\x` becomes `file:///C:/x`), then the
/// path's [`encode_windows_path`].
pub open spec fn windows_file_uri_of(path: Seq<u8>) -> Seq<char> {
    file_prefix() + seq!['/'] + encode_windows_path(path)
}

/// The Windows form of a decoded `file://` path: the `/` before a drive
/// letter (`/C:/x`) dropped, and every `/` written as `\`.
pub open spec fn windows_path(path: Seq<char>) -> Seq<char> {
    let rest = if path.len() >= 3 && path[0] == '/' && is_ascii_alpha(path[1]) && path[2] == ':' {
        path.drop_first()
    } else {
        path
    };
    rest.map_values(|c: char| if c == '/' { '\\' } else { c })
}

/// A decoded `file://` path that starts with a drive (`/`, an ASCII letter
/// of either case, `:`) loses that leading `/` in its Windows form, keeps
/// the drive, and has every later `/` written as `\`: `/c:/Users/a.rs`
/// becomes `c:\Users\a.rs`, as `/C:/Users/a.rs` becomes `C:\Users\a.rs`.
pub proof fn lemma_windows_drive_path(path: Seq<char>)
    requires
        path.len() >= 3,
        path[0] == '/',
        ('a' <= path[1] <= 'z') || ('A' <= path[1] <= 'Z'),
        path[2] == ':',
    ensures
        windows_path(path).len() == path.len() - 1,
        windows_path(path)[0] == path[1],
        windows_path(path)[1] == ':',
        forall|k: int|
            3 <= k < path.len() ==> windows_path(path)[k - 1] == if #[trigger] path[k] == '/' {
                '\\'
            } else {
                path[k]
            },
{
    assert(windows_path(path) =~= path.drop_first().map_values(
        |c: char| if c == '/' { '\\' } else { c },
    ));
}

/// A decoded `file://` path that does not start with a drive keeps every
/// character, in place, in its Windows form, each `/` written as `\`:
/// `/srv/a.rs` becomes `\srv\a.rs`.
pub proof fn lemma_windows_path_without_drive(path: Seq<char>)
    requires
        !(path.len() >= 3 && path[0] == '/' && (('a' <= path[1] <= 'z') || ('A' <= path[1] <= 'Z'))
            && path[2] == ':'),
    ensures
        windows_path(path).len() == path.len(),
        forall|k: int|
            0 <= k < path.len() ==> windows_path(path)[k] == if #[trigger] path[k] == '/' {
                '\\'
            } else {
                path[k]
            },
{
}

/// The value of an ASCII hexadecimal digit byte, if it is one.
pub open spec fn hex_value(b: u8) -> Option<u8> {
    if 0x30 <= b <= 0x39 {
        Some((b - 0x30) as u8)
    } else if 0x41 <= b <= 0x46 {
        Some((b - 0x37) as u8)
    } else if 0x61 <= b <= 0x66 {
        Some((b - 0x57) as u8)
    } else {
        None
    }
}

/// Percent-decode `b` from offset `i`: `None` if an escape there is
/// truncated or not two hexadecimal digits.
pub open spec fn percent_decoded_from(b: Seq<u8>, i: int) -> Option<Seq<u8>>
    decreases b.len() - i,
{
    if i < 0 || i >= b.len() {
        Some(Seq::empty())
    } else if b[i] == 0x25u8 {
        if i + 2 < b.len() && hex_value(b[i + 1]) is Some && hex_value(b[i + 2]) is Some {
            match percent_decoded_from(b, i + 3) {
                Some(rest) => Some(
                    seq![(hex_value(b[i + 1])->0 * 16 + hex_value(b[i + 2])->0) as u8] + rest,
                ),
                None => None,
            }
        } else {
            None
        }
    } else {
        match percent_decoded_from(b, i + 1) {
            Some(rest) => Some(seq![b[i]] + rest),
            None => None,
        }
    }
}

/// ASCII lowercase of a byte.
pub open spec fn byte_lower(b: u8) -> u8 {
    if 0x41 <= b <= 0x5A {
        (b + 32) as u8
    } else {
        b
    }
}

/// The bytes of `localhost`.
pub open spec fn localhost() -> Seq<u8> {
    seq![0x6Cu8, 0x6Fu8, 0x63u8, 0x61u8, 0x6Cu8, 0x68u8, 0x6Fu8, 0x73u8, 0x74u8]
}

/// Whether `a` equals `localhost` ignoring ASCII case.
pub open spec fn is_localhost(a: Seq<u8>) -> bool {
    a.len() == 9 && forall|i: int| 0 <= i < 9 ==> byte_lower(#[trigger] a[i]) == localhost()[i]
}

/// The decoded UTF-8 path bytes of a `file://` URI with bytes `u`: `None`
/// unless `u` starts with `file://`, names no host other than `localhost`,
/// and its path percent-decodes.
pub open spec fn file_path_bytes(u: Seq<u8>) -> Option<Seq<u8>> {
    if u.len() >= 7 && u.take(7) == file_prefix_bytes() {
        let rest = u.skip(7);
        let slash = first_slash(rest, 0);
        let authority = rest.take(slash);
        if authority.len() == 0 || is_localhost(authority) {
            percent_decoded_from(rest.skip(slash), 0)
        } else {
            None
        }
    } else {
        None
    }
}

/// The index of the first `/` byte of `s` at or after `from`, or `s.len()`.
pub open spec fn first_slash(s: Seq<u8>, from: int) -> int
    decreases s.len() - from,
{
    if from >= s.len() {
        s.len() as int
    } else if s[from] == 0x2Fu8 {
        from
    } else {
        first_slash(s, from + 1)
    }
}

/// An uppercase hexadecimal digit character.
spec fn is_upper_hex(c: char) -> bool {
    ('0' <= c <= '9') || ('A' <= c <= 'F')
}

/// What a path encoding looks like: ASCII throughout, and every `%`
/// followed by two uppercase hexadecimal digits.
spec fn well_escaped(e: Seq<char>) -> bool {
    &&& is_ascii_chars(e)
    &&& forall|j: int|
        0 <= j < e.len() && #[trigger] e[j] == '%' ==> j + 2 < e.len() && is_upper_hex(e[j + 1])
            && is_upper_hex(e[j + 2])
}

/// The encoding of one path byte.
spec fn encoded_byte(b: u8) -> Seq<char> {
    if is_kept_path_byte(b) {
        seq![b as char]
    } else {
        seq!['%', hex_digit_char(b / 16), hex_digit_char(b % 16)]
    }
}

proof fn lemma_encoded_byte(b: u8)
    ensures
        well_escaped(encoded_byte(b)),
        encoded_byte(b).len() >= 1,
        is_kept_path_byte(b) ==> encoded_byte(b).len() == 1 && encoded_byte(b)[0] as u8 == b
            && b != 0x25u8,
        !is_kept_path_byte(b) ==> encoded_byte(b).len() == 3 && encoded_byte(b)[0] == '%'
            && hex_value(encoded_byte(b)[1] as u8) == Some(b / 16) && hex_value(
            encoded_byte(b)[2] as u8,
        ) == Some(b % 16),
{
    let e = encoded_byte(b);
    if is_kept_path_byte(b) {
        assert((b as char) as u8 == b);
    } else {
        let h = b / 16;
        let l = b % 16;
        assert(hex_value(hex_digit_char(h) as u8) == Some(h));
        assert(hex_value(hex_digit_char(l) as u8) == Some(l));
        assert(e[0] == '%' && e[1] == hex_digit_char(h) && e[2] == hex_digit_char(l));
    }
}

/// The encoding of a one-byte path is that byte's encoding.
proof fn lemma_encode_single(b: u8)
    ensures
        encode_path(seq![b]) == encoded_byte(b),
{
    assert(seq![b].drop_last() =~= Seq::<u8>::empty());
    assert(encode_path(Seq::<u8>::empty()) =~= Seq::<char>::empty());
    assert(encode_path(seq![b]) =~= encoded_byte(b));
}

/// Encoding a path piece by piece encodes the whole path.
proof fn lemma_encode_path_concat(a: Seq<u8>, b: Seq<u8>)
    ensures
        encode_path(a + b) == encode_path(a) + encode_path(b),
    decreases b.len(),
{
    if b.len() == 0 {
        assert(a + b =~= a);
        assert(encode_path(a) + encode_path(b) =~= encode_path(a));
    } else {
        assert((a + b).drop_last() =~= a + b.drop_last());
        lemma_encode_path_concat(a, b.drop_last());
        assert(encode_path(a) + encode_path(b) =~= encode_path(a) + encode_path(b.drop_last())
            + encoded_byte(b.last()));
    }
}

/// Concatenating well-escaped pieces keeps them well escaped.
proof fn lemma_well_escaped_concat(x: Seq<char>, y: Seq<char>)
    requires
        well_escaped(x),
        well_escaped(y),
    ensures
        well_escaped(x + y),
{
    let z = x + y;
    assert forall|j: int| 0 <= j < z.len() && #[trigger] z[j] == '%' implies j + 2 < z.len()
        && is_upper_hex(z[j + 1]) && is_upper_hex(z[j + 2]) by {
        if j < x.len() {
            assert(x[j] == '%');
        } else {
            assert(y[j - x.len()] == '%');
        }
    }
    assert forall|i: int| 0 <= i < z.len() implies '\0' <= #[trigger] z[i] <= '\u{7f}' by {
        if i < x.len() {
            assert(z[i] == x[i]);
        } else {
            assert(z[i] == y[i - x.len()]);
        }
    }
}

/// A path's encoding is well escaped.
proof fn lemma_encode_path_well_escaped(b: Seq<u8>)
    ensures
        well_escaped(encode_path(b)),
    decreases b.len(),
{
    if b.len() > 0 {
        lemma_encode_path_well_escaped(b.drop_last());
        lemma_encoded_byte(b.last());
        lemma_well_escaped_concat(encode_path(b.drop_last()), encoded_byte(b.last()));
    }
}

/// Percent-decoding the ASCII bytes of a path's encoding gives the path.
proof fn lemma_decode_encoded_path(q: Seq<u8>, y: Seq<u8>)
    requires
        y.len() == encode_path(q).len(),
        forall|i: int| 0 <= i < y.len() ==> #[trigger] y[i] == encode_path(q)[i] as u8,
    ensures
        percent_decoded_from(y, 0) == Some(q),
    decreases q.len(),
{
    if q.len() == 0 {
    } else {
        let b = q[0];
        let rest = q.drop_first();
        assert(q =~= seq![b] + rest);
        lemma_encode_path_concat(seq![b], rest);
        lemma_encode_single(b);
        let e = encoded_byte(b);
        lemma_encoded_byte(b);
        let n = e.len() as int;
        let tail = y.skip(n);
        assert forall|i: int| 0 <= i < tail.len() implies #[trigger] tail[i] == encode_path(
            rest,
        )[i] as u8 by {
            assert(tail[i] == y[i + n]);
            assert(encode_path(q)[i + n] == encode_path(rest)[i]);
        }
        lemma_decode_encoded_path(rest, tail);
        lemma_percent_decoded_shift(y, n, 0);
        assert(y[0] == e[0] as u8);
        if is_kept_path_byte(b) {
            assert(seq![y[0]] + rest =~= q);
        } else {
            assert(y[1] == e[1] as u8 && y[2] == e[2] as u8);
            assert((b / 16) * 16 + b % 16 == b);
            assert(seq![(hex_value(y[1])->0 * 16 + hex_value(y[2])->0) as u8] + rest =~= q);
        }
    }
}

/// Uppercasing escapes changes nothing in text whose escapes hold no
/// lowercase hexadecimal digit.
proof fn lemma_upper_escapes_unchanged(s: Seq<char>, i: int)
    requires
        forall|j: int|
            0 <= j < s.len() && #[trigger] s[j] == '%' ==> (j + 1 < s.len() ==> !('a' <= s[j + 1]
                <= 'f')) && (j + 2 < s.len() ==> !('a' <= s[j + 2] <= 'f')),
    ensures
        upper_escapes_from(s, i) == s,
    decreases s.len() + 3 - i,
{
    if 0 <= i < s.len() {
        if s[i] == '%' {
            if i + 1 < s.len() {
                let s1 = s.update(i + 1, hex_upper(s[i + 1]));
                assert(s1 =~= s);
                if s[i + 1] <= '\u{7f}' {
                    let s2 = if i + 2 < s.len() {
                        s1.update(i + 2, hex_upper(s1[i + 2]))
                    } else {
                        s1
                    };
                    assert(s2 =~= s);
                    lemma_upper_escapes_unchanged(s, i + 3);
                } else {
                    lemma_upper_escapes_unchanged(s, i + 2);
                }
            }
        } else {
            lemma_upper_escapes_unchanged(s, i + 1);
        }
    }
}

/// `file://` followed by well-escaped text is in normal form: its scheme is
/// lowercase and its escapes' digits are uppercase.
proof fn lemma_file_text_normal(x: Seq<char>)
    requires
        well_escaped(x),
    ensures
        normalized(file_prefix() + x) == file_prefix() + x,
{
    let s = file_prefix() + x;
    assert(well_escaped(file_prefix()));
    lemma_well_escaped_concat(file_prefix(), x);
    assert(s[0] == 'f' && s[1] == 'i' && s[2] == 'l' && s[3] == 'e' && s[4] == ':');
    assert(find_char(s, ':', 4) == 4);
    assert(find_char(s, ':', 3) == 4);
    assert(find_char(s, ':', 2) == 4);
    assert(find_char(s, ':', 1) == 4);
    assert(find_char(s, ':', 0) == 4);
    assert(s.take(4) =~= seq!['f', 'i', 'l', 'e']);
    assert(is_valid_scheme(s.take(4)));
    assert(scheme_len(s) == 4);
    assert(lower_prefix(s, 4) =~= s);
    lemma_upper_escapes_unchanged(s, 0);
}

/// A Windows path's encoding is well escaped.
proof fn lemma_encode_windows_path_well_escaped(b: Seq<u8>)
    ensures
        well_escaped(encode_windows_path(b)),
    decreases b.len(),
{
    if b.len() > 0 {
        lemma_encode_windows_path_well_escaped(b.drop_last());
        let c = b.last();
        let piece = if c == 0x5Cu8 {
            seq!['/']
        } else if c == 0x3Au8 {
            seq![':']
        } else {
            encoded_byte(c)
        };
        lemma_encoded_byte(c);
        assert(well_escaped(piece));
        assert(encode_windows_path(b) =~= encode_windows_path(b.drop_last()) + piece);
        lemma_well_escaped_concat(encode_windows_path(b.drop_last()), piece);
    }
}

/// The `file://` URIs this module writes for a path, by either platform's
/// rules, are in normal form: building a [`Uri`] from one changes nothing.
pub proof fn lemma_file_uris_normal(path: Seq<u8>)
    ensures
        normalized(file_uri_of(path)) == file_uri_of(path),
        normalized(windows_file_uri_of(path)) == windows_file_uri_of(path),
{
    lemma_encode_path_well_escaped(path);
    lemma_file_text_normal(encode_path(path));
    lemma_encode_windows_path_well_escaped(path);
    assert(well_escaped(seq!['/']));
    lemma_well_escaped_concat(seq!['/'], encode_windows_path(path));
    lemma_file_text_normal(seq!['/'] + encode_windows_path(path));
    assert(file_prefix() + seq!['/'] + encode_windows_path(path) =~= file_prefix() + (seq!['/']
        + encode_windows_path(path)));
}

/// The `file://` URI of an absolute Unix path (one that starts with `/`)
/// is already in normal form, and reading its path back gives the path's
/// bytes: turning a path into a URI and back is the identity.
pub proof fn lemma_file_uri_round_trip(path: Seq<u8>)
    requires
        path.len() > 0,
        path[0] == 0x2Fu8,
    ensures
        normalized(file_uri_of(path)) == file_uri_of(path),
        file_path_bytes(encode_utf8(file_uri_of(path))) == Some(path),
{
    let e = encode_path(path);
    let s = file_uri_of(path);
    lemma_file_uris_normal(path);
    lemma_encode_path_well_escaped(path);
    lemma_well_escaped_concat(file_prefix(), e);
    // The bytes are the characters, one each.
    is_ascii_chars_encode_utf8(s);
    let u = encode_utf8(s);
    assert(u.take(7) =~= file_prefix_bytes());
    let rest = u.skip(7);
    assert(path =~= seq![path[0]] + path.drop_first());
    lemma_encode_path_concat(seq![path[0]], path.drop_first());
    lemma_encode_single(path[0]);
    assert(is_kept_path_byte(0x2Fu8));
    assert((0x2Fu8 as char) == '/');
    assert(e[0] == '/');
    assert(rest[0] == 0x2Fu8);
    assert(first_slash(rest, 0) == 0);
    assert(rest.take(0) =~= Seq::<u8>::empty());
    assert(rest.skip(0) =~= rest);
    assert forall|i: int| 0 <= i < rest.len() implies #[trigger] rest[i] == e[i] as u8 by {
        assert(rest[i] == u[i + 7]);
        assert(s[i + 7] == e[i]);
    }
    lemma_decode_encoded_path(path, rest);
}

/// Turning an absolute Unix path into a `file://` URI and back gives the
/// path: [`Uri::file_uri_for`] by the Unix rules makes a URI already in
/// normal form, and [`Uri::file_path_for`] by the same rules reads the
/// path's own text back from it.
pub proof fn lemma_unix_path_round_trip(path: &str)
    requires
        path.spec_bytes().len() > 0,
        path.spec_bytes()[0] == 0x2Fu8,
    ensures
        normalized(file_uri_of(path.spec_bytes())) == file_uri_of(path.spec_bytes()),
        file_path_bytes(encode_utf8(file_uri_of(path.spec_bytes()))) == Some(path.spec_bytes()),
        valid_utf8(path.spec_bytes()),
        decode_utf8(path.spec_bytes()) == path@,
{
    lemma_file_uri_round_trip(path.spec_bytes());
    vstd::utf8::encode_utf8_valid_utf8(path@);
    vstd::utf8::encode_utf8_decode_utf8(path@);
}

/// `std::path::PathBuf`, carried through opaquely.
#[verifier::external_type_specification]
#[verifier::external_body]
pub struct ExPathBuf(std::path::PathBuf);

/// Whether a path's bytes can name an absolute path on some platform: they
/// start with a root separator (`/` or `\`), or their second byte is the
/// `:` of a drive prefix such as `C:`.
pub open spec fn may_be_absolute(path: Seq<u8>) -> bool {
    path.len() > 0 && (path[0] == 0x2Fu8 || path[0] == 0x5Cu8 || (path.len() >= 2 && path[1]
        == 0x3Au8))
}

/// Whether `path` is absolute, by `std::path::Path::is_absolute`. What
/// counts as absolute depends on the target platform: on Unix a path that
/// starts with the root `/`, on Windows one with a prefix (`C:`, or one of
/// the `\\`-led forms) and a root. Either way an absolute path
/// [`may_be_absolute`]; which such paths are absolute is not claimed.
#[verifier::external_body]
fn path_is_absolute(path: &str) -> (r: bool)
    ensures
        r ==> may_be_absolute(path.spec_bytes()),
{
    std::path::Path::new(path).is_absolute()
}

/// The platform's main path separator, `std::path::MAIN_SEPARATOR`: `\`
/// on Windows, `/` elsewhere. What it is on the target is not claimed.
#[verifier::external_body]
fn main_separator() -> char {
    std::path::MAIN_SEPARATOR
}

/// Whether paths follow the Windows rules on this platform (its main
/// separator is `\`).
fn windows_paths() -> bool {
    main_separator() == '\\'
}

/// The Windows form of a decoded `file://` path (see [`windows_path`]):
/// `/C:/x` becomes `C:\x`.
pub fn windows_path_text(path: &str) -> (r: String)
    ensures
        r@ == windows_path(path@),
{
    let chars = chars_of(path);
    let n = chars.len();
    let from: usize = if n >= 3 && chars[0] == '/' && (('a' <= chars[1] && chars[1] <= 'z') || (
    'A' <= chars[1] && chars[1] <= 'Z')) && chars[2] == ':' {
        1
    } else {
        0
    };
    let ghost rest = chars@.skip(from as int);
    let mut out = String::new();
    let mut i: usize = from;
    proof {
        assert(rest.take(0).map_values(|c: char| if c == '/' { '\\' } else { c }) =~= Seq::<
            char,
        >::empty());
    }
    while i < n
        invariant
            from <= i <= n,
            n == chars@.len(),
            rest == chars@.skip(from as int),
            out@ == rest.take(i - from).map_values(|c: char| if c == '/' { '\\' } else { c }),
        decreases n - i,
    {
        let c = chars[i];
        let mapped = if c == '/' {
            '\\'
        } else {
            c
        };
        string_push(&mut out, mapped);
        proof {
            assert(rest.take(i + 1 - from) =~= rest.take(i - from).push(c));
            assert(rest.take(i + 1 - from).map_values(|c: char| if c == '/' { '\\' } else { c })
                =~= rest.take(i - from).map_values(|c: char| if c == '/' { '\\' } else { c }).push(
                mapped,
            ));
        }
        i += 1;
    }
    proof {
        assert(rest.take(n - from) =~= rest);
        assert(from == 1 ==> rest =~= path@.drop_first());
        assert(from == 0 ==> rest =~= path@);
    }
    out
}

/// The path that `std::path::PathBuf::from` makes of a string with these
/// characters (it takes the string's buffer over as the path's).
pub uninterp spec fn path_buf_of(s: Seq<char>) -> std::path::PathBuf;

/// `std::path::PathBuf::from(s)`: the path is [`path_buf_of`] the string's
/// characters.
#[verifier::external_body]
fn path_buf_from(s: String) -> (r: std::path::PathBuf)
    ensures
        r == path_buf_of(s@),
{
    std::path::PathBuf::from(s)
}

/// `String::from_utf8`: the string decoded from `bytes` exactly when they
/// are valid UTF-8.
#[verifier::external_body]
fn string_from_utf8(bytes: Vec<u8>) -> (r: Option<String>)
    ensures
        r is Some <==> valid_utf8(bytes@),
        r matches Some(s) ==> s@ == decode_utf8(bytes@),
{
    String::from_utf8(bytes).ok()
}

fn hex_digit(n: u8) -> (r: char)
    requires
        n < 16,
    ensures
        r == hex_digit_char(n),
{
    if n < 10 {
        (48 + n) as char
    } else {
        (55 + n) as char
    }
}

/// Append `b` to `out`, percent-encoding it unless it is an unreserved
/// ASCII character or a path separator.
fn encode_path_byte(out: &mut String, b: u8)
    ensures
        final(out)@ == old(out)@ + if is_kept_path_byte(b) {
            seq![b as char]
        } else {
            seq!['%', hex_digit_char(b / 16), hex_digit_char(b % 16)]
        },
{
    let keep = (0x30 <= b && b <= 0x39) || (0x41 <= b && b <= 0x5A) || (0x61 <= b && b <= 0x7A)
        || b == 0x2D || b == 0x2E || b == 0x5F || b == 0x7E || b == 0x2F;
    if keep {
        string_push(out, b as char);
        proof {
            assert(old(out)@.push(b as char) =~= old(out)@ + seq![b as char]);
        }
    } else {
        let ghost before = out@;
        string_push(out, '%');
        string_push(out, hex_digit(b / 16));
        string_push(out, hex_digit(b % 16));
        proof {
            assert(out@ =~= before + seq!['%', hex_digit_char(b / 16), hex_digit_char(b % 16)]);
        }
    }
}

fn hex_value_of(b: u8) -> (r: Option<u8>)
    ensures
        r == hex_value(b),
{
    if 0x30 <= b && b <= 0x39 {
        Some(b - 0x30)
    } else if 0x41 <= b && b <= 0x46 {
        Some(b - 0x37)
    } else if 0x61 <= b && b <= 0x66 {
        Some(b - 0x57)
    } else {
        None
    }
}

/// Percent-decode `bytes[from..]`, returning `None` on a malformed escape.
fn percent_decode(bytes: &[u8], from: usize) -> (r: Option<Vec<u8>>)
    requires
        from <= bytes.len(),
    ensures
        match r {
            Some(v) => percent_decoded_from(bytes@, from as int) == Some(v@),
            None => percent_decoded_from(bytes@, from as int) is None,
        },
{
    let ghost b = bytes@;
    let mut out: Vec<u8> = Vec::new();
    let mut i = from;
    while i < bytes.len()
        invariant
            b == bytes@,
            from <= i <= bytes.len() + 2,
            percent_decoded_from(b, from as int) == match percent_decoded_from(b, i as int) {
                Some(rest) => Some(out@ + rest),
                None => None::<Seq<u8>>,
            },
        decreases bytes.len() + 2 - i,
    {
        if bytes[i] == 0x25 {
            if bytes.len() - i > 2 {
                let hi = hex_value_of(bytes[i + 1]);
                let lo = hex_value_of(bytes[i + 2]);
                match (hi, lo) {
                    (Some(h), Some(l)) => {
                        let ghost old_out = out@;
                        out.push(h * 16 + l);
                        proof {
                            let rest = percent_decoded_from(b, i + 3);
                            if let Some(r) = rest {
                                assert(old_out + (seq![(h * 16 + l) as u8] + r) =~= out@ + r);
                            }
                        }
                        i = i + 3;
                    },
                    _ => {
                        return None;
                    },
                }
            } else {
                return None;
            }
        } else {
            let ghost old_out = out@;
            out.push(bytes[i]);
            proof {
                let rest = percent_decoded_from(b, i + 1);
                if let Some(r) = rest {
                    assert(old_out + (seq![b[i as int]] + r) =~= out@ + r);
                }
            }
            i = i + 1;
        }
    }
    proof {
        assert(out@ + Seq::<u8>::empty() =~= out@);
    }
    Some(out)
}

/// Decoding a suffix from its start agrees with decoding the whole from
/// that offset.
proof fn lemma_percent_decoded_skip(b: Seq<u8>, k: int)
    requires
        0 <= k <= b.len(),
    ensures
        percent_decoded_from(b.skip(k), 0) == percent_decoded_from(b, k),
{
    lemma_percent_decoded_shift(b, k, 0);
}

proof fn lemma_percent_decoded_shift(b: Seq<u8>, k: int, i: int)
    requires
        0 <= k <= b.len(),
        0 <= i,
    ensures
        percent_decoded_from(b.skip(k), i) == percent_decoded_from(b, k + i),
    decreases b.len() - k - i,
{
    if k + i < b.len() {
        lemma_percent_decoded_shift(b, k, i + 1);
        if k + i + 3 <= b.len() {
            lemma_percent_decoded_shift(b, k, i + 3);
        }
    }
}

/// A document URI, e.g. `file:///home/user/main.rs`, normalized on
/// construction (scheme lowercased, percent-encoding hex digits
/// uppercased) so that differently-spelled equivalents compare equal.
/// Path case is left untouched.
#[derive(Debug, Hash, PartialOrd, Ord)]
pub struct Uri(String);

impl View for Uri {
    type V = Seq<char>;

    closed spec fn view(&self) -> Seq<char> {
        self.0@
    }
}

impl PartialEq for Uri {
    fn eq(&self, other: &Self) -> (r: bool) {
        self.0 == other.0
    }
}

impl Eq for Uri {}

impl vstd::std_specs::cmp::PartialEqSpecImpl for Uri {
    open spec fn obeys_eq_spec() -> bool {
        true
    }

    open spec fn eq_spec(&self, other: &Self) -> bool {
        self@ == other@
    }
}

impl PartialEq<str> for Uri {
    fn eq(&self, other: &str) -> (r: bool) {
        str_eq(self.0.as_str(), other)
    }
}

impl vstd::std_specs::cmp::PartialEqSpecImpl<str> for Uri {
    open spec fn obeys_eq_spec() -> bool {
        true
    }

    open spec fn eq_spec(&self, other: &str) -> bool {
        self@ == other@
    }
}

impl PartialEq<&str> for Uri {
    fn eq(&self, other: &&str) -> (r: bool) {
        str_eq(self.0.as_str(), *other)
    }
}

impl vstd::std_specs::cmp::PartialEqSpecImpl<&str> for Uri {
    open spec fn obeys_eq_spec() -> bool {
        true
    }

    open spec fn eq_spec(&self, other: &&str) -> bool {
        self@ == other@
    }
}

impl PartialEq<String> for Uri {
    fn eq(&self, other: &String) -> (r: bool) {
        str_eq(self.0.as_str(), other.as_str())
    }
}

impl vstd::std_specs::cmp::PartialEqSpecImpl<String> for Uri {
    open spec fn obeys_eq_spec() -> bool {
        true
    }

    open spec fn eq_spec(&self, other: &String) -> bool {
        self@ == other@
    }
}

impl PartialEq<Uri> for str {
    fn eq(&self, other: &Uri) -> (r: bool) {
        str_eq(self, other.0.as_str())
    }
}

impl vstd::std_specs::cmp::PartialEqSpecImpl<Uri> for str {
    open spec fn obeys_eq_spec() -> bool {
        true
    }

    open spec fn eq_spec(&self, other: &Uri) -> bool {
        self@ == other@
    }
}

impl PartialEq<Uri> for &str {
    fn eq(&self, other: &Uri) -> (r: bool) {
        str_eq(*self, other.0.as_str())
    }
}

impl vstd::std_specs::cmp::PartialEqSpecImpl<Uri> for &str {
    open spec fn obeys_eq_spec() -> bool {
        true
    }

    open spec fn eq_spec(&self, other: &Uri) -> bool {
        self@ == other@
    }
}

impl std::convert::AsRef<str> for Uri {
    fn as_ref(&self) -> (r: &str)
        ensures
            r@ == self@,
    {
        self.0.as_str()
    }
}

impl std::borrow::Borrow<str> for Uri {
    fn borrow(&self) -> (r: &str)
        ensures
            ({
                let s: &str = r;
                s@ == self@
            }),
    {
        self.0.as_str()
    }
}

impl std::ops::Deref for Uri {
    type Target = str;

    fn deref(&self) -> (r: &str)
        ensures
            r@ == self@,
    {
        self.0.as_str()
    }
}

impl Clone for Uri {
    fn clone(&self) -> (r: Uri)
        ensures
            r@ == self@,
    {
        self.duplicate()
    }
}

impl Default for Uri {
    /// The empty URI.
    fn default() -> (r: Uri)
        ensures
            r@ == Seq::<char>::empty(),
    {
        let empty = String::new();
        proof {
            let e = Seq::<char>::empty();
            assert(find_char(e, ':', 0) == 0);
            assert(scheme_len(e) == 0);
            assert(lower_prefix(e, 0) =~= e);
            assert(normalized(e) =~= e);
        }
        Uri(empty)
    }
}

impl Uri {
    /// Every URI is in normal form.
    #[verifier::type_invariant]
    spec fn is_normal(self) -> bool {
        normalized(self.0@) == self.0@
    }

    /// Build a URI from a string, normalizing it.
    pub fn new(uri: &str) -> (r: Uri)
        ensures
            r@ == normalized(uri@),
            normalized(r@) == r@,
    {
        proof {
            lemma_normalized_idempotent(uri@);
        }
        Uri(normalize_uri(uri))
    }

    /// A second, equal URI.
    pub(crate) fn duplicate(&self) -> (r: Uri)
        ensures
            r@ == self@,
    {
        proof {
            use_type_invariant(self);
        }
        Uri(self.0.clone())
    }

    /// The URI as a string slice: its normal form.
    pub fn as_str(&self) -> (r: &str)
        ensures
            r@ == self@,
            normalized(r@) == r@,
    {
        proof {
            use_type_invariant(self);
        }
        self.0.as_str()
    }

    /// The URI's scheme (e.g. `"file"`), if it has a syntactically valid
    /// one.
    pub fn scheme(&self) -> (r: Option<&str>)
        ensures
            match r {
                Some(scheme) => uri_scheme(self@) == Some(scheme@),
                None => uri_scheme(self@) is None,
            },
    {
        let v = chars_of(self.0.as_str());
        let colon = find_char_in(&v, ':', 0);
        if colon < v.len() && is_valid_scheme_prefix(&v, colon) {
            Some(self.0.as_str().substring_char(0, colon))
        } else {
            None
        }
    }

    /// Build a `file://` URI from an absolute filesystem path,
    /// percent-encoding characters as needed (on Windows, `\` separators
    /// become `/` and a `/` goes before the drive). Returns `None` for a
    /// relative path. Whether a path is absolute, and which rules apply, is
    /// decided by the platform; [`Uri::file_uri_for`] states the result for
    /// each answer.
    pub fn from_file_path(path: &str) -> (r: Option<Uri>)
        ensures
            !may_be_absolute(path.spec_bytes()) ==> r is None,
            r matches Some(uri) ==> uri@ == file_uri_of(path.spec_bytes()) || uri@
                == windows_file_uri_of(path.spec_bytes()),
    {
        let absolute = path_is_absolute(path);
        let windows = windows_paths();
        Uri::file_uri_for(path, absolute, windows)
    }

    /// The `file://` URI of `path` when `absolute` says the path is
    /// absolute, `None` otherwise; written by the Windows rules when
    /// `windows` says so.
    pub fn file_uri_for(path: &str, absolute: bool, windows: bool) -> (r: Option<Uri>)
        ensures
            r is Some <==> absolute,
            r matches Some(uri) ==> uri@ == if windows {
                windows_file_uri_of(path.spec_bytes())
            } else {
                file_uri_of(path.spec_bytes())
            },
    {
        if !absolute {
            return None;
        }
        let bytes = path.as_bytes();
        let ghost head = if windows {
            file_prefix() + seq!['/']
        } else {
            file_prefix()
        };
        let mut out = String::new();
        string_push(&mut out, 'f');
        string_push(&mut out, 'i');
        string_push(&mut out, 'l');
        string_push(&mut out, 'e');
        string_push(&mut out, ':');
        string_push(&mut out, '/');
        string_push(&mut out, '/');
        if windows {
            string_push(&mut out, '/');
        }
        proof {
            assert(bytes@.take(0) =~= Seq::<u8>::empty());
            assert(out@ =~= head + Seq::<char>::empty());
        }
        let mut i: usize = 0;
        while i < bytes.len()
            invariant
                i <= bytes.len(),
                out@ == head + if windows {
                    encode_windows_path(bytes@.take(i as int))
                } else {
                    encode_path(bytes@.take(i as int))
                },
            decreases bytes.len() - i,
        {
            let b = bytes[i];
            proof {
                assert(bytes@.take(i + 1).drop_last() =~= bytes@.take(i as int));
                assert(bytes@.take(i + 1).last() == b);
            }
            if windows && b == 0x5C {
                string_push(&mut out, '/');
            } else if windows && b == 0x3A {
                string_push(&mut out, ':');
            } else {
                encode_path_byte(&mut out, b);
            }
            proof {
                if windows {
                    assert(out@ =~= head + encode_windows_path(bytes@.take(i + 1)));
                } else {
                    assert(out@ =~= head + encode_path(bytes@.take(i + 1)));
                }
            }
            i += 1;
        }
        proof {
            assert(bytes@.take(bytes.len() as int) =~= bytes@);
            lemma_file_uris_normal(bytes@);
        }
        Some(Uri(out))
    }

    /// The decoded path of a `file://` URI as a string: `None` if the URI
    /// is not a `file` URI, names a remote host, or its path does not
    /// percent-decode to valid UTF-8.
    pub fn file_path_string(&self) -> (r: Option<String>)
        ensures
            match r {
                Some(path) => file_path_bytes(encode_utf8(self@)) matches Some(bytes) && valid_utf8(
                    bytes,
                ) && path@ == decode_utf8(bytes),
                None => file_path_bytes(encode_utf8(self@)) matches Some(bytes) ==> !valid_utf8(
                    bytes,
                ),
            },
    {
        let bytes = self.0.as_str().as_bytes();
        let ghost u = bytes@;
        let n = bytes.len();
        if n < 7 || !(bytes[0] == 0x66 && bytes[1] == 0x69 && bytes[2] == 0x6C && bytes[3] == 0x65
            && bytes[4] == 0x3A && bytes[5] == 0x2F && bytes[6] == 0x2F) {
            return None;
        }
        proof {
            assert(u.take(7) =~= file_prefix_bytes());
        }
        let mut slash: usize = 7;
        while slash < n && bytes[slash] != 0x2F
            invariant
                7 <= slash <= n,
                n == u.len(),
                u == bytes@,
                first_slash(u.skip(7), slash - 7) == first_slash(u.skip(7), 0),
            decreases n - slash,
        {
            slash += 1;
        }
        let ghost rest = u.skip(7);
        proof {
            assert(first_slash(rest, slash - 7) == slash - 7);
        }
        let authority_len = slash - 7;
        let mut is_local = authority_len == 0;
        if authority_len == 9 {
            let lh: [u8; 9] = [0x6C, 0x6F, 0x63, 0x61, 0x6C, 0x68, 0x6F, 0x73, 0x74];
            let mut j: usize = 0;
            let mut same = true;
            while j < 9
                invariant
                    j <= 9,
                    slash == 16,
                    n == u.len(),
                    u == bytes@,
                    slash <= n,
                    lh@ == localhost(),
                    same == forall|k: int| 0 <= k < j ==> byte_lower(#[trigger] u[7 + k]) == localhost()[k],
                decreases 9 - j,
            {
                let b = bytes[7 + j];
                let lower = if 0x41 <= b && b <= 0x5A {
                    b + 32
                } else {
                    b
                };
                same = same && lower == lh[j];
                j += 1;
            }
            proof {
                if same {
                    assert forall|k: int| 0 <= k < 9 implies byte_lower(#[trigger] rest.take(9)[k])
                        == localhost()[k] by {
                        assert(rest.take(9)[k] == u[7 + k]);
                    }
                } else {
                    let k = choose|k: int| 0 <= k < 9 && byte_lower(#[trigger] u[7 + k]) != localhost()[k];
                    assert(rest.take(9)[k] == u[7 + k]);
                }
            }
            is_local = same;
        }
        if !is_local {
            return None;
        }
        let decoded = percent_decode(bytes, slash);
        proof {
            assert(rest.skip(slash - 7) =~= u.skip(slash as int));
            lemma_percent_decoded_skip(u, slash as int);
        }
        match decoded {
            Some(v) => string_from_utf8(v),
            None => None,
        }
    }

    /// Convert a `file://` URI back to a filesystem path, percent-decoding
    /// as needed. Returns `None` if the URI is not a `file` URI, names a
    /// remote host, or decodes to invalid UTF-8 (see
    /// [`Uri::file_path_string`] for the decoded text).
    /// On Windows the decoded path takes its Windows form
    /// ([`windows_path_text`]); which rules apply is decided by the platform.
    pub fn to_file_path(&self) -> (r: Option<std::path::PathBuf>)
        ensures
            r is Some <==> (file_path_bytes(encode_utf8(self@)) matches Some(bytes) && valid_utf8(
                bytes,
            )),
            r matches Some(p) ==> (file_path_bytes(encode_utf8(self@)) matches Some(bytes) && (p
                == path_buf_of(decode_utf8(bytes)) || p == path_buf_of(
                windows_path(decode_utf8(bytes)),
            ))),
    {
        self.file_path_for(windows_paths())
    }

    /// The filesystem path of a `file://` URI, by the Windows rules when
    /// `windows` says so (see [`Uri::to_file_path`]).
    pub fn file_path_for(&self, windows: bool) -> (r: Option<std::path::PathBuf>)
        ensures
            match file_path_bytes(encode_utf8(self@)) {
                Some(bytes) => if valid_utf8(bytes) {
                    r == Some(
                        path_buf_of(
                            if windows {
                                windows_path(decode_utf8(bytes))
                            } else {
                                decode_utf8(bytes)
                            },
                        ),
                    )
                } else {
                    r is None
                },
                None => r is None,
            },
    {
        match self.file_path_string() {
            Some(path) => {
                let text = if windows {
                    windows_path_text(path.as_str())
                } else {
                    path
                };
                Some(path_buf_from(text))
            },
            None => None,
        }
    }

    /// Consume the URI, returning the underlying string.
    pub fn into_string(self) -> (r: String)
        ensures
            r@ == self@,
            normalized(r@) == r@,
    {
        proof {
            use_type_invariant(&self);
        }
        self.0
    }
}


/// A zero-based position inside a text document. `character` is measured
/// in the negotiated position encoding (UTF-16 code units by default).
#[derive(Debug, Clone, Copy, PartialEq, Eq, Hash, Structural)]
pub struct Position {
    /// Zero-based line number.
    pub line: u32,
    /// Zero-based column within the line, in code units.
    pub character: u32,
}

impl Position {
    /// Construct a position from a line and character offset.
    pub fn new(line: u32, character: u32) -> (r: Self)
        ensures
            r.line == line,
            r.character == character,
    {
        Position { line, character }
    }
}

/// A contiguous range `[start, end)` within a document.
#[derive(Debug, Clone, Copy, PartialEq, Eq, Hash, Structural)]
pub struct Range {
    /// The range's start position (inclusive).
    pub start: Position,
    /// The range's end position (exclusive).
    pub end: Position,
}

impl Range {
    /// Construct a range from explicit start/end positions.
    pub fn new(start: Position, end: Position) -> (r: Self)
        ensures
            r.start == start,
            r.end == end,
    {
        Range { start, end }
    }
}

/// A location: a [`Range`] within a specific document.
#[derive(Debug, Clone, PartialEq, Eq, Hash)]
pub struct Location {
    /// The document URI.
    pub uri: Uri,
    /// The range within that document.
    pub range: Range,
}

/// Identifies a text document by URI.
#[derive(Debug, Clone, PartialEq, Eq, Hash)]
pub struct TextDocumentIdentifier {
    /// The document URI.
    pub uri: Uri,
}

/// Identifies a text document together with the version it is expected to
/// be at.
#[derive(Debug, Clone, PartialEq, Eq, Hash)]
pub struct VersionedTextDocumentIdentifier {
    /// The document URI.
    pub uri: Uri,
    /// The version number after the associated change was applied.
    pub version: i32,
}

/// An item representing a document the client just opened.
#[derive(Debug, Clone, PartialEq, Eq, Hash)]
pub struct TextDocumentItem {
    /// The document URI.
    pub uri: Uri,
    /// The document's language identifier (e.g. `"rust"`).
    pub language_id: String,
    /// The version number of this document.
    pub version: i32,
    /// The full content of the opened document.
    pub text: String,
}

/// A document and a position inside it.
#[derive(Debug, Clone, PartialEq, Eq, Hash)]
pub struct TextDocumentPositionParams {
    /// The document the request applies to.
    pub text_document: TextDocumentIdentifier,
    /// The position inside that document.
    pub position: Position,
}

} // verus!
