//! Splitting a request target into its path and its decoded query
//! parameters, and reading typed values out of those parameters.
use vstd::prelude::*;
use vstd::utf8::*;
use vstd::string::*;

use crate::text::{chars_of, parse_u64_chars, parse_u64_spec, string_from_chars, trim_chars, trim_spec};


verus! {

pub const QUESTION_MARK: u8 = 0x3f;

pub const AMPERSAND: u8 = 0x26;

pub const EQUALS_SIGN: u8 = 0x3d;

pub const PERCENT_SIGN: u8 = 0x25;

/// Position of the first `sep` in `s`, or the length of `s` when there is none.
pub open spec fn first_index(s: Seq<u8>, sep: u8) -> nat
    decreases s.len(),
{
    if s.len() == 0 || s[0] == sep {
        0
    } else {
        1 + first_index(s.drop_first(), sep)
    }
}

pub open spec fn is_hex_digit(b: u8) -> bool {
    (0x30 <= b && b <= 0x39) || (0x41 <= b && b <= 0x46) || (0x61 <= b && b <= 0x66)
}

pub open spec fn hex_value(b: u8) -> u8 {
    if 0x30 <= b && b <= 0x39 {
        (b - 0x30) as u8
    } else if 0x41 <= b && b <= 0x46 {
        (b - 0x41 + 10) as u8
    } else {
        (b - 0x61 + 10) as u8
    }
}

/// Percent-decoding: every `%` followed by two hex digits stands for the byte
/// they spell; every other byte, a lone `%` included, stands for itself.
pub open spec fn percent_decode(b: Seq<u8>) -> Seq<u8>
    decreases b.len(),
{
    if b.len() == 0 {
        seq![]
    } else if b.len() >= 3 && b[0] == PERCENT_SIGN && is_hex_digit(b[1]) && is_hex_digit(b[2]) {
        seq![(hex_value(b[1]) * 16 + hex_value(b[2])) as u8] + percent_decode(b.skip(3))
    } else {
        seq![b[0]] + percent_decode(b.skip(1))
    }
}

/// The text that a sequence of bytes encodes as UTF-8, or nothing when the
/// bytes are not UTF-8.
pub open spec fn utf8_text(b: Seq<u8>) -> Option<Seq<char>> {
    if valid_utf8(b) {
        Some(decode_utf8(b))
    } else {
        None
    }
}

/// A query component after decoding: the percent-decoded text when that is
/// UTF-8, else the raw text, else empty.
pub open spec fn decode_component(raw: Seq<u8>) -> Seq<char> {
    match utf8_text(percent_decode(raw)) {
        Some(t) => t,
        None => match utf8_text(raw) {
            Some(t) => t,
            None => seq![],
        },
    }
}

/// One `key=value` segment; a segment without `=` has an empty value.
pub open spec fn segment_pair(seg: Seq<u8>) -> (Seq<char>, Seq<char>) {
    let k = first_index(seg, EQUALS_SIGN);
    let value = if k < seg.len() {
        seg.skip(k + 1int)
    } else {
        seq![]
    };
    (decode_component(seg.take(k as int)), decode_component(value))
}

/// The pairs of a query string, in order; empty segments are skipped.
pub open spec fn query_pairs(q: Seq<u8>) -> Seq<(Seq<char>, Seq<char>)>
    decreases q.len(),
{
    if q.len() == 0 {
        seq![]
    } else {
        let k = first_index(q, AMPERSAND);
        let seg = q.take(k as int);
        let rest = if k < q.len() {
            query_pairs(q.skip(k + 1int))
        } else {
            seq![]
        };
        if seg.len() == 0 {
            rest
        } else {
            seq![segment_pair(seg)] + rest
        }
    }
}

/// The value of the last pair whose key is `key`.
pub open spec fn last_value(pairs: Seq<(Seq<char>, Seq<char>)>, key: Seq<char>) -> Option<
    Seq<char>,
>
    decreases pairs.len(),
{
    if pairs.len() == 0 {
        None
    } else if pairs.last().0 == key {
        Some(pairs.last().1)
    } else {
        last_value(pairs.drop_last(), key)
    }
}

/// The decoded query parameters of a request, in the order they came.
pub struct QueryParams {
    pub pairs: Vec<(String, String)>,
}

pub open spec fn pair_view(p: (String, String)) -> (Seq<char>, Seq<char>) {
    (p.0@, p.1@)
}

impl View for QueryParams {
    type V = Seq<(Seq<char>, Seq<char>)>;

    open spec fn view(&self) -> Seq<(Seq<char>, Seq<char>)> {
        self.pairs@.map_values(|p: (String, String)| pair_view(p))
    }
}

impl QueryParams {
    /// The value given for `key`; where a key comes more than once the last
    /// one counts.
    pub fn get(&self, key: &str) -> (r: Option<&String>)
        ensures
            match r {
                Some(v) => last_value(self@, key@) == Some(v@),
                None => last_value(self@, key@) is None,
            },
    {
        let wanted = key.to_owned();
        let mut i = self.pairs.len();
        assert(self@.take(i as int) =~= self@);
        while i > 0
            invariant
                i <= self.pairs@.len(),
                wanted@ == key@,
                last_value(self@, key@) == last_value(self@.take(i as int), key@),
            decreases i,
        {
            let ghost prefix = self@.take(i as int);
            assert(prefix.last() == pair_view(self.pairs@[i - 1]));
            if self.pairs[i - 1].0 == wanted {
                return Some(&self.pairs[i - 1].1);
            }
            assert(prefix.drop_last() =~= self@.take(i - 1));
            i = i - 1;
        }
        None
    }
}

/// Converts bytes to text when they are UTF-8.
///
/// Trusted: `std::str::from_utf8` returns `Ok` exactly when the bytes are
/// valid UTF-8, and the string it returns consists of those same bytes.
#[verifier::external_body]
fn str_from_utf8(bytes: &[u8]) -> (r: Option<&str>)
    ensures
        r is Some <==> valid_utf8(bytes@),
        r matches Some(s) ==> s.spec_bytes() == bytes@,
{
    std::str::from_utf8(bytes).ok()
}

/// The text of `bytes` when they are UTF-8.
fn text_of_bytes(bytes: &[u8]) -> (r: Option<String>)
    ensures
        match r {
            Some(s) => utf8_text(bytes@) == Some(s@),
            None => utf8_text(bytes@) is None,
        },
{
    match str_from_utf8(bytes) {
        Some(s) => {
            proof {
                encode_utf8_decode_utf8(s@);
            }
            Some(s.to_owned())
        },
        None => None,
    }
}

fn is_hex(b: u8) -> (r: bool)
    ensures
        r == is_hex_digit(b),
{
    (0x30 <= b && b <= 0x39) || (0x41 <= b && b <= 0x46) || (0x61 <= b && b <= 0x66)
}

fn hex_of(b: u8) -> (r: u8)
    requires
        is_hex_digit(b),
    ensures
        r == hex_value(b),
        r < 16,
{
    if 0x30 <= b && b <= 0x39 {
        b - 0x30
    } else if 0x41 <= b && b <= 0x46 {
        b - 0x41 + 10
    } else {
        b - 0x61 + 10
    }
}

/// Percent-decodes `b[from..to]`.
pub fn percent_decode_bytes(b: &[u8], from: usize, to: usize) -> (r: Vec<u8>)
    requires
        from <= to <= b@.len(),
    ensures
        r@ == percent_decode(b@.subrange(from as int, to as int)),
{
    let mut out: Vec<u8> = Vec::new();
    let mut i = from;
    while i < to
        invariant
            from <= i <= to <= b@.len(),
            out@ + percent_decode(b@.subrange(i as int, to as int)) == percent_decode(
                b@.subrange(from as int, to as int),
            ),
        decreases to - i,
    {
        let ghost rest = b@.subrange(i as int, to as int);
        if to - i >= 3 && b[i] == PERCENT_SIGN && is_hex(b[i + 1]) && is_hex(b[i + 2]) {
            let hi = hex_of(b[i + 1]);
            let lo = hex_of(b[i + 2]);
            out.push(hi * 16 + lo);
            assert(rest.skip(3) =~= b@.subrange(i + 3, to as int));
            i = i + 3;
        } else {
            out.push(b[i]);
            assert(rest.skip(1) =~= b@.subrange(i + 1, to as int));
            i = i + 1;
        }
        assert(out@ + percent_decode(b@.subrange(i as int, to as int)) =~= percent_decode(
            b@.subrange(from as int, to as int),
        ));
    }
    assert(out@ + percent_decode(b@.subrange(i as int, to as int)) =~= out@);
    out
}

fn copy_range(b: &[u8], from: usize, to: usize) -> (r: Vec<u8>)
    requires
        from <= to <= b@.len(),
    ensures
        r@ == b@.subrange(from as int, to as int),
{
    let mut out: Vec<u8> = Vec::new();
    let mut i = from;
    while i < to
        invariant
            from <= i <= to <= b@.len(),
            out@ == b@.subrange(from as int, i as int),
        decreases to - i,
    {
        out.push(b[i]);
        i = i + 1;
        assert(out@ =~= b@.subrange(from as int, i as int));
    }
    out
}

/// Decodes the query component `b[from..to]`.
pub fn decode_component_bytes(b: &[u8], from: usize, to: usize) -> (r: String)
    requires
        from <= to <= b@.len(),
    ensures
        r@ == decode_component(b@.subrange(from as int, to as int)),
{
    let decoded = percent_decode_bytes(b, from, to);
    match text_of_bytes(decoded.as_slice()) {
        Some(s) => s,
        None => {
            let raw = copy_range(b, from, to);
            match text_of_bytes(raw.as_slice()) {
                Some(s) => s,
                None => String::new(),
            }
        },
    }
}

/// Position of the first `sep` in `b[from..to]` (or `to`).
pub fn find_byte(b: &[u8], from: usize, to: usize, sep: u8) -> (k: usize)
    requires
        from <= to <= b@.len(),
    ensures
        from <= k <= to,
        k - from == first_index(b@.subrange(from as int, to as int), sep),
{
    let mut k = from;
    while k < to && b[k] != sep
        invariant
            from <= k <= to <= b@.len(),
            forall|j: int| from <= j < k ==> b@[j] != sep,
        decreases to - k,
    {
        k = k + 1;
    }
    proof {
        lemma_first_index_at(b@.subrange(from as int, to as int), sep, (k - from) as int);
    }
    k
}

/// `first_index` is the position before which no separator occurs and at
/// which one does (or the end).
pub proof fn lemma_first_index_at(s: Seq<u8>, sep: u8, k: int)
    requires
        0 <= k <= s.len(),
        forall|j: int| 0 <= j < k ==> s[j] != sep,
        k < s.len() ==> s[k] == sep,
    ensures
        first_index(s, sep) == k,
    decreases k,
{
    if k > 0 {
        let t = s.drop_first();
        assert forall|j: int| 0 <= j < k - 1 implies t[j] != sep by {
            assert(t[j] == s[j + 1]);
        }
        lemma_first_index_at(t, sep, k - 1);
    }
}

pub proof fn lemma_first_index_bound(s: Seq<u8>, sep: u8)
    ensures
        first_index(s, sep) <= s.len(),
        first_index(s, sep) < s.len() ==> s[first_index(s, sep) as int] == sep,
        forall|j: int| 0 <= j < first_index(s, sep) ==> s[j] != sep,
    decreases s.len(),
{
    if s.len() > 0 && s[0] != sep {
        lemma_first_index_bound(s.drop_first(), sep);
        assert forall|j: int| 0 <= j < first_index(s, sep) implies s[j] != sep by {
            if j > 0 {
                assert(s[j] == s.drop_first()[j - 1]);
            }
        }
    }
}

/// The path of a request target and the spec of its query pairs.
pub open spec fn target_path(url: Seq<u8>) -> Seq<char> {
    match utf8_text(url.take(first_index(url, QUESTION_MARK) as int)) {
        Some(t) => t,
        None => seq![],
    }
}

pub open spec fn target_query(url: Seq<u8>) -> Seq<u8> {
    let k = first_index(url, QUESTION_MARK);
    if k < url.len() {
        url.skip(k + 1int)
    } else {
        seq![]
    }
}

/// Splits a request target at its first `?` into the path and the decoded
/// query pairs (`&`-separated `key=value`, percent-decoded).
pub fn split_path_and_query(url: &str) -> (r: (String, QueryParams))
    ensures
        r.0@ == target_path(url.spec_bytes()),
        r.1@ == query_pairs(target_query(url.spec_bytes())),
{
    let b = url.as_bytes();
    let n = b.len();
    let q = find_byte(b, 0, n, QUESTION_MARK);
    proof {
        assert(b@.subrange(0, n as int) =~= b@);
    }
    let path_bytes = copy_range(b, 0, q);
    let path = match text_of_bytes(path_bytes.as_slice()) {
        Some(s) => s,
        None => String::new(),
    };
    let start = if q < n {
        q + 1
    } else {
        n
    };
    proof {
        if q < n {
            assert(target_query(b@) =~= b@.subrange(start as int, n as int));
        } else {
            assert(target_query(b@) =~= b@.subrange(start as int, n as int));
        }
    }
    let mut pairs: Vec<(String, String)> = Vec::new();
    let mut i = start;
    while i < n
        invariant
            start <= i <= n,
            n == b@.len(),
            pairs@.map_values(|p: (String, String)| pair_view(p)) + query_pairs(
                b@.subrange(i as int, n as int),
            ) == query_pairs(b@.subrange(start as int, n as int)),
        decreases n - i,
    {
        let ghost rest = b@.subrange(i as int, n as int);
        let k = find_byte(b, i, n, AMPERSAND);
        if k > i {
            let e = find_byte(b, i, k, EQUALS_SIGN);
            let key = decode_component_bytes(b, i, e);
            let value_start = if e < k {
                e + 1
            } else {
                k
            };
            let value = decode_component_bytes(b, value_start, k);
            proof {
                let seg = rest.take(k - i);
                assert(seg =~= b@.subrange(i as int, k as int));
                assert(seg.take(e - i) =~= b@.subrange(i as int, e as int));
                if e < k {
                    assert(seg.skip(e - i + 1) =~= b@.subrange(value_start as int, k as int));
                } else {
                    assert(b@.subrange(value_start as int, k as int) =~= seq![]);
                }
                assert(segment_pair(seg) == (key@, value@));
            }
            pairs.push((key, value));
        }
        let next = if k < n {
            k + 1
        } else {
            n
        };
        proof {
            lemma_first_index_bound(rest, AMPERSAND);
            if k < n {
                assert(rest.skip(k - i + 1) =~= b@.subrange(next as int, n as int));
            } else {
                assert(b@.subrange(next as int, n as int) =~= seq![]);
            }
            assert(rest.take(k - i) =~= b@.subrange(i as int, k as int));
        }
        assert(pairs@.map_values(|p: (String, String)| pair_view(p)) + query_pairs(
            b@.subrange(next as int, n as int),
        ) =~= query_pairs(b@.subrange(start as int, n as int)));
        i = next;
    }
    assert(pairs@.map_values(|p: (String, String)| pair_view(p)) + query_pairs(
        b@.subrange(i as int, n as int),
    ) =~= pairs@.map_values(|p: (String, String)| pair_view(p)));
    (path, QueryParams { pairs })
}

/// A parameter's value with surrounding whitespace removed, when something
/// is left.
pub open spec fn nonblank(v: Option<Seq<char>>) -> Option<Seq<char>> {
    match v {
        Some(raw) => if trim_spec(raw).len() > 0 {
            Some(trim_spec(raw))
        } else {
            None
        },
        None => None,
    }
}

/// The trimmed value of parameter `key`, or `None` when it is missing or blank.
pub fn trimmed_param(params: &QueryParams, key: &str) -> (r: Option<String>)
    ensures
        match r {
            Some(v) => nonblank(last_value(params@, key@)) == Some(v@),
            None => nonblank(last_value(params@, key@)) is None,
        },
{
    match params.get(key) {
        Some(raw) => {
            let chars = chars_of(raw.as_str());
            let trimmed = trim_chars(chars.as_slice());
            if trimmed.len() > 0 {
                Some(string_from_chars(trimmed.as_slice()))
            } else {
                None
            }
        },
        None => None,
    }
}

/// The value of parameter `key` when it is present and not blank; unlike
/// `trimmed_param` the value keeps its surrounding whitespace.
pub open spec fn present_untrimmed(v: Option<Seq<char>>) -> Option<Seq<char>> {
    match v {
        Some(raw) => if trim_spec(raw).len() > 0 {
            Some(raw)
        } else {
            None
        },
        None => None,
    }
}

pub fn untrimmed_param(params: &QueryParams, key: &str) -> (r: Option<String>)
    ensures
        match r {
            Some(v) => present_untrimmed(last_value(params@, key@)) == Some(v@),
            None => present_untrimmed(last_value(params@, key@)) is None,
        },
{
    match params.get(key) {
        Some(raw) => {
            let chars = chars_of(raw.as_str());
            let trimmed = trim_chars(chars.as_slice());
            if trimmed.len() > 0 {
                Some(raw.clone())
            } else {
                None
            }
        },
        None => None,
    }
}

/// A number read the way `value.trim().parse::<u64>()` reads it.
pub open spec fn trimmed_u64(raw: Option<Seq<char>>) -> Option<u64> {
    match raw {
        Some(v) => parse_u64_spec(trim_spec(v)),
        None => None,
    }
}

pub open spec fn min_u64(a: u64, b: u64) -> u64 {
    if a <= b {
        a
    } else {
        b
    }
}

/// How long a shell event stream waits for a change: the `wait_ms` value
/// when it is a number, else 0, and never more than 5000.
pub open spec fn sse_wait_spec(raw: Option<Seq<char>>) -> u64 {
    match trimmed_u64(raw) {
        Some(n) => min_u64(n, 5000),
        None => 0,
    }
}

fn trimmed_u64_of(raw: &str) -> (r: Option<u64>)
    ensures
        r == parse_u64_spec(trim_spec(raw@)),
{
    let chars = chars_of(raw);
    let trimmed = trim_chars(chars.as_slice());
    parse_u64_chars(trimmed.as_slice())
}

pub fn parse_sse_wait_ms(raw: Option<&str>) -> (r: u64)
    ensures
        r == sse_wait_spec(
            match raw {
                Some(v) => Some(v@),
                None => None,
            },
        ),
        r <= 5000,
{
    let parsed = match raw {
        Some(v) => trimmed_u64_of(v),
        None => None,
    };
    match parsed {
        Some(n) => if n <= 5000 {
            n
        } else {
            5000
        },
        None => 0,
    }
}

/// A `limit` parameter: the number given (when it parses and fits in
/// `usize`), else `default`, and never more than `max`.
pub open spec fn limit_spec(raw: Option<Seq<char>>, default: usize, max: usize) -> usize {
    let chosen: int = match trimmed_u64(raw) {
        Some(n) => if n <= usize::MAX {
            n as int
        } else {
            default as int
        },
        None => default as int,
    };
    if chosen <= max {
        chosen as usize
    } else {
        max
    }
}

pub fn query_limit(params: &QueryParams, default: usize, max: usize) -> (r: usize)
    ensures
        r == limit_spec(last_value(params@, "limit"@), default, max),
        r <= max,
{
    let raw = params.get("limit");
    let parsed = match raw {
        Some(v) => trimmed_u64_of(v.as_str()),
        None => None,
    };
    let chosen: usize = match parsed {
        Some(n) => if n <= usize::MAX as u64 {
            n as usize
        } else {
            default
        },
        None => default,
    };
    if chosen <= max {
        chosen
    } else {
        max
    }
}

} // verus!
