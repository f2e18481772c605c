//! The container health probe: which local endpoint it asks, on which port,
//! and which answers count as healthy (a bounded JSON body, status 200, no
//! redirect).

use vstd::prelude::*;
use crate::text::{chars_of, decimal, push_chars, push_str, string_from_chars};

verus! {

/// Largest probe body accepted, in bytes.
pub const MAX_PROBE_BODY: usize = 65536;
/// The port probed when none is configured.
pub const DEFAULT_PROBE_PORT: u16 = 7020;

#[derive(Debug, Clone, Copy, PartialEq, Eq)]
pub enum ProbeTarget {
    Health,
    Ready,
}

impl ProbeTarget {
    pub open spec fn spec_path(self) -> &'static str {
        match self {
            ProbeTarget::Health => "/health",
            ProbeTarget::Ready => "/ready",
        }
    }

    pub fn path(self) -> (r: &'static str)
        ensures
            r == self.spec_path(),
    {
        match self {
            ProbeTarget::Health => "/health",
            ProbeTarget::Ready => "/ready",
        }
    }
}

/// The value of an ASCII decimal digit.
pub open spec fn digit_value(c: char) -> int {
    (c as u32) - 48
}

pub open spec fn is_ascii_digit(c: char) -> bool {
    48 <= (c as u32) <= 57
}

/// The number that the digits `s[0..n]` spell.
pub open spec fn digits_value(s: Seq<char>, n: int) -> int
    decreases n,
{
    if n <= 0 {
        0
    } else {
        digits_value(s, n - 1) * 10 + digit_value(s[n - 1])
    }
}

/// The digits after an optional leading `+`.
pub open spec fn unsigned_body(s: Seq<char>) -> Seq<char> {
    if s.len() > 0 && s[0] == '+' {
        s.drop_first()
    } else {
        s
    }
}

/// One or more ASCII digits whose value fits in 16 bits.
pub open spec fn digits_u16(body: Seq<char>) -> Option<u16> {
    if body.len() == 0 || exists|i: int| 0 <= i < body.len() && !is_ascii_digit(#[trigger] body[i]) {
        None
    } else if digits_value(body, body.len() as int) > u16::MAX {
        None
    } else {
        Some(digits_value(body, body.len() as int) as u16)
    }
}

/// What `str::parse::<u16>` accepts: an optional `+`, then one or more ASCII
/// digits whose value fits in 16 bits.
pub open spec fn parse_u16_of(s: Seq<char>) -> Option<u16> {
    digits_u16(unsigned_body(s))
}

proof fn lemma_digits_value_monotone(s: Seq<char>, n: int)
    requires
        0 <= n <= s.len(),
        forall|i: int| 0 <= i < s.len() ==> is_ascii_digit(#[trigger] s[i]),
    ensures
        digits_value(s, n) >= 0,
        forall|m: int| 0 <= m <= n ==> #[trigger] digits_value(s, m) <= digits_value(s, n),
    decreases n,
{
    if n > 0 {
        lemma_digits_value_monotone(s, n - 1);
        assert(is_ascii_digit(s[n - 1]));
        assert(digit_value(s[n - 1]) >= 0);
        assert(digits_value(s, n) >= digits_value(s, n - 1));
    }
}

/// `str::parse::<u16>`.
pub fn parse_u16(text: &str) -> (r: Option<u16>)
    ensures
        r == parse_u16_of(text@),
{
    let v = chars_of(text);
    let start: usize = if v.len() > 0 && v[0] == '+' {
        1
    } else {
        0
    };
    let ghost body = unsigned_body(text@);
    if v.len() == start {
        return None;
    }
    let mut value: u32 = 0;
    let mut i: usize = start;
    while i < v.len()
        invariant
            v@ == text@,
            start <= i <= v@.len(),
            body == v@.subrange(start as int, v@.len() as int),
            body == unsigned_body(text@),
            forall|k: int| 0 <= k < i - start ==> is_ascii_digit(#[trigger] body[k]),
            value == digits_value(body, i - start),
            value <= u16::MAX,
        decreases v.len() - i,
    {
        let c = v[i];
        let code: u32 = c as u32;
        assert(body[i - start] == c);
        if !(48 <= code && code <= 57) {
            assert(!is_ascii_digit(body[i - start]));
            assert(0 <= i - start < body.len());
            assert(exists|k: int| 0 <= k < body.len() && !is_ascii_digit(#[trigger] body[k]));
            assert(parse_u16_of(text@) is None);
            return None;
        }
        let next: u32 = value * 10 + (code - 48);
        if next > 65535 {
            proof {
                assert(digits_value(body, i - start + 1) == next);
                let all_digits = forall|k: int| 0 <= k < body.len() ==> is_ascii_digit(#[trigger] body[k]);
                if all_digits {
                    lemma_digits_value_monotone(body, body.len() as int);
                    assert(digits_value(body, i - start + 1) <= digits_value(body, body.len() as int));
                }
                assert(parse_u16_of(text@) is None);
            }
            return None;
        }
        value = next;
        i = i + 1;
    }
    Some(value as u16)
}

/// The port to probe: the default when none is configured, the configured
/// one when it is a non-zero 16-bit number, else none (the probe fails).
pub fn probe_port(configured: Option<&str>) -> (r: Option<u16>)
    ensures
        match configured {
            None => r == Some(DEFAULT_PROBE_PORT),
            Some(t) => r == (match parse_u16_of(t@) {
                Some(p) => if p != 0 {
                    Some(p)
                } else {
                    None
                },
                None => None,
            }),
        },
{
    match configured {
        None => Some(DEFAULT_PROBE_PORT),
        Some(t) => match parse_u16(t) {
            Some(p) => if p != 0 {
                Some(p)
            } else {
                None
            },
            None => None,
        },
    }
}

/// The loopback URL the probe asks.
pub open spec fn probe_url_text(port: u16, target: ProbeTarget) -> Seq<char> {
    "http://127.0.0.1:"@ + decimal(port as nat) + target.spec_path()@
}

pub fn probe_url(port: u16, target: ProbeTarget) -> (r: String)
    ensures
        r@ == probe_url_text(port, target),
{
    let mut out: Vec<char> = Vec::new();
    push_str(&mut out, "http://127.0.0.1:");
    push_chars(&mut out, &crate::text::decimal_u128(port as u128));
    push_str(&mut out, target.path());
    string_from_chars(&out)
}

/// A probe answer is worth reading: status 200 (so no redirect), a JSON
/// content type, and no declared length beyond the bound.
pub open spec fn response_acceptable_spec(
    status: u16,
    content_type: Option<Seq<char>>,
    content_length: Option<u64>,
) -> bool {
    &&& status == 200
    &&& (content_type == Some("application/json"@) || content_type == Some(
        "application/json; charset=utf-8"@,
    ))
    &&& !(content_length matches Some(n) && n > MAX_PROBE_BODY)
}

pub fn response_acceptable(status: u16, content_type: Option<&str>, content_length: Option<u64>) -> (r: bool)
    ensures
        r == response_acceptable_spec(
            status,
            match content_type {
                Some(t) => Some(t@),
                None => None,
            },
            content_length,
        ),
{
    let type_ok = match content_type {
        Some(t) => crate::text::str_eq(t, "application/json") || crate::text::str_eq(
            t,
            "application/json; charset=utf-8",
        ),
        None => false,
    };
    let length_ok = match content_length {
        Some(n) => n <= MAX_PROBE_BODY as u64,
        None => true,
    };
    status == 200 && type_ok && length_ok
}

/// The body read so far.
#[derive(Debug, Clone, Copy, PartialEq, Eq)]
pub struct ProbeBody {
    pub received: usize,
}

impl ProbeBody {
    pub fn new() -> (r: Self)
        ensures
            r.received == 0,
    {
        ProbeBody { received: 0 }
    }

    /// Takes one more chunk if the body stays within the bound; a chunk
    /// that would pass it is refused and the probe fails.
    pub fn accept(&mut self, chunk_len: usize) -> (r: bool)
        ensures
            r == (old(self).received + chunk_len <= MAX_PROBE_BODY),
            r ==> final(self).received == old(self).received + chunk_len,
            !r ==> *final(self) == *old(self),
    {
        let total = self.received.saturating_add(chunk_len);
        if total <= MAX_PROBE_BODY {
            self.received = total;
            true
        } else {
            false
        }
    }
}

/// Whether `serde_json` reads the bytes as one JSON value.
pub uninterp spec fn json_parses_of(bytes: Seq<u8>) -> bool;

/// `serde_json::from_slice::<serde_json::Value>` succeeds on the bytes; the
/// result is named by `json_parses_of`.
#[verifier::external_body]
pub(crate) fn body_is_json(body: &[u8]) -> (r: bool)
    ensures
        r == json_parses_of(body@),
{
    serde_json::from_slice::<serde_json::Value>(body).is_ok()
}

/// A complete probe body is healthy when it is within the bound and is JSON.
pub fn body_healthy(body: &[u8]) -> (r: bool)
    ensures
        r == (body@.len() <= MAX_PROBE_BODY && json_parses_of(body@)),
{
    body.len() <= MAX_PROBE_BODY && body_is_json(body)
}

} // verus!
