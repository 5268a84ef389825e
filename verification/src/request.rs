//! Request-line parsing: splitting `METHOD PATH VERSION` on whitespace.
//!
//! A line with fewer than three whitespace-separated tokens is malformed and
//! yields no request; anything after the third token is ignored.

use vstd::prelude::*;
use crate::ascii::char_is_ws;
use crate::ascii::is_ws;

verus! {

/// Index of the first non-whitespace character at or after `i`, or the
/// length of `s` if every remaining character is whitespace.
pub open spec fn skip_ws(s: Seq<char>, i: int) -> int
    decreases s.len() - i,
{
    if i < 0 || i >= s.len() {
        s.len() as int
    } else if is_ws(s[i]) {
        skip_ws(s, i + 1)
    } else {
        i
    }
}

/// Index of the first whitespace character at or after `i`, or the length of
/// `s` if the token runs to the end.
pub open spec fn token_end(s: Seq<char>, i: int) -> int
    decreases s.len() - i,
{
    if i < 0 || i >= s.len() {
        s.len() as int
    } else if !is_ws(s[i]) {
        token_end(s, i + 1)
    } else {
        i
    }
}

/// The three tokens of a request line: the bounds of the method, path and
/// version, each a maximal run of non-whitespace characters. `None` when the
/// line holds fewer than three tokens.
pub open spec fn parse_spec(s: Seq<char>) -> Option<(Seq<char>, Seq<char>, Seq<char>)> {
    let m0 = skip_ws(s, 0);
    let m1 = token_end(s, m0);
    let p0 = skip_ws(s, m1);
    let p1 = token_end(s, p0);
    let v0 = skip_ws(s, p1);
    let v1 = token_end(s, v0);
    if v0 < s.len() {
        Some((s.subrange(m0, m1), s.subrange(p0, p1), s.subrange(v0, v1)))
    } else {
        None
    }
}

/// A parsed request line.
pub struct RequestLine {
    pub method: String,
    pub path: String,
    pub version: String,
}

/// First non-whitespace position at or after `i`.
pub fn skip_ws_from(s: &str, i: usize) -> (r: usize)
    requires
        i <= s@.len(),
    ensures
        r as int == skip_ws(s@, i as int),
        i <= r <= s@.len(),
    decreases s@.len() - i,
{
    if i == s.unicode_len() {
        i
    } else if char_is_ws(s.get_char(i)) {
        skip_ws_from(s, i + 1)
    } else {
        i
    }
}

/// First whitespace position at or after `i`.
pub fn token_end_from(s: &str, i: usize) -> (r: usize)
    requires
        i <= s@.len(),
    ensures
        r as int == token_end(s@, i as int),
        i <= r <= s@.len(),
    decreases s@.len() - i,
{
    if i == s.unicode_len() {
        i
    } else if !char_is_ws(s.get_char(i)) {
        token_end_from(s, i + 1)
    } else {
        i
    }
}

/// Splits a request line into its method, path and version tokens; `None`
/// when fewer than three tokens are present.
pub fn parse_request_line(line: &str) -> (r: Option<RequestLine>)
    ensures
        match r {
            Some(rl) => parse_spec(line@) matches Some(t) && rl.method@ == t.0 && rl.path@ == t.1
                && rl.version@ == t.2,
            None => parse_spec(line@) is None,
        },
{
    let n = line.unicode_len();
    let m0 = skip_ws_from(line, 0);
    let m1 = token_end_from(line, m0);
    let p0 = skip_ws_from(line, m1);
    let p1 = token_end_from(line, p0);
    let v0 = skip_ws_from(line, p1);
    if v0 == n {
        return None;
    }
    let v1 = token_end_from(line, v0);
    let method = line.substring_char(m0, m1).to_owned();
    let path = line.substring_char(p0, p1).to_owned();
    let version = line.substring_char(v0, v1).to_owned();
    Some(RequestLine { method, path, version })
}

} // verus!
