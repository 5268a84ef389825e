//! Character-level helpers: whitespace classification and the
//! case-insensitive method test, shared by the request-line parser and the
//! method gate.

use vstd::prelude::*;

verus! {

/// ASCII whitespace: the separators a request line may contain between its
/// tokens (space, tab, line feed, vertical tab, form feed, carriage return).
pub open spec fn is_ws(c: char) -> bool {
    c == ' ' || c == '\t' || c == '\n' || c == '\u{b}' || c == '\u{c}' || c == '\r'
}

/// True when the method token spells "GET", case-insensitively.
pub open spec fn is_get_token(m: Seq<char>) -> bool {
    m.len() == 3 && (m[0] == 'G' || m[0] == 'g') && (m[1] == 'E' || m[1] == 'e') && (m[2] == 'T'
        || m[2] == 't')
}

/// Executable whitespace test.
pub fn char_is_ws(c: char) -> (r: bool)
    ensures
        r == is_ws(c),
{
    c == ' ' || c == '\t' || c == '\n' || c == '\u{b}' || c == '\u{c}' || c == '\r'
}

/// Case-insensitive test for the method token "GET".
pub fn is_get(m: &str) -> (r: bool)
    ensures
        r == is_get_token(m@),
{
    let n = m.unicode_len();
    if n != 3 {
        return false;
    }
    let c0 = m.get_char(0);
    let c1 = m.get_char(1);
    let c2 = m.get_char(2);
    (c0 == 'G' || c0 == 'g') && (c1 == 'E' || c1 == 'e') && (c2 == 'T' || c2 == 't')
}

} // verus!
