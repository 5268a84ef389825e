//! The route table and response rendering: status lines, the fixed bodies,
//! the decimal `Content-Length` value, and the full response text.

use vstd::prelude::*;
use vstd::utf8::encode_utf8;
use vstd::utf8::is_ascii_chars;
use vstd::utf8::is_ascii_chars_encode_utf8;

verus! {

/// Status of a response; only these three ever leave the server.
#[derive(PartialEq, Eq, Structural, Clone, Copy, Debug)]
pub enum StatusCode {
    Success,
    NotFound,
    MethodNotAllowed,
}

/// Where a request path lands in the route table.
#[derive(PartialEq, Eq, Structural, Clone, Copy, Debug)]
pub enum Route {
    Root,
    Slow,
    Unknown,
}

/// The path of the root route.
pub open spec fn root_path() -> Seq<char> {
    seq!['/']
}

/// The path of the deliberately slow route.
pub open spec fn slow_path() -> Seq<char> {
    seq!['/', 's', 'l', 'o', 'w']
}

/// The body served for the root route.
pub open spec fn root_body() -> Seq<char> {
    seq!['{', '"', 's', 't', 'a', 't', 'u', 's', '"', ':', ' ', '"', 'o', 'k', '"', '}']
}

/// The route table: `/` and `/slow` are known, everything else is not.
pub open spec fn route_spec(p: Seq<char>) -> Route {
    if p == root_path() {
        Route::Root
    } else if p == slow_path() {
        Route::Slow
    } else {
        Route::Unknown
    }
}

/// Looks a path up in the route table.
pub fn route_of(path: &str) -> (r: Route)
    ensures
        r == route_spec(path@),
{
    let n = path.unicode_len();
    if n == 1 && path.get_char(0) == '/' {
        proof {
            assert(path@ =~= root_path());
        }
        Route::Root
    } else if n == 5 && path.get_char(0) == '/' && path.get_char(1) == 's' && path.get_char(2)
        == 'l' && path.get_char(3) == 'o' && path.get_char(4) == 'w' {
        proof {
            assert(path@ =~= slow_path());
        }
        Route::Slow
    } else {
        Route::Unknown
    }
}

/// The character for one decimal digit.
pub open spec fn digit_char(d: int) -> char {
    if d == 0 {
        '0'
    } else if d == 1 {
        '1'
    } else if d == 2 {
        '2'
    } else if d == 3 {
        '3'
    } else if d == 4 {
        '4'
    } else if d == 5 {
        '5'
    } else if d == 6 {
        '6'
    } else if d == 7 {
        '7'
    } else if d == 8 {
        '8'
    } else {
        '9'
    }
}

/// The value of one decimal digit character.
pub open spec fn digit_val(c: char) -> nat {
    if c == '0' {
        0
    } else if c == '1' {
        1
    } else if c == '2' {
        2
    } else if c == '3' {
        3
    } else if c == '4' {
        4
    } else if c == '5' {
        5
    } else if c == '6' {
        6
    } else if c == '7' {
        7
    } else if c == '8' {
        8
    } else {
        9
    }
}

/// The decimal rendering of `n`, most significant digit first, no leading
/// zeros (except for `n == 0` itself).
pub open spec fn dec_spec(n: nat) -> Seq<char>
    decreases n,
{
    if n < 10 {
        seq![digit_char(n as int)]
    } else {
        dec_spec(n / 10).push(digit_char((n % 10) as int))
    }
}

/// The numeric value of a digit string, most significant digit first.
pub open spec fn dec_val(s: Seq<char>) -> nat
    decreases s.len(),
{
    if s.len() == 0 {
        0
    } else {
        dec_val(s.drop_last()) * 10 + digit_val(s.last())
    }
}

/// Reading the decimal rendering of a number back gives that number: the
/// rendering is faithful, so an advertised length means what it says.
pub proof fn lemma_dec_round_trip(n: nat)
    ensures
        dec_val(dec_spec(n)) == n,
    decreases n,
{
    if n < 10 {
        let s = dec_spec(n);
        assert(s.drop_last() =~= Seq::<char>::empty());
        assert(s.last() == digit_char(n as int));
        assert(digit_val(digit_char(n as int)) == n);
        assert(dec_val(s) == dec_val(s.drop_last()) * 10 + digit_val(s.last()));
    } else {
        lemma_dec_round_trip(n / 10);
        let s = dec_spec(n);
        assert(s =~= dec_spec(n / 10).push(digit_char((n % 10) as int)));
        assert(s.drop_last() =~= dec_spec(n / 10));
        assert(s.last() == digit_char((n % 10) as int));
        assert(digit_val(digit_char((n % 10) as int)) == n % 10);
        assert(dec_val(s) == dec_val(s.drop_last()) * 10 + digit_val(s.last()));
        assert((n / 10) * 10 + n % 10 == n);
    }
}

/// The one-character string for a decimal digit.
fn digit_str(d: usize) -> (r: &'static str)
    requires
        d < 10,
    ensures
        r@ == seq![digit_char(d as int)],
{
    if d == 0 {
        proof {
            reveal_strlit("0");
            assert(("0")@ =~= seq![digit_char(0)]);
        }
        "0"
    } else if d == 1 {
        proof {
            reveal_strlit("1");
            assert(("1")@ =~= seq![digit_char(1)]);
        }
        "1"
    } else if d == 2 {
        proof {
            reveal_strlit("2");
            assert(("2")@ =~= seq![digit_char(2)]);
        }
        "2"
    } else if d == 3 {
        proof {
            reveal_strlit("3");
            assert(("3")@ =~= seq![digit_char(3)]);
        }
        "3"
    } else if d == 4 {
        proof {
            reveal_strlit("4");
            assert(("4")@ =~= seq![digit_char(4)]);
        }
        "4"
    } else if d == 5 {
        proof {
            reveal_strlit("5");
            assert(("5")@ =~= seq![digit_char(5)]);
        }
        "5"
    } else if d == 6 {
        proof {
            reveal_strlit("6");
            assert(("6")@ =~= seq![digit_char(6)]);
        }
        "6"
    } else if d == 7 {
        proof {
            reveal_strlit("7");
            assert(("7")@ =~= seq![digit_char(7)]);
        }
        "7"
    } else if d == 8 {
        proof {
            reveal_strlit("8");
            assert(("8")@ =~= seq![digit_char(8)]);
        }
        "8"
    } else {
        proof {
            reveal_strlit("9");
            assert(("9")@ =~= seq![digit_char(9)]);
        }
        "9"
    }
}

/// Renders `n` in decimal.
pub fn dec_str(n: usize) -> (r: String)
    ensures
        r@ == dec_spec(n as nat),
    decreases n,
{
    if n < 10 {
        String::from_str(digit_str(n))
    } else {
        let mut s = dec_str(n / 10);
        s.append(digit_str(n % 10));
        proof {
            assert(s@ =~= dec_spec(n as nat));
        }
        s
    }
}

/// A response about to be written: a status and a body.
pub struct Response {
    pub status: StatusCode,
    pub body: String,
}

/// The mathematical model of a response.
pub struct RespModel {
    pub status: StatusCode,
    pub body: Seq<char>,
}

impl View for Response {
    type V = RespModel;

    open spec fn view(&self) -> RespModel {
        RespModel { status: self.status, body: self.body@ }
    }
}

/// What each route answers: its status and its fixed body.
pub open spec fn route_response(rt: Route) -> RespModel {
    match rt {
        Route::Root => RespModel { status: StatusCode::Success, body: root_body() },
        Route::Slow => RespModel { status: StatusCode::Success, body: Seq::empty() },
        Route::Unknown => RespModel { status: StatusCode::NotFound, body: Seq::empty() },
    }
}

/// Builds the response a route answers with.
pub fn response_for_route(rt: Route) -> (r: Response)
    ensures
        r@ == route_response(rt),
{
    match rt {
        Route::Root => {
            let body = String::from_str("{\"status\": \"ok\"}");
            proof {
                reveal_strlit("{\"status\": \"ok\"}");
                assert(body@ =~= root_body());
            }
            Response { status: StatusCode::Success, body }
        },
        Route::Slow => {
            let body = String::new();
            proof {
                assert(body@ =~= Seq::<char>::empty());
            }
            Response { status: StatusCode::Success, body }
        },
        Route::Unknown => {
            let body = String::new();
            proof {
                assert(body@ =~= Seq::<char>::empty());
            }
            Response { status: StatusCode::NotFound, body }
        },
    }
}

/// The fixed start of every status line.
pub open spec fn http_prefix() -> Seq<char> {
    seq!['H', 'T', 'T', 'P', '/', '1', '.', '1', ' ']
}

/// One line break on the wire.
pub open spec fn crlf() -> Seq<char> {
    seq!['\r', '\n']
}

/// The header name announcing the body length.
pub open spec fn cl_header() -> Seq<char> {
    seq!['C', 'o', 'n', 't', 'e', 'n', 't', '-', 'L', 'e', 'n', 'g', 't', 'h', ':', ' ']
}

/// The text after "HTTP/1.1 " for each status.
pub open spec fn status_text(st: StatusCode) -> Seq<char> {
    match st {
        StatusCode::Success => seq!['2', '0', '0', ' ', 'O', 'K'],
        StatusCode::NotFound => seq![
            '4',
            '0',
            '4',
            ' ',
            'N',
            'O',
            'T',
            ' ',
            'F',
            'O',
            'U',
            'N',
            'D',
        ],
        StatusCode::MethodNotAllowed => seq![
            '4',
            '0',
            '5',
            ' ',
            'M',
            'e',
            't',
            'h',
            'o',
            'd',
            ' ',
            'N',
            'o',
            't',
            ' ',
            'A',
            'l',
            'l',
            'o',
            'w',
            'e',
            'd',
        ],
    }
}

/// The status text as a string.
pub fn status_str(st: StatusCode) -> (r: &'static str)
    ensures
        r@ == status_text(st),
{
    match st {
        StatusCode::Success => {
            proof {
                reveal_strlit("200 OK");
                assert(("200 OK")@ =~= status_text(StatusCode::Success));
            }
            "200 OK"
        },
        StatusCode::NotFound => {
            proof {
                reveal_strlit("404 NOT FOUND");
                assert(("404 NOT FOUND")@ =~= status_text(StatusCode::NotFound));
            }
            "404 NOT FOUND"
        },
        StatusCode::MethodNotAllowed => {
            proof {
                reveal_strlit("405 Method Not Allowed");
                assert(("405 Method Not Allowed")@ =~= status_text(StatusCode::MethodNotAllowed));
            }
            "405 Method Not Allowed"
        },
    }
}

/// The full text of a response. A rejected method gets a bare status line;
/// every other response carries a `Content-Length` header equal to the
/// length of its body, then the body.
pub open spec fn render_spec(r: RespModel) -> Seq<char> {
    if r.status == StatusCode::MethodNotAllowed {
        http_prefix() + status_text(r.status) + crlf() + crlf()
    } else {
        http_prefix() + status_text(r.status) + crlf() + cl_header() + dec_spec(r.body.len())
            + crlf() + crlf() + r.body
    }
}

/// Renders a response to the exact text that goes on the wire.
pub fn render_response(r: &Response) -> (out: String)
    ensures
        out@ == render_spec(r@),
{
    let mut out = String::from_str("HTTP/1.1 ");
    proof {
        reveal_strlit("HTTP/1.1 ");
        assert(("HTTP/1.1 ")@ =~= http_prefix());
    }
    out.append(status_str(r.status));
    proof {
        reveal_strlit("\r\n\r\n");
        reveal_strlit("\r\n");
        assert(("\r\n")@ =~= crlf());
        assert(("\r\n\r\n")@ =~= crlf() + crlf());
    }
    match r.status {
        StatusCode::MethodNotAllowed => {
            out.append("\r\n\r\n");
            proof {
                assert(out@ =~= render_spec(r@));
            }
            out
        },
        _ => {
            out.append("\r\n");
            out.append("Content-Length: ");
            proof {
                reveal_strlit("Content-Length: ");
                assert(("Content-Length: ")@ =~= cl_header());
            }
            let n = r.body.as_str().unicode_len();
            let digits = dec_str(n);
            out.append(digits.as_str());
            out.append("\r\n\r\n");
            out.append(r.body.as_str());
            proof {
                assert(out@ =~= render_spec(r@));
            }
            out
        },
    }
}

/// The fixed root body is plain ASCII, so its character count is its byte
/// count on the wire.
pub proof fn lemma_root_body_ascii()
    ensures
        is_ascii_chars(root_body()),
{
    let b = root_body();
    assert forall|i: int| 0 <= i < b.len() implies '\0' <= #[trigger] b[i] <= '\u{7f}' by {
        if i == 0 {
            assert(b[0] == '{');
        } else if i == 1 {
            assert(b[1] == '"');
        } else if i == 2 {
            assert(b[2] == 's');
        } else if i == 3 {
            assert(b[3] == 't');
        } else if i == 4 {
            assert(b[4] == 'a');
        } else if i == 5 {
            assert(b[5] == 't');
        } else if i == 6 {
            assert(b[6] == 'u');
        } else if i == 7 {
            assert(b[7] == 's');
        } else if i == 8 {
            assert(b[8] == '"');
        } else if i == 9 {
            assert(b[9] == ':');
        } else if i == 10 {
            assert(b[10] == ' ');
        } else if i == 11 {
            assert(b[11] == '"');
        } else if i == 12 {
            assert(b[12] == 'o');
        } else if i == 13 {
            assert(b[13] == 'k');
        } else if i == 14 {
            assert(b[14] == '"');
        } else {
            assert(b[15] == '}');
        }
    }
}

/// The advertised `Content-Length` is exact: the rendering ends with the
/// body itself, and the decimal value advertised before the blank line reads
/// back as the number of bytes the body occupies on the wire.
pub proof fn lemma_content_length_exact(r: RespModel)
    requires
        r.status != StatusCode::MethodNotAllowed,
        is_ascii_chars(r.body),
    ensures
        ({
            let out = render_spec(r);
            out.subrange(out.len() - r.body.len(), out.len() as int) == r.body
        }),
        dec_val(dec_spec(r.body.len())) == encode_utf8(r.body).len(),
{
    lemma_dec_round_trip(r.body.len());
    is_ascii_chars_encode_utf8(r.body);
    let out = render_spec(r);
    assert(out.subrange(out.len() - r.body.len(), out.len() as int) =~= r.body);
}

} // verus!
