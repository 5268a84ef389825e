//! The per-connection protocol decision: from one request line to the
//! response to write, and whether the slow route's delay comes first.
//!
//! This is the whole body of a job; the runtime around it only reads the
//! line, sleeps when asked, and writes the rendered text back.

use vstd::prelude::*;
use crate::ascii::is_get;
use crate::ascii::is_get_token;
use crate::request::parse_request_line;
use crate::request::parse_spec;
use crate::response::route_of;
use crate::response::route_spec;
use crate::response::route_response;
use crate::response::response_for_route;
use crate::response::render_spec;
use crate::response::root_body;
use crate::response::root_path;
use crate::response::crlf;
use crate::response::http_prefix;
use crate::response::status_text;
use crate::response::dec_spec;
use crate::response::Response;
use crate::response::RespModel;
use crate::response::Route;
use crate::response::StatusCode;

verus! {

/// How long the slow route pauses before answering, in seconds.
pub const SLOW_DELAY_SECS: u64 = 10;

/// What one request line asks of the worker: pause first (the slow route),
/// then write the rendered response.
pub struct ReplyPlan {
    pub delay: bool,
    pub response: Response,
}

/// The model of a reply plan.
pub struct PlanModel {
    pub delay: bool,
    pub response: RespModel,
}

impl View for ReplyPlan {
    type V = PlanModel;

    open spec fn view(&self) -> PlanModel {
        PlanModel { delay: self.delay, response: self.response@ }
    }
}

/// The full protocol decision for one request line. A line with fewer than
/// three tokens is malformed: the connection is abandoned with no response.
/// A method other than "GET" (in any case) is rejected outright; otherwise
/// the path is looked up in the route table, and only the slow route asks
/// for a delay.
pub open spec fn plan_spec(line: Seq<char>) -> Option<PlanModel> {
    match parse_spec(line) {
        Option::None => Option::None,
        Option::Some(t) => {
            if !is_get_token(t.0) {
                Option::Some(
                    PlanModel {
                        delay: false,
                        response: RespModel {
                            status: StatusCode::MethodNotAllowed,
                            body: Seq::empty(),
                        },
                    },
                )
            } else {
                let rt = route_spec(t.1);
                Option::Some(PlanModel { delay: rt == Route::Slow, response: route_response(rt) })
            }
        },
    }
}

/// Decides how to answer one request line; `None` means the line was
/// malformed and the connection is abandoned with no response.
pub fn plan_request(line: &str) -> (r: Option<ReplyPlan>)
    ensures
        match r {
            Some(p) => plan_spec(line@) matches Some(q) && p@ == q,
            None => plan_spec(line@) is None,
        },
{
    let parsed = parse_request_line(line);
    match parsed {
        None => None,
        Some(rl) => {
            if !is_get(rl.method.as_str()) {
                Some(
                    ReplyPlan {
                        delay: false,
                        response: Response {
                            status: StatusCode::MethodNotAllowed,
                            body: String::new(),
                        },
                    },
                )
            } else {
                let rt = route_of(rl.path.as_str());
                let delay = matches!(rt, Route::Slow);
                Some(ReplyPlan { delay, response: response_for_route(rt) })
            }
        },
    }
}

/// A request for the root route is answered with success and exactly the
/// fixed body, sixteen characters long, so its advertised length is "16".
pub proof fn lemma_root_request_success(line: Seq<char>)
    requires
        parse_spec(line) matches Some(t) && is_get_token(t.0) && t.1 == root_path(),
    ensures
        plan_spec(line) matches Some(p) && !p.delay && p.response.status == StatusCode::Success
            && p.response.body == root_body(),
        dec_spec(root_body().len()) == seq!['1', '6'],
{
    assert(dec_spec(1) =~= seq!['1']);
    assert(dec_spec(16) =~= seq!['1', '6']);
}

/// Any method other than "GET" is refused with a bare status line: no body,
/// no `Content-Length` header, whatever the path.
pub proof fn lemma_non_get_rejected(line: Seq<char>)
    requires
        parse_spec(line) matches Some(t) && !is_get_token(t.0),
    ensures
        plan_spec(line) matches Some(p) && !p.delay && p.response.status
            == StatusCode::MethodNotAllowed && p.response.body.len() == 0,
        plan_spec(line) matches Some(p) && render_spec(p.response) == http_prefix() + status_text(
            StatusCode::MethodNotAllowed,
        ) + crlf() + crlf(),
{
}

/// Every body the handler ever serves is plain ASCII, so for every served
/// response the advertised `Content-Length` is the exact byte count of the
/// body on the wire (the rejected-method reply advertises none and carries
/// none).
pub proof fn lemma_served_length_exact(line: Seq<char>)
    requires
        plan_spec(line) matches Some(p),
    ensures
        plan_spec(line) matches Some(p) && vstd::utf8::is_ascii_chars(p.response.body),
        plan_spec(line) matches Some(p) && (p.response.status != StatusCode::MethodNotAllowed
            ==> crate::response::dec_val(dec_spec(p.response.body.len()))
            == vstd::utf8::encode_utf8(p.response.body).len()),
{
    let p = plan_spec(line).unwrap();
    crate::response::lemma_root_body_ascii();
    assert(vstd::utf8::is_ascii_chars(Seq::<char>::empty()));
    if p.response.status != StatusCode::MethodNotAllowed {
        crate::response::lemma_content_length_exact(p.response);
    }
}

/// A path outside the route table is answered with the not-found status and
/// an empty body.
pub proof fn lemma_unknown_path_not_found(line: Seq<char>)
    requires
        parse_spec(line) matches Some(t) && is_get_token(t.0) && route_spec(t.1) == Route::Unknown,
    ensures
        plan_spec(line) matches Some(p) && !p.delay && p.response.status == StatusCode::NotFound
            && p.response.body.len() == 0,
{
}

} // verus!
