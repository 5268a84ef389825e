//! The protocol handler on the wire-visible cases: each route's exact
//! response text, the method gate, malformed lines, and the decimal
//! rendering of the advertised length.

use mt_server::handler::plan_request;
use mt_server::request::parse_request_line;
use mt_server::response::dec_str;
use mt_server::response::render_response;
use mt_server::response::StatusCode;

#[test]
fn root_route_ok() {
    let plan = plan_request("GET / HTTP/1.1").unwrap();
    assert!(!plan.delay);
    assert_eq!(plan.response.status, StatusCode::Success);
    assert_eq!(plan.response.body, "{\"status\": \"ok\"}");
    let out = render_response(&plan.response);
    assert_eq!(out, "HTTP/1.1 200 OK\r\nContent-Length: 16\r\n\r\n{\"status\": \"ok\"}");
}

#[test]
fn root_route_lowercase_method() {
    let plan = plan_request("get / HTTP/1.1").unwrap();
    assert_eq!(plan.response.status, StatusCode::Success);
    let out = render_response(&plan.response);
    assert_eq!(out, "HTTP/1.1 200 OK\r\nContent-Length: 16\r\n\r\n{\"status\": \"ok\"}");
}

#[test]
fn slow_route_delays_then_empty_body() {
    let plan = plan_request("GET /slow HTTP/1.1").unwrap();
    assert!(plan.delay);
    assert_eq!(plan.response.status, StatusCode::Success);
    assert_eq!(plan.response.body, "");
    let out = render_response(&plan.response);
    assert_eq!(out, "HTTP/1.1 200 OK\r\nContent-Length: 0\r\n\r\n");
}

#[test]
fn unknown_path_not_found() {
    let plan = plan_request("GET /missing HTTP/1.1").unwrap();
    assert!(!plan.delay);
    assert_eq!(plan.response.status, StatusCode::NotFound);
    let out = render_response(&plan.response);
    assert_eq!(out, "HTTP/1.1 404 NOT FOUND\r\nContent-Length: 0\r\n\r\n");
}

#[test]
fn path_lookup_is_case_sensitive() {
    let plan = plan_request("GET /SLOW HTTP/1.1").unwrap();
    assert_eq!(plan.response.status, StatusCode::NotFound);
    assert!(!plan.delay);
}

#[test]
fn post_method_not_allowed() {
    let plan = plan_request("POST / HTTP/1.1").unwrap();
    assert!(!plan.delay);
    assert_eq!(plan.response.status, StatusCode::MethodNotAllowed);
    assert_eq!(plan.response.body, "");
    let out = render_response(&plan.response);
    assert_eq!(out, "HTTP/1.1 405 Method Not Allowed\r\n\r\n");
    assert!(!out.contains("Content-Length"));
}

#[test]
fn non_get_rejected_on_any_path() {
    for line in ["DELETE /slow HTTP/1.1", "PUT /missing HTTP/1.0", "HEAD / HTTP/1.1"] {
        let plan = plan_request(line).unwrap();
        assert_eq!(plan.response.status, StatusCode::MethodNotAllowed);
        let out = render_response(&plan.response);
        assert_eq!(out, "HTTP/1.1 405 Method Not Allowed\r\n\r\n");
    }
}

#[test]
fn empty_line_is_abandoned() {
    assert!(plan_request("").is_none());
    assert!(plan_request("   ").is_none());
}

#[test]
fn short_lines_are_abandoned() {
    assert!(plan_request("GET").is_none());
    assert!(plan_request("GET /").is_none());
    assert!(plan_request("GET /  ").is_none());
}

#[test]
fn extra_tokens_are_ignored() {
    let plan = plan_request("GET / HTTP/1.1 something more").unwrap();
    assert_eq!(plan.response.status, StatusCode::Success);
    let out = render_response(&plan.response);
    assert_eq!(out, "HTTP/1.1 200 OK\r\nContent-Length: 16\r\n\r\n{\"status\": \"ok\"}");
}

#[test]
fn parse_splits_three_tokens() {
    let rl = parse_request_line("GET /slow HTTP/1.0").unwrap();
    assert_eq!(rl.method, "GET");
    assert_eq!(rl.path, "/slow");
    assert_eq!(rl.version, "HTTP/1.0");
}

#[test]
fn parse_accepts_repeated_whitespace() {
    let rl = parse_request_line("  GET \t /  HTTP/1.1 ").unwrap();
    assert_eq!(rl.method, "GET");
    assert_eq!(rl.path, "/");
    assert_eq!(rl.version, "HTTP/1.1");
}

#[test]
fn decimal_rendering_exact() {
    assert_eq!(dec_str(0), "0");
    assert_eq!(dec_str(9), "9");
    assert_eq!(dec_str(10), "10");
    assert_eq!(dec_str(16), "16");
    assert_eq!(dec_str(105), "105");
    assert_eq!(dec_str(usize::MAX), usize::MAX.to_string());
}
