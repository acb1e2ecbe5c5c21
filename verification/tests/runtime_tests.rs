use retroqwest::client::RetroClient;
use retroqwest::error::RetroqwestError;
use retroqwest::pipeline::{on_body_event, on_send_event, SendDecision, SendEvent};
use retroqwest::request::{build_request, RequestSpec};
use retroqwest::template::{substitute, trim_trailing_slashes};
use retroqwest::transform::{HttpArg, MethodPlan};

fn plan(name: &str, verb: &str, uri: &str, args: Vec<HttpArg>) -> MethodPlan {
    MethodPlan { name: name.to_string(), method: verb.to_string(), uri: uri.to_string(), args }
}

fn strings(vs: &[&str]) -> Vec<String> {
    vs.iter().map(|s| s.to_string()).collect()
}

#[test]
fn test_trailing_slashes_trimmed_identically() {
    let bare = RetroClient::from_builder("http://example.test", reqwest::ClientBuilder::new())
        .unwrap();
    let one = RetroClient::from_builder("http://example.test/", reqwest::ClientBuilder::new())
        .unwrap();
    let many = RetroClient::from_builder("http://example.test///", reqwest::ClientBuilder::new())
        .unwrap();
    assert_eq!(bare.endpoint(), "http://example.test");
    assert_eq!(one.endpoint(), bare.endpoint());
    assert_eq!(many.endpoint(), bare.endpoint());
}

#[test]
fn test_trim_keeps_interior_slashes() {
    assert_eq!(trim_trailing_slashes("http://a/b/"), "http://a/b");
    assert_eq!(trim_trailing_slashes(""), "");
    assert_eq!(trim_trailing_slashes("///"), "");
}

#[test]
fn test_substitute_named_placeholder() {
    let r = substitute("/anything/{name}", &strings(&["name"]), &strings(&["test"]));
    assert_eq!(r, "/anything/test");
}

#[test]
fn test_substitute_leaves_unbound_placeholder() {
    let r = substitute("/a/{missing}/b", &strings(&["name"]), &strings(&["test"]));
    assert_eq!(r, "/a/{missing}/b");
    let unterminated = substitute("/a/{open", &strings(&[]), &strings(&[]));
    assert_eq!(unterminated, "/a/{open");
}

#[test]
fn test_request_without_parameters() {
    let p = plan("get_anything", "get", "/anything", vec![]);
    let r: RequestSpec = build_request("http://e", &p, &strings(&[]));
    assert_eq!(r.method, "get");
    assert_eq!(r.url, "http://e/anything");
    assert!(r.query.is_empty());
    assert!(r.body.is_none());
}

#[test]
fn test_request_with_path_parameter() {
    let p = plan(
        "get_by_name",
        "get",
        "/anything/{name}",
        vec![HttpArg::Uri { arg: "name".to_string() }],
    );
    let r = build_request("http://e", &p, &strings(&["test"]));
    assert_eq!(r.url, "http://e/anything/test");
    assert!(r.query.is_empty());
    assert!(r.body.is_none());
}

#[test]
fn test_request_with_two_query_parameters() {
    let p = plan(
        "get_multiple_queries",
        "get",
        "/anything",
        vec![
            HttpArg::Query { name: "q".to_string(), arg: "q".to_string() },
            HttpArg::Query { name: "q2".to_string(), arg: "q2".to_string() },
        ],
    );
    let r = build_request("http://e", &p, &strings(&["true", "3"]));
    assert_eq!(r.url, "http://e/anything");
    assert_eq!(
        r.query,
        vec![
            ("q".to_string(), "true".to_string()),
            ("q2".to_string(), "3".to_string()),
        ]
    );
    assert!(r.body.is_none());
}

#[test]
fn test_request_with_path_query_and_body() {
    let p = plan(
        "post_to_name",
        "post",
        "/anything/{name}",
        vec![
            HttpArg::Uri { arg: "name".to_string() },
            HttpArg::Query { name: "q".to_string(), arg: "q".to_string() },
            HttpArg::JsonBody { arg: "body".to_string() },
        ],
    );
    let r = build_request("http://e", &p, &strings(&["test", "true", "{\"url\":\"test\"}"]));
    assert_eq!(r.method, "post");
    assert_eq!(r.url, "http://e/anything/test");
    assert_eq!(r.query, vec![("q".to_string(), "true".to_string())]);
    assert_eq!(r.body, Some("{\"url\":\"test\"}".to_string()));
}

#[test]
fn test_later_json_body_overwrites_earlier() {
    let p = plan(
        "double_body",
        "post",
        "/x",
        vec![
            HttpArg::JsonBody { arg: "first".to_string() },
            HttpArg::JsonBody { arg: "second".to_string() },
        ],
    );
    let r = build_request("http://e", &p, &strings(&["1", "2"]));
    assert_eq!(r.body, Some("2".to_string()));
}

#[test]
fn test_error_status_resolves_to_response_error() {
    for status in [400u16, 404, 500, 599] {
        let d = on_send_event(SendEvent::Completed { status });
        assert_eq!(d, SendDecision::Fail { error: RetroqwestError::ResponseError { status } });
    }
}

#[test]
fn test_non_error_status_reads_body() {
    for status in [200u16, 204, 299, 301, 399] {
        let d = on_send_event(SendEvent::Completed { status });
        assert_eq!(d, SendDecision::ReadBody { status });
    }
}

#[test]
fn test_transport_failure_resolves_to_request_error() {
    let d = on_send_event(SendEvent::TransportFailed { message: "connection refused".to_string() });
    assert_eq!(
        d,
        SendDecision::Fail {
            error: RetroqwestError::RequestError { message: "connection refused".to_string() }
        }
    );
}

#[test]
fn test_bad_body_resolves_to_json_parse() {
    let out: Result<u32, RetroqwestError> = on_body_event(Err("expected struct".to_string()));
    assert_eq!(
        out.unwrap_err(),
        RetroqwestError::JsonParse { message: "expected struct".to_string() }
    );
    let ok: Result<u32, RetroqwestError> = on_body_event(Ok(7));
    assert_eq!(ok.unwrap(), 7);
}

#[test]
fn test_success_status_with_bad_body_is_json_parse() {
    let d = on_send_event(SendEvent::Completed { status: 200 });
    assert_eq!(d, SendDecision::ReadBody { status: 200 });
    let out: Result<u8, RetroqwestError> = on_body_event(Err("invalid type".to_string()));
    assert!(matches!(out, Err(RetroqwestError::JsonParse { .. })));
}

#[test]
fn test_error_descriptions() {
    assert_eq!(
        RetroqwestError::FailedToBuildClient { message: "m".to_string() }.describe(),
        "Failed to build client"
    );
    assert_eq!(
        RetroqwestError::RequestError { message: "m".to_string() }.describe(),
        "Error sending request"
    );
    assert_eq!(
        RetroqwestError::ResponseError { status: 400 }.describe(),
        "Response status code indicates error"
    );
    assert_eq!(
        RetroqwestError::JsonParse { message: "m".to_string() }.describe(),
        "Failed to parse json"
    );
}
