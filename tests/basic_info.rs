use gh_lib::basic_info::{BasicInfo, BASE_URL, RAW_MEDIA_TYPE};
use gh_lib::error::ApiError;
use gh_lib::graphql::{query_body, query_graphql, Variables, GRAPHQL_URL, OPERATION_NAME, QUERY};
use gh_lib::http::{received_body, request, HttpMethod, HttpResponse, TransportError};
use gh_lib::json::push_json_string;
use gh_lib::repos::{Repo, RepoRequest};

fn hello_world() -> RepoRequest {
    RepoRequest(Repo::new("octocat", "Hello-World"), "t0ken".to_string())
}

fn contains(hay: &[u8], needle: &[u8]) -> bool {
    hay.windows(needle.len()).any(|w| w == needle)
}

fn decode(body: &[u8]) -> Result<graphql_client::Response<serde_json::Value>, serde_json::Error> {
    serde_json::from_slice(body)
}

fn answered(body: &[u8]) -> Result<HttpResponse, TransportError> {
    Ok(HttpResponse { status: 200, body: body.to_vec() })
}

fn refused() -> TransportError {
    TransportError { message: "connection refused".to_string() }
}

fn header_pairs(headers: &[gh_lib::http::Header]) -> Vec<(String, String)> {
    headers.iter().map(|h| (h.name.clone(), h.value.clone())).collect()
}

fn pair(a: &str, b: &str) -> (String, String) {
    (a.to_string(), b.to_string())
}

#[test]
fn request_carries_credential_and_agent() {
    let r = request("https://example.com/x", HttpMethod::Get, "abc");
    assert_eq!(r.url, "https://example.com/x");
    assert_eq!(r.method, HttpMethod::Get);
    assert_eq!(
        header_pairs(&r.headers),
        vec![pair("Authorization", "Bearer abc"), pair("User-Agent", "gh-lib")]
    );
    assert!(r.body.is_empty());
}

#[test]
fn header_is_appended_and_body_replaced() {
    let r = request("u", HttpMethod::Post, "t").header("X-One", "1").with_body(vec![1, 2, 3]);
    assert_eq!(header_pairs(&r.headers)[2], pair("X-One", "1"));
    assert_eq!(r.headers.len(), 3);
    assert_eq!(r.body, vec![1, 2, 3]);
    assert_eq!(r.method, HttpMethod::Post);
}

#[test]
fn json_string_escapes_as_serde_json_does() {
    let text = "a\"b\\c\nd\te\u{1}f\u{8}\u{c}\r\u{1f}\u{7f}é";
    let mut out: Vec<u8> = b"x".to_vec();
    push_json_string(&mut out, text.as_bytes());
    let expected = format!("x{}", serde_json::to_string(text).unwrap());
    assert_eq!(String::from_utf8(out.clone()).unwrap(), expected);
    assert_eq!(
        String::from_utf8(out).unwrap(),
        "x\"a\\\"b\\\\c\\nd\\te\\u0001f\\b\\f\\r\\u001f\u{7f}é\""
    );
}

#[test]
fn json_string_of_empty_text() {
    let mut out: Vec<u8> = Vec::new();
    push_json_string(&mut out, b"");
    assert_eq!(out, b"\"\"".to_vec());
}

#[test]
fn variables_from_repo() {
    let repo = Repo::new("octocat", "Hello-World");
    let v = Variables::from(&repo);
    assert_eq!(v.owner, "octocat");
    assert_eq!(v.name, "Hello-World");
}

#[test]
fn repo_path_joins_owner_and_name() {
    assert_eq!(Repo::new("octocat", "Hello-World").path(), "octocat/Hello-World");
}

#[test]
fn query_body_holds_variables_and_operation_name() {
    let v = Variables { name: "Hello-World".to_string(), owner: "octocat".to_string() };
    let body = query_body(&v);
    assert!(contains(&body, br#""variables":{"name":"Hello-World","owner":"octocat"}"#));
    assert!(contains(&body, br#""operationName":"RepoBasicInfoQuery""#));
    let parsed: serde_json::Value = serde_json::from_slice(&body).unwrap();
    assert_eq!(parsed["variables"]["owner"], "octocat");
    assert_eq!(parsed["variables"]["name"], "Hello-World");
    assert_eq!(parsed["operationName"], OPERATION_NAME);
    assert_eq!(parsed["query"], QUERY);
    assert_eq!(parsed.as_object().unwrap().len(), 3);
}

#[test]
fn query_body_escapes_variables() {
    let v = Variables { name: "a\"b".to_string(), owner: "c\\d".to_string() };
    let body = query_body(&v);
    assert!(contains(&body, br#""variables":{"name":"a\"b","owner":"c\\d"}"#));
    let parsed: serde_json::Value = serde_json::from_slice(&body).unwrap();
    assert_eq!(parsed["variables"]["name"], "a\"b");
    assert_eq!(parsed["variables"]["owner"], "c\\d");
}

#[test]
fn basic_info_request_is_a_json_post() {
    let req = hello_world();
    let r = req.basic_info_request();
    assert_eq!(r.method, HttpMethod::Post);
    assert_eq!(r.url, GRAPHQL_URL);
    assert_eq!(
        header_pairs(&r.headers),
        vec![
            pair("Authorization", "Bearer t0ken"),
            pair("User-Agent", "gh-lib"),
            pair("Content-Type", "application/json"),
        ]
    );
    let v = Variables { name: "Hello-World".to_string(), owner: "octocat".to_string() };
    assert_eq!(r.body, query_body(&v));
}

#[test]
fn readme_request_asks_for_raw_text() {
    let r = hello_world().readme_request();
    assert_eq!(r.method, HttpMethod::Get);
    assert_eq!(r.url, "https://api.github.com/repos/octocat/Hello-World/readme");
    assert_eq!(r.url, format!("{}/octocat/Hello-World/readme", BASE_URL));
    assert_eq!(
        header_pairs(&r.headers),
        vec![
            pair("Authorization", "Bearer t0ken"),
            pair("User-Agent", "gh-lib"),
            pair("Accept", RAW_MEDIA_TYPE),
        ]
    );
    assert!(r.body.is_empty());
}

#[test]
fn basic_info_returns_data_unchanged() {
    let body = br#"{"data":{"repository":{"name":"Hello-World","stargazerCount":42,"owner":{"login":"octocat"}}}}"#;
    let expected: serde_json::Value = serde_json::from_slice::<serde_json::Value>(body).unwrap()["data"].clone();
    let r = hello_world().get_basic_info(Ok(decode(body)));
    assert_eq!(r.unwrap(), expected);
}

#[test]
fn basic_info_keeps_data_beside_field_errors() {
    let body = br#"{"data":{"repository":null},"errors":[{"message":"partial"}]}"#;
    let r = hello_world().get_basic_info(Ok(decode(body)));
    let data = r.unwrap();
    assert!(data["repository"].is_null());
    assert_eq!(data.as_object().unwrap().len(), 1);
}

#[test]
fn basic_info_without_data_is_not_found() {
    let body = br#"{"data":null,"errors":[{"message":"Could not resolve to a Repository","path":["repository"],"locations":[{"line":1,"column":2}]}]}"#;
    let r = hello_world().get_basic_info(Ok(decode(body)));
    assert!(matches!(r, Err(ApiError::NotFound)));
}

#[test]
fn basic_info_of_empty_envelope_is_not_found() {
    let r = hello_world().get_basic_info(Ok(decode(b"{}")));
    assert!(matches!(r, Err(ApiError::NotFound)));
}

#[test]
fn basic_info_of_invalid_json_is_decode_error() {
    let r = hello_world().get_basic_info(Ok(decode(b"<html>not json")));
    match r {
        Err(ApiError::Decode(m)) => assert!(!m.is_empty()),
        Err(ApiError::NotFound) => panic!("a decode failure must not read as not found"),
        other => panic!("unexpected {:?}", other.map(|_| ())),
    }
}

#[test]
fn query_graphql_passes_field_errors_through() {
    let body = br#"{"data":null,"errors":[{"message":"first"},{"message":"second"}]}"#;
    let resp = query_graphql(Ok(decode(body))).unwrap();
    assert!(resp.data.is_none());
    let errors = resp.errors.unwrap();
    assert_eq!(errors.len(), 2);
    assert_eq!(errors[0].message, "first");
    assert_eq!(errors[1].message, "second");
}

#[test]
fn query_graphql_reports_transport_failure() {
    let r = query_graphql::<serde_json::Value>(Err(refused()));
    assert!(matches!(r, Err(ApiError::Transport(m)) if m == "connection refused"));
}

#[test]
fn raw_readme_round_trips() {
    let r = hello_world().get_raw_readme(answered(b"# Hello\nWorld"));
    assert_eq!(r.unwrap(), "# Hello\nWorld");
}

#[test]
fn raw_readme_of_empty_body_is_empty() {
    let r = hello_world().get_raw_readme(answered(b""));
    assert_eq!(r.unwrap(), "");
}

#[test]
fn raw_readme_ignores_status() {
    let sent = Ok(HttpResponse { status: 404, body: b"Not Found".to_vec() });
    assert_eq!(hello_world().get_raw_readme(sent).unwrap(), "Not Found");
}

#[test]
fn raw_readme_replaces_invalid_utf8() {
    let r = hello_world().get_raw_readme(answered(b"ok \xff!"));
    assert_eq!(r.unwrap(), "ok \u{fffd}!");
}

#[test]
fn raw_readme_decodes_multibyte_text() {
    let r = hello_world().get_raw_readme(answered("héllo wörld".as_bytes()));
    assert_eq!(r.unwrap(), "héllo wörld");
}

#[test]
fn transport_failure_is_reported_once_by_both_operations() {
    let req = hello_world();
    let mut calls: u32 = 0;
    let mut send = |_r: &gh_lib::http::HttpRequest| -> Result<HttpResponse, TransportError> {
        calls += 1;
        Err(refused())
    };
    let sent = send(&req.basic_info_request());
    let info = req.get_basic_info::<serde_json::Value>(sent.map(|resp| decode(&resp.body)));
    let readme = req.get_raw_readme(send(&req.readme_request()));
    assert_eq!(calls, 2);
    assert!(matches!(info, Err(ApiError::Transport(ref m)) if m == "connection refused"));
    assert!(matches!(readme, Err(ApiError::Transport(ref m)) if m == "connection refused"));
}

#[test]
fn received_body_passes_body_or_failure() {
    assert_eq!(received_body(answered(b"abc")).unwrap(), b"abc".to_vec());
    assert!(matches!(received_body(Err(refused())), Err(ApiError::Transport(m)) if m == "connection refused"));
}

#[test]
fn error_messages() {
    assert_eq!(ApiError::NotFound.message(), "Couldn't find repository basic information!");
    assert_eq!(ApiError::Transport("refused".to_string()).message(), "request failed: refused");
    assert_eq!(ApiError::Decode("eof".to_string()).message(), "cannot decode the reply: eof");
}
