use std::collections::HashMap;

use bt_http_utils::extract::error_body;
use bt_http_utils::headers::{header_name, is_valid_header_value};
use bt_http_utils::tls::tls_connector;
use bt_http_utils::{
    classify_overrides, form_body, parse_method, plan_get, plan_post, plan_request,
    resolve_path_params, BodyExtractor, BodyMode, ChunkRead, ContentType, ExtractStep,
    HeaderStore, HttpClient, HttpMethod, HttpResponse, HttpStreamResponse, RequestError,
    DANGER_ACCEPT_INVALID_CERTS, DANGER_ACCEPT_INVALID_HOSTNAMES, READ_ERROR_CEILING,
};

fn pairs(items: &[(&str, &str)]) -> Vec<(String, String)> {
    items.iter().map(|(k, v)| (k.to_string(), v.to_string())).collect()
}

fn response_with(code: u16) -> HttpResponse {
    HttpResponse {
        status_code: code,
        header: HashMap::new(),
        body: String::new(),
        remote_address: "0.0.0.0".to_string(),
    }
}

fn defaults() -> HeaderStore {
    let mut h = HeaderStore::new();
    h.set_header("User-Agent", "tester").unwrap();
    h
}

fn value_of<'a>(entries: &'a [(String, String)], name: &str) -> Option<&'a str> {
    entries.iter().find(|(k, _)| k == name).map(|(_, v)| v.as_str())
}

#[test]
fn resolve_example_id_and_extra() {
    let (url, left) = resolve_path_params("/api/{id}", &pairs(&[("id", "7"), ("x", "9")]));
    assert_eq!(url, "/api/7");
    assert_eq!(left, pairs(&[("x", "9")]));
}

#[test]
fn resolve_replaces_every_occurrence() {
    let (url, left) = resolve_path_params("/a/{k}/b/{k}", &pairs(&[("k", "v")]));
    assert_eq!(url, "/a/v/b/v");
    assert!(left.is_empty());
}

#[test]
fn resolve_without_params_keeps_template() {
    let (url, left) = resolve_path_params("/users/{id}", &Vec::new());
    assert_eq!(url, "/users/{id}");
    assert!(left.is_empty());
}

#[test]
fn resolve_is_case_sensitive_and_keeps_order() {
    let (url, left) =
        resolve_path_params("/x/{Name}", &pairs(&[("name", "a"), ("q", "1"), ("Name", "b")]));
    assert_eq!(url, "/x/b");
    assert_eq!(left, pairs(&[("name", "a"), ("q", "1")]));
}

#[test]
fn resolve_matches_against_template() {
    let (url, left) = resolve_path_params("{{a}k}", &pairs(&[("a", ""), ("k", "z")]));
    assert_eq!(url, "{k}");
    assert_eq!(left, pairs(&[("k", "z")]));
    let (url, left) = resolve_path_params("{a{b}}", &pairs(&[("b", "v"), ("av", "X")]));
    assert_eq!(url, "{av}");
    assert_eq!(left, pairs(&[("av", "X")]));
}

#[test]
fn is_error_examples() {
    assert!(response_with(404).is_error());
    assert!(!response_with(200).is_error());
}

#[test]
fn is_error_bounds() {
    assert!(!response_with(100).is_error());
    assert!(!response_with(399).is_error());
    assert!(response_with(400).is_error());
    assert!(response_with(500).is_error());
    assert!(response_with(599).is_error());
    assert!(!response_with(600).is_error());
    for code in 100u16..=599 {
        assert_eq!(response_with(code).is_error(), (400..=599).contains(&code));
    }
}

#[test]
fn method_names_ignore_case() {
    assert_eq!(parse_method("get").unwrap(), HttpMethod::GET);
    assert_eq!(parse_method("GET").unwrap(), HttpMethod::GET);
    assert_eq!(parse_method("Get").unwrap(), HttpMethod::GET);
    assert_eq!(parse_method("pAtCh").unwrap(), HttpMethod::PATCH);
    assert_eq!(parse_method("delete").unwrap(), HttpMethod::DELETE);
    assert_eq!(parse_method("put").unwrap(), HttpMethod::PUT);
    assert_eq!(parse_method("post").unwrap(), HttpMethod::POST);
    assert_eq!(HttpMethod::DELETE.as_str(), "DELETE");
    assert_eq!(parse_method("po\u{17f}t").unwrap(), HttpMethod::POST);
}

#[test]
fn unsupported_method_is_refused() {
    match parse_method("OPTIONS") {
        Err(RequestError::UnsupportedMethod(name)) => assert_eq!(name, "OPTIONS"),
        other => panic!("unexpected {:?}", other),
    }
    assert!(parse_method("GETS").is_err());
    assert!(parse_method("").is_err());
}

#[test]
fn unsupported_method_fails_before_planning() {
    let r = plan_request(&defaults(), "OPTIONS", "/x/{id}", &None, &None, &None, ContentType::JSON);
    assert!(matches!(r, Err(RequestError::UnsupportedMethod(ref n)) if n == "OPTIONS"));
}

#[test]
fn same_plan_for_any_case_of_get() {
    let params = Some(pairs(&[("id", "2"), ("qry", "Extra")]));
    let a = plan_request(&defaults(), "get", "/get/{id}", &None, &None, &params, ContentType::JSON)
        .unwrap();
    for name in ["GET", "Get"] {
        let b = plan_request(&defaults(), name, "/get/{id}", &None, &None, &params, ContentType::JSON)
            .unwrap();
        assert_eq!(a.method, b.method);
        assert_eq!(a.url, b.url);
        assert_eq!(a.query, b.query);
        assert_eq!(a.body, b.body);
        assert_eq!(a.headers.entries(), b.headers.entries());
    }
}

#[test]
fn get_sends_unmatched_params_as_query() {
    let params = Some(pairs(&[("id", "2"), ("qry", "Extra")]));
    let body = Some(pairs(&[("age", "25")]));
    let plan =
        plan_request(&defaults(), "get", "/uh/api.php/get/{id}", &None, &body, &params, ContentType::JSON)
            .unwrap();
    assert_eq!(plan.method, HttpMethod::GET);
    assert_eq!(plan.url, "/uh/api.php/get/2");
    assert_eq!(plan.query, pairs(&[("qry", "Extra")]));
    assert_eq!(plan.body, None);
}

#[test]
fn post_json_sends_object_of_body_params() {
    let body = Some(pairs(&[("name", "C.Brown")]));
    let plan = plan_request(&defaults(), "post", "/users/", &None, &body, &None, ContentType::JSON)
        .unwrap();
    assert_eq!(plan.method, HttpMethod::POST);
    assert_eq!(plan.body.as_deref(), Some("{\"name\":\"C.Brown\"}"));
    let sent: serde_json::Value = serde_json::from_str(plan.body.as_deref().unwrap()).unwrap();
    assert_eq!(sent["name"], "C.Brown");
    assert!(plan.query.is_empty());
    assert_eq!(value_of(plan.headers.entries(), "content-type"), Some("application/json"));
}

#[test]
fn json_body_escapes_quotes() {
    let body = Some(pairs(&[("b", "say \"hi\""), ("a", "1")]));
    let plan = plan_request(&defaults(), "put", "/t", &None, &body, &None, ContentType::JSON).unwrap();
    let sent: serde_json::Value = serde_json::from_str(plan.body.as_deref().unwrap()).unwrap();
    assert_eq!(sent["b"], "say \"hi\"");
    assert_eq!(sent["a"], "1");
}

#[test]
fn post_text_sends_form_pairs() {
    let params = Some(pairs(&[("name", "omega"), ("lastname", "alpha")]));
    let body = Some(pairs(&[("age", "25"), ("city", "a b")]));
    let extra = Some(pairs(&[("key", "Key1")]));
    let plan = plan_request(
        &defaults(),
        "post",
        "/test/param.php/{name}/",
        &extra,
        &body,
        &params,
        ContentType::TEXT,
    )
    .unwrap();
    assert_eq!(plan.url, "/test/param.php/omega/");
    assert_eq!(plan.body.as_deref(), Some("age=25&city=a b"));
    assert!(plan.query.is_empty());
    let h = plan.headers.entries();
    assert_eq!(value_of(h, "key"), Some("Key1"));
    assert_eq!(value_of(h, "content-type"), Some("application/text"));
    assert_eq!(value_of(h, "user-agent"), Some("tester"));
}

#[test]
fn non_get_without_body_params_has_no_body() {
    let plan = plan_request(&defaults(), "delete", "/d/1", &None, &None, &None, ContentType::JSON)
        .unwrap();
    assert_eq!(plan.body, None);
    assert_eq!(plan.method, HttpMethod::DELETE);
}

#[test]
fn form_body_of_nothing_is_empty() {
    assert_eq!(form_body(&Vec::new()), "");
    assert_eq!(form_body(&pairs(&[("a", "1")])), "a=1");
    assert_eq!(form_body(&pairs(&[("a", "1"), ("b", "=&")])), "a=1&b==&");
}

#[test]
fn extra_headers_override_defaults_and_content_type_wins() {
    let extra = Some(pairs(&[("USER-AGENT", "other"), ("Content-Type", "x/y")]));
    let plan = plan_post(&defaults(), "/p", &extra, "{}", ContentType::JSON).unwrap();
    let h = plan.headers.entries();
    assert_eq!(h.len(), 2);
    assert_eq!(value_of(h, "user-agent"), Some("other"));
    assert_eq!(value_of(h, "content-type"), Some("application/json"));
    assert_eq!(plan.body.as_deref(), Some("{}"));
}

#[test]
fn plain_get_has_no_content_type() {
    let extra = Some(pairs(&[("btai_session_id", "A_12dkk3dsd")]));
    let plan = plan_get(&defaults(), "/test_get.html", &extra).unwrap();
    let h = plan.headers.entries();
    assert_eq!(value_of(h, "btai_session_id"), Some("A_12dkk3dsd"));
    assert_eq!(value_of(h, "content-type"), None);
    assert!(plan.query.is_empty());
    assert_eq!(plan.body, None);
}

#[test]
fn invalid_header_is_refused() {
    let mut h = defaults();
    assert!(matches!(h.set_header("bad name", "v"), Err(RequestError::InvalidHeader(ref n)) if n == "bad name"));
    assert!(h.set_header("", "v").is_err());
    assert!(h.set_header("ok", "line\nbreak").is_err());
    assert_eq!(h.entries().len(), 1);
    let extra = Some(pairs(&[("x:y", "1")]));
    assert!(matches!(plan_get(&h, "/", &extra), Err(RequestError::InvalidHeader(_))));
}

#[test]
fn header_names_are_lowered_tokens() {
    assert_eq!(header_name("X-Custom_Header").as_deref(), Some("x-custom_header"));
    assert_eq!(header_name("été"), None);
    assert!(is_valid_header_value("tab\tok"));
    assert!(!is_valid_header_value("del\u{7f}"));
}

#[test]
fn client_starts_with_user_agent() {
    let c = HttpClient::new(false, false, None, Vec::new()).unwrap();
    let h = c.get_default_headers();
    assert_eq!(h.len(), 1);
    assert_eq!(value_of(&h, "user-agent"), Some("Mozilla/5.0 (compatible; BachueTech/1.0)"));
}

#[test]
fn overrides_are_classified() {
    let list = vec![
        (DANGER_ACCEPT_INVALID_CERTS.to_string(), true),
        ("invalid_key".to_string(), true),
        (DANGER_ACCEPT_INVALID_HOSTNAMES.to_string(), false),
        (DANGER_ACCEPT_INVALID_CERTS.to_string(), false),
    ];
    let o = classify_overrides(&list);
    assert_eq!(o.accept_invalid_certs, Some(false));
    assert_eq!(o.accept_invalid_hostnames, Some(false));
    assert_eq!(o.unrecognized, vec!["invalid_key".to_string()]);
    let none = classify_overrides(&Vec::new());
    assert_eq!(none.accept_invalid_certs, None);
    assert!(none.unrecognized.is_empty());
}

#[test]
fn no_local_certificates_means_default_tls() {
    let none = classify_overrides(&vec![("invalid_key".to_string(), true)]);
    assert!(tls_connector(&Vec::new(), &none).is_none());
    let o = classify_overrides(&vec![(DANGER_ACCEPT_INVALID_CERTS.to_string(), true)]);
    assert!(tls_connector(&Vec::new(), &o).is_some());
    let c = HttpClient::new(false, false, Some(vec![("invalid_key".to_string(), true)]), Vec::new());
    assert!(c.is_ok());
}

#[test]
fn lossy_decoding_replaces_invalid_bytes() {
    let mut s = HttpStreamResponse::new(200, HashMap::new(), "u".to_string(), None);
    let r = s.read_stream(ChunkRead::Data(vec![b'a', 0xff, b'b']), HashMap::new()).unwrap();
    assert_eq!(r.body, "a\u{fffd}b");
    let r = s.read_stream(ChunkRead::Data(Vec::new()), HashMap::new()).unwrap();
    assert_eq!(r.body, "");
    let mut cur = BodyExtractor::new(200, HashMap::new(), None, "GET", "u");
    for ev in [ChunkRead::Data(vec![0xe2, 0x82]), ChunkRead::Data("é".as_bytes().to_vec())] {
        match cur.on_chunk(ev) {
            ExtractStep::Continue(next) => cur = next,
            ExtractStep::Done(_) => panic!("stopped early"),
        }
    }
    match cur.on_chunk(ChunkRead::End) {
        ExtractStep::Done(r) => assert_eq!(r.body, "\u{fffd}é"),
        ExtractStep::Continue(_) => panic!("did not stop"),
    }
}

#[test]
fn stream_delivers_chunks_in_order_then_none() {
    let mut s = HttpStreamResponse::new(200, HashMap::new(), "http://h/s".to_string(), None);
    let mut seen = Vec::new();
    for chunk in ["one", "two", "three"] {
        assert!(s.needs_read());
        let mut live = HashMap::new();
        live.insert("k".to_string(), chunk.to_string());
        let r = s.read_stream(ChunkRead::Data(chunk.as_bytes().to_vec()), live).unwrap();
        assert_eq!(r.status_code, 200);
        assert_eq!(r.remote_address, "0.0.0.0");
        assert_eq!(r.header.get("k").map(|v| v.as_str()), Some(chunk));
        seen.push(r.body);
    }
    assert_eq!(seen, vec!["one", "two", "three"]);
    assert!(s.read_stream(ChunkRead::End, HashMap::new()).is_none());
    assert!(!s.needs_read());
    assert!(s.next_without_read().is_none());
}

#[test]
fn stream_stops_after_too_many_failures() {
    let mut s = HttpStreamResponse::new(200, HashMap::new(), "u".to_string(), Some("10.0.0.1".into()));
    for _ in 0..READ_ERROR_CEILING {
        let r = s.read_stream(ChunkRead::Failed, HashMap::new()).unwrap();
        assert_eq!(r.body, "");
        assert_eq!(r.remote_address, "10.0.0.1");
    }
    let r = s.read_stream(ChunkRead::Data(b"kept".to_vec()), HashMap::new()).unwrap();
    assert_eq!(r.body, "kept");
    assert!(s.read_stream(ChunkRead::Failed, HashMap::new()).is_none());
    assert!(!s.needs_read());
    assert!(s.next_without_read().is_none());
    assert!(s.next_without_read().is_none());
}

#[test]
fn stream_with_error_status_repeats_diagnostic() {
    let mut ini = HashMap::new();
    ini.insert("server".to_string(), "x".to_string());
    let s = HttpStreamResponse::new(404, ini, "http://h/missing".to_string(), None);
    assert!(s.is_error());
    assert_eq!(s.get_status(), 404);
    assert_eq!(s.get_ini_header().get("server").map(|v| v.as_str()), Some("x"));
    assert!(!s.needs_read());
    for _ in 0..2 {
        let r = s.next_without_read().unwrap();
        assert_eq!(r.status_code, 404);
        assert_eq!(r.body, "ERROR: Failed to read stream response from http://h/missing. Status: Not Found.");
        assert_eq!(r.header.get("server").map(|v| v.as_str()), Some("x"));
    }
}

#[test]
fn extractor_gathers_chunks() {
    let ex = BodyExtractor::new(200, HashMap::new(), Some("1.2.3.4".into()), "GET", "http://h/");
    assert_eq!(ex.mode(), BodyMode::Streamed);
    let mut cur = ex;
    let events = vec![
        ChunkRead::Data(b"Hello ".to_vec()),
        ChunkRead::Failed,
        ChunkRead::Data(b"World!".to_vec()),
        ChunkRead::End,
    ];
    let mut out = None;
    for ev in events {
        match cur.on_chunk(ev) {
            ExtractStep::Continue(next) => cur = next,
            ExtractStep::Done(r) => {
                out = Some(r);
                break;
            }
        }
    }
    let r = out.unwrap();
    assert_eq!(r.body, "Hello World!");
    assert_eq!(r.status_code, 200);
    assert_eq!(r.remote_address, "1.2.3.4");
}

#[test]
fn extractor_returns_partial_body_after_too_many_failures() {
    let mut cur = BodyExtractor::new(201, HashMap::new(), None, "POST", "u");
    match cur.on_chunk(ChunkRead::Data(b"part".to_vec())) {
        ExtractStep::Continue(next) => cur = next,
        ExtractStep::Done(_) => panic!("stopped early"),
    }
    for _ in 0..READ_ERROR_CEILING {
        match cur.on_chunk(ChunkRead::Failed) {
            ExtractStep::Continue(next) => cur = next,
            ExtractStep::Done(_) => panic!("stopped early"),
        }
    }
    match cur.on_chunk(ChunkRead::Failed) {
        ExtractStep::Done(r) => {
            assert_eq!(r.body, "part");
            assert_eq!(r.remote_address, "0.0.0.0");
        }
        ExtractStep::Continue(_) => panic!("did not stop"),
    }
}

#[test]
fn extractor_modes_by_status() {
    let diag = BodyExtractor::new(404, HashMap::new(), None, "GET", "http://h/uh/api.php");
    assert_eq!(diag.mode(), BodyMode::Diagnostic);
    let r = diag.finish_diagnostic();
    assert_eq!(r.status_code, 404);
    assert!(r.is_error());
    assert_eq!(r.body, "ERROR: Failed to get response from GET:http://h/uh/api.php -Error: Not Found");
    let whole = BodyExtractor::new(304, HashMap::new(), None, "GET", "u");
    assert_eq!(whole.mode(), BodyMode::Whole);
    assert_eq!(whole.finish_whole("text".to_string()).body, "text");
    assert_eq!(BodyExtractor::new(101, HashMap::new(), None, "GET", "u").mode(), BodyMode::Whole);
}

#[test]
fn unknown_reason_phrase() {
    assert_eq!(error_body("PUT", "u", 499), "ERROR: Failed to get response from PUT:u -Error: UNKNOWN ERROR!");
    assert_eq!(error_body("GET", "u", 500), "ERROR: Failed to get response from GET:u -Error: Internal Server Error");
}

#[test]
fn resolve_substitutes_every_present_placeholder() {
    let (url, left) = resolve_path_params(
        "/{a}/{b}?{c}",
        &pairs(&[("a", "{b}"), ("b", "x"), ("z", "1"), ("c", "y")]),
    );
    assert_eq!(url, "/x/x?y");
    assert_eq!(left, pairs(&[("z", "1")]));
}

#[test]
fn invalid_local_certificate_is_skipped() {
    let o = classify_overrides(&vec![(DANGER_ACCEPT_INVALID_HOSTNAMES.to_string(), true)]);
    assert!(tls_connector(&vec![b"not a certificate".to_vec()], &o).is_some());
    let c = HttpClient::new(
        false,
        true,
        Some(vec![(DANGER_ACCEPT_INVALID_HOSTNAMES.to_string(), true)]),
        vec![b"not a certificate".to_vec()],
    );
    assert!(c.is_ok());
}
