use megalodon::entities::Instance;
use megalodon::error::Kind;
use megalodon::firefish::default_scopes;
use megalodon::generic::api_client::{conclude, deliver, APIClient, Conclusion, Exchange};
use megalodon::headers::header_value;
use megalodon::request::{Method, ReqBody};
use megalodon::response::Response;
use megalodon::strutil::{parse_u32, str_contains};

fn headers_of(pairs: &[(&str, &str)]) -> Vec<(String, String)> {
    let mut v = Vec::new();
    for (name, value) in pairs {
        v.push((name.to_string(), value.to_string()));
    }
    v
}

#[test]
fn get_carries_token_and_url() {
    let c = APIClient::new(
        "https://example.test".to_string(),
        Some("tok123".to_string()),
        None,
    )
    .unwrap();
    let d = c.get("/api/v1/instance", None).unwrap();
    assert_eq!(d.url, "https://example.test/api/v1/instance");
    assert_eq!(d.bearer, Some("tok123".to_string()));
    assert_eq!(d.method, Method::Get);
    assert!(d.headers.is_empty());
    assert!(matches!(d.body, ReqBody::Empty));
}

#[test]
fn no_token_sends_no_bearer() {
    let c = APIClient::new("https://example.test".to_string(), None, None).unwrap();
    let d = c.get("/api/v1/instance", None).unwrap();
    assert_eq!(d.bearer, None);
}

#[test]
fn verbs_pick_their_methods() {
    let c = APIClient::new("https://example.test".to_string(), None, None).unwrap();
    assert_eq!(c.post("/p", Vec::new(), None).unwrap().method, Method::Post);
    assert_eq!(c.put("/p", Vec::new(), None).unwrap().method, Method::Put);
    assert_eq!(c.patch("/p", Vec::new(), None).unwrap().method, Method::Patch);
    assert_eq!(c.delete("/p", Vec::new(), None).unwrap().method, Method::Delete);
    let d = c
        .post("/p", vec![("k".to_string(), serde_json::Value::from(1u64))], None)
        .unwrap();
    match d.body {
        ReqBody::Json(pairs) => assert_eq!(pairs[0].0, "k"),
        _ => panic!("expected a structured body"),
    }
}

#[test]
fn caller_headers_are_kept() {
    let c = APIClient::new("https://example.test".to_string(), None, None).unwrap();
    let hs = headers_of(&[("accept", "application/json")]);
    let d = c.get("/x", Some(hs.clone())).unwrap();
    assert_eq!(d.headers, hs);
}

#[test]
fn bad_url_is_refused() {
    let c = APIClient::new("".to_string(), None, None).unwrap();
    let e = c.get("", None).unwrap_err();
    assert_eq!(e.kind, Kind::UrlParseError);
    assert_eq!(e.url, Some("".to_string()));
    assert_eq!(e.status, None);
}

#[test]
fn scenario_get_instance() {
    let c = APIClient::new(
        "https://example.test".to_string(),
        Some("tok123".to_string()),
        None,
    )
    .unwrap();
    let d = c.get("/api/v1/instance", None).unwrap();
    let body = "{\"title\":\"X\",\"uri\":\"example.test\",\"version\":\"4.0.0\"}";
    let ex = Exchange::Replied {
        status: 200,
        headers: headers_of(&[("content-type", "application/json")]),
        body: Some(body.to_string()),
    };
    match conclude(d.url.clone(), ex) {
        Conclusion::Deliver { headers, body } => {
            let v: serde_json::Value = serde_json::from_str(&body.unwrap()).unwrap();
            let payload = Instance {
                title: v.get("title").unwrap().as_str().unwrap().to_string(),
                uri: v.get("uri").unwrap().as_str().unwrap().to_string(),
                version: v.get("version").unwrap().as_str().unwrap().to_string(),
            };
            let resp: Response<Instance> = Response::new(payload, headers);
            assert_eq!(resp.payload.title, "X");
            assert_eq!(resp.payload.uri, "example.test");
            assert_eq!(resp.payload.version, "4.0.0");
            assert_eq!(resp.headers.len(), 1);
            assert!(resp.rate_limit.is_none());
        }
        Conclusion::Abort { error } => panic!("unexpected failure: {:?}", error.kind),
    }
}

#[test]
fn accepted_statuses_deliver_headers_unchanged() {
    for status in [200u16, 201, 202, 204] {
        let hs = headers_of(&[("x-a", "1"), ("x-b", "2")]);
        let ex = Exchange::Replied {
            status,
            headers: hs.clone(),
            body: Some("[]".to_string()),
        };
        match conclude("https://example.test/x".to_string(), ex) {
            Conclusion::Deliver { headers, body } => {
                assert_eq!(headers, hs);
                assert_eq!(body, Some("[]".to_string()));
            }
            Conclusion::Abort { .. } => panic!("status {} must deliver", status),
        }
    }
}

#[test]
fn partial_content_is_its_own_kind() {
    let ex = Exchange::Replied {
        status: 206,
        headers: headers_of(&[("x-a", "1")]),
        body: Some("anything at all".to_string()),
    };
    match conclude("https://example.test/x".to_string(), ex) {
        Conclusion::Abort { error } => {
            assert_eq!(error.kind, Kind::HTTPPartialContentError);
            assert_ne!(error.kind, Kind::HTTPStatusError);
            assert_eq!(error.status, Some(206));
            assert_eq!(error.url, Some("https://example.test/x".to_string()));
            assert_eq!(
                error.message,
                "The requested resource is still being processed"
            );
            assert!(error.headers.is_some());
        }
        Conclusion::Deliver { .. } => panic!("206 must not deliver"),
    }
}

#[test]
fn status_error_carries_status_and_body_text() {
    let ex = Exchange::Replied {
        status: 404,
        headers: Vec::new(),
        body: Some("Record not found".to_string()),
    };
    match conclude("https://example.test/x".to_string(), ex) {
        Conclusion::Abort { error } => {
            assert_eq!(error.kind, Kind::HTTPStatusError);
            assert_eq!(error.status, Some(404));
            assert_eq!(error.message, "Record not found");
        }
        Conclusion::Deliver { .. } => panic!("404 must not deliver"),
    }
}

#[test]
fn unreadable_body_gets_fallback_text() {
    let ex = Exchange::Replied {
        status: 500,
        headers: Vec::new(),
        body: None,
    };
    match conclude("https://example.test/x".to_string(), ex) {
        Conclusion::Abort { error } => {
            assert_eq!(error.kind, Kind::HTTPStatusError);
            assert_eq!(error.status, Some(500));
            assert_eq!(error.message, "Unknown error");
        }
        Conclusion::Deliver { .. } => panic!("500 must not deliver"),
    }
}

#[test]
fn transport_failure_is_connection_error() {
    let ex = Exchange::Failed {
        cause: "dns error".to_string(),
    };
    match conclude("https://example.test/x".to_string(), ex) {
        Conclusion::Abort { error } => {
            assert_eq!(error.kind, Kind::RequestError);
            assert_eq!(error.message, "dns error");
            assert_eq!(error.status, None);
        }
        Conclusion::Deliver { .. } => panic!("a failed round trip must not deliver"),
    }
}

#[test]
fn rate_limit_read_from_headers() {
    let hs = headers_of(&[
        ("x-ratelimit-limit", "300"),
        ("x-ratelimit-remaining", "150"),
        ("x-ratelimit-reset", "2022-01-01T00:00:00Z"),
    ]);
    let resp: Response<()> = Response::new((), hs);
    let rl = resp.rate_limit.unwrap();
    assert_eq!(rl.limit, Some(300));
    assert_eq!(rl.remaining, Some(150));
    assert_eq!(rl.reset, Some("2022-01-01T00:00:00Z".to_string()));
}

#[test]
fn rate_limit_absent_without_headers() {
    let hs = headers_of(&[("content-type", "application/json")]);
    let resp: Response<()> = Response::new((), hs);
    assert!(resp.rate_limit.is_none());
}

#[test]
fn unreadable_quota_field_is_dropped() {
    let hs = headers_of(&[("x-ratelimit-limit", "a lot")]);
    let resp: Response<()> = Response::new((), hs);
    let rl = resp.rate_limit.unwrap();
    assert_eq!(rl.limit, None);
    assert_eq!(rl.remaining, None);
}

#[test]
fn header_lookup_takes_first_match() {
    let hs = headers_of(&[("x-a", "first"), ("x-a", "second")]);
    assert_eq!(header_value(&hs, "x-a"), Some(&"first".to_string()));
    assert_eq!(header_value(&hs, "x-b"), None);
}

#[test]
fn digit_parsing_is_exact() {
    assert_eq!(parse_u32("0"), Some(0));
    assert_eq!(parse_u32("300"), Some(300));
    assert_eq!(parse_u32("4294967295"), Some(u32::MAX));
    assert_eq!(parse_u32("4294967296"), None);
    assert_eq!(parse_u32(""), None);
    assert_eq!(parse_u32("12a"), None);
    assert_eq!(parse_u32("-1"), None);
}

#[test]
fn substring_search_is_exact() {
    assert!(str_contains("2.7.2 (compatible; Pleroma 2.5.0)", "Pleroma"));
    assert!(!str_contains("4.0.0", "Pleroma"));
    assert!(str_contains("abc", ""));
    assert!(!str_contains("ab", "abc"));
}

#[test]
fn scope_list_is_published() {
    let scopes = default_scopes();
    assert_eq!(scopes.len(), 18);
    assert_eq!(scopes[0], "read:account");
    assert_eq!(scopes[17], "write:votes");
}

#[test]
fn json_body_round_trip() {
    let mut m = serde_json::Map::new();
    m.insert(
        "status".to_string(),
        serde_json::Value::String("hello world".to_string()),
    );
    m.insert("count".to_string(), serde_json::Value::from(3u64));
    let v = serde_json::Value::Object(m);
    let text = serde_json::to_string(&v).unwrap();
    let back: serde_json::Value = serde_json::from_str(&text).unwrap();
    assert_eq!(v, back);
}

#[test]
fn multipart_body_is_carried() {
    let c = APIClient::new("https://example.test".to_string(), None, None).unwrap();
    let form = reqwest::multipart::Form::new().text("description", "a caption");
    let d = c.post_multipart("/api/v1/media", form, None).unwrap();
    assert_eq!(d.url, "https://example.test/api/v1/media");
    assert_eq!(d.method, Method::Post);
    assert!(matches!(d.body, ReqBody::Multipart(_)));
}

#[test]
fn user_agent_defaults_and_is_kept() {
    let c = APIClient::new("https://example.test".to_string(), None, None).unwrap();
    assert_eq!(c.user_agent, "megalodon");
    let c = APIClient::new(
        "https://example.test".to_string(),
        None,
        Some("custom-agent/1.0".to_string()),
    )
    .unwrap();
    assert_eq!(c.user_agent, "custom-agent/1.0");
}

#[test]
fn decoded_payload_is_delivered() {
    let hs = headers_of(&[("x-ratelimit-limit", "300")]);
    let r: Response<u64> = deliver(
        "https://example.test/x".to_string(),
        hs.clone(),
        Ok(7u64),
    )
    .unwrap();
    assert_eq!(r.payload, 7);
    assert_eq!(r.headers, hs);
    assert_eq!(r.rate_limit.unwrap().limit, Some(300));
}

#[test]
fn decode_failure_is_parse_error() {
    let e = deliver::<u64>(
        "https://example.test/x".to_string(),
        Vec::new(),
        Err("expected value at line 1".to_string()),
    )
    .unwrap_err();
    assert_eq!(e.kind, Kind::ParseError);
    assert_eq!(e.message, "expected value at line 1");
    assert_eq!(e.url, Some("https://example.test/x".to_string()));
    assert_eq!(e.status, None);
}
