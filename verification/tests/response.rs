use chouten::response::{
    build_response, classify_method, collapse_headers, insert_header, lookup_header, plan_request,
    HostResponse, HttpMethod, TransportSuccess,
};

fn pairs(list: &[(&str, &str)]) -> Vec<(String, String)> {
    list.iter().map(|(k, v)| (k.to_string(), v.to_string())).collect()
}

#[test]
fn only_get_and_post_are_supported() {
    assert_eq!(classify_method("GET"), Some(HttpMethod::Get));
    assert_eq!(classify_method("POST"), Some(HttpMethod::Post));
    assert_eq!(classify_method("PUT"), None);
    assert_eq!(classify_method("DELETE"), None);
    assert_eq!(classify_method("get"), None);
    assert_eq!(classify_method(""), None);
}

#[test]
fn unsupported_method_is_refused_loudly() {
    let r = plan_request("https://example.com", "PATCH");
    assert_eq!(r.unwrap_err(), "Unsupported method: PATCH");
}

#[test]
fn supported_method_yields_a_plan() {
    let p = plan_request("https://example.com", "POST").unwrap();
    assert_eq!(p.url, "https://example.com");
    assert_eq!(p.method, HttpMethod::Post);
}

#[test]
fn transport_failure_degrades_to_synthetic_500() {
    let r = build_response(None);
    assert_eq!(r.status_code, 500);
    assert_eq!(r.body, "Internal Server Error");
    assert_eq!(r.content_type, "");
    assert!(r.headers.is_empty());
}

#[test]
fn degraded_constructor_matches_the_failure_shape() {
    let r = HostResponse::degraded();
    assert_eq!(r.status_code, 500);
    assert_eq!(r.body, "Internal Server Error");
    assert_eq!(r.content_type, "");
    assert!(r.headers.is_empty());
}

#[test]
fn success_keeps_status_and_body() {
    let r = build_response(Some(TransportSuccess {
        status_code: 404,
        headers: Vec::new(),
        body: "not here".to_string(),
    }));
    assert_eq!(r.status_code, 404);
    assert_eq!(r.body, "not here");
    assert_eq!(r.content_type, "");
    assert!(r.headers.is_empty());
}

#[test]
fn every_transport_header_appears_with_its_value() {
    let r = build_response(Some(TransportSuccess {
        status_code: 200,
        headers: pairs(&[
            ("content-type", "text/html"),
            ("server", "unit"),
            ("x-key", "alpha"),
        ]),
        body: String::new(),
    }));
    assert_eq!(lookup_header(&r.headers, "content-type"), Some("text/html".to_string()));
    assert_eq!(lookup_header(&r.headers, "server"), Some("unit".to_string()));
    assert_eq!(lookup_header(&r.headers, "x-key"), Some("alpha".to_string()));
    assert_eq!(lookup_header(&r.headers, "absent"), None);
    assert_eq!(r.headers.len(), 3);
}

#[test]
fn duplicate_header_names_collapse_to_last_value() {
    let r = build_response(Some(TransportSuccess {
        status_code: 200,
        headers: pairs(&[("x-key", "first"), ("server", "unit"), ("x-key", "last")]),
        body: String::new(),
    }));
    assert_eq!(lookup_header(&r.headers, "x-key"), Some("last".to_string()));
    assert_eq!(r.headers.len(), 2);
}

#[test]
fn content_type_comes_from_the_collapsed_mapping() {
    let r = build_response(Some(TransportSuccess {
        status_code: 200,
        headers: pairs(&[("content-type", "text/plain"), ("content-type", "application/json")]),
        body: String::new(),
    }));
    assert_eq!(r.content_type, "application/json");
}

#[test]
fn insert_header_overwrites_in_place() {
    let mut hs = pairs(&[("a", "1"), ("b", "2")]);
    insert_header(&mut hs, "a".to_string(), "3".to_string());
    assert_eq!(hs, pairs(&[("a", "3"), ("b", "2")]));
    insert_header(&mut hs, "c".to_string(), "4".to_string());
    assert_eq!(hs, pairs(&[("a", "3"), ("b", "2"), ("c", "4")]));
}

#[test]
fn collapse_keeps_first_position_last_value() {
    let collapsed = collapse_headers(&pairs(&[("a", "1"), ("b", "2"), ("a", "3")]));
    assert_eq!(collapsed, pairs(&[("a", "3"), ("b", "2")]));
}
