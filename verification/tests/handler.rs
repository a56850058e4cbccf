use axum::http::HeaderMap;
use axum::http::HeaderValue;
use reverse_proxy::config::Server;
use reverse_proxy::handler::{forward, relay, Upstream};
use reverse_proxy::record::Route;
use reverse_proxy::{Config, HandlerErr};

fn server() -> Server {
    Server { port: "3000".to_string(), host: "0.0.0.0".to_string(), cors: None, logging: None }
}

fn users() -> Route {
    Route {
        path: "/api/users".to_string(),
        target: "http://upstream:8080".to_string(),
        methods: vec!["GET".to_string()],
        rewrite: None,
        remove_request_headers: None,
        add_response_headers: None,
    }
}

fn config(routes: Vec<Route>) -> Config {
    Config::new(server(), routes).ok().unwrap()
}

#[test]
fn a_trailing_slash_is_matched_and_forwarded() {
    let config = config(vec![users()]);
    let (request, record) = forward(&config, "GET", "/api/users/", &HeaderMap::new()).unwrap();
    assert_eq!(request.url.href, "http://upstream:8080/api/users");
    assert_eq!(request.method.as_str(), "GET");
    assert!(request.headers.is_empty());
    assert_eq!(record.target, "http://upstream:8080");
}

#[test]
fn a_disallowed_method_is_a_bad_request() {
    let config = config(vec![users()]);
    let failure = forward(&config, "POST", "/api/users", &HeaderMap::new()).unwrap_err();
    assert_eq!(failure, HandlerErr::BADREQUEST("Method not supported".to_string()));
    assert_eq!(failure.into_response().status, 400);
}

#[test]
fn an_unknown_path_is_not_found() {
    let config = config(vec![users()]);
    let failure = forward(&config, "GET", "/unknown", &HeaderMap::new()).unwrap_err();
    assert_eq!(failure, HandlerErr::NOTFOUND);
    let response = failure.into_response();
    assert_eq!(response.status, 404);
    assert_eq!(response.body.error, "not found");
}

#[test]
fn rewrite_and_removal_shape_the_outbound_request() {
    let mut route = users();
    route.rewrite = Some("/v2/users".to_string());
    route.remove_request_headers = Some(vec!["Authorization".to_string()]);
    let config = config(vec![route]);
    let mut headers = HeaderMap::new();
    headers.insert("authorization", HeaderValue::from_static("secret"));
    headers.insert("x-trace", HeaderValue::from_static("1"));
    let (request, _) = forward(&config, "GET", "/api/users", &headers).unwrap();
    assert_eq!(request.url.href, "http://upstream:8080/v2/users");
    assert_eq!(request.headers.get("X-Trace"), Some(&HeaderValue::from_static("1")));
    assert!(!request.headers.contains_key("Authorization"));
    assert_eq!(request.headers.len(), 1);
}

#[test]
fn an_addition_overwrites_the_header_of_the_upstream() {
    let mut route = users();
    route.add_response_headers = Some(vec![("X-Proxied-By".to_string(), "gateway".to_string())]);
    let config = config(vec![route]);
    let (_, record) = forward(&config, "GET", "/api/users", &HeaderMap::new()).unwrap();
    let mut headers = HeaderMap::new();
    headers.insert("x-proxied-by", HeaderValue::from_static("origin"));
    let upstream = Upstream::Replied { status: 200, headers, body: b"[]".to_vec() };
    let (response, applied) = relay(record, upstream).unwrap();
    assert_eq!(response.status, 200);
    assert_eq!(response.headers.get("X-Proxied-By"), Some(&HeaderValue::from_static("gateway")));
    assert_eq!(response.headers.get_all("x-proxied-by").iter().count(), 1);
    assert_eq!(response.body, b"[]".to_vec());
    assert_eq!(applied, vec![true]);
}

#[test]
fn an_unknown_path_is_not_found_whatever_the_method_and_headers() {
    let config = config(vec![users()]);
    let mut headers = HeaderMap::new();
    headers.insert("authorization", HeaderValue::from_static("secret"));
    for token in ["GET", "POST", "DELETE", "PURGE"] {
        for path in ["/unknown", "/api", "/api/users/1", "/api/users//", "/API/users", ""] {
            assert_eq!(
                forward(&config, token, path, &headers).unwrap_err(),
                HandlerErr::NOTFOUND
            );
        }
    }
}

#[test]
fn a_disallowed_method_is_never_not_found_nor_forwarded() {
    let mut route = users();
    route.methods = vec!["GET".to_string(), "HEAD".to_string()];
    let config = config(vec![route]);
    for token in ["POST", "PUT", "DELETE", "PATCH", "OPTIONS", "GETX"] {
        assert_eq!(
            forward(&config, token, "api/users/", &HeaderMap::new()).unwrap_err(),
            HandlerErr::BADREQUEST("Method not supported".to_string())
        );
    }
}

#[test]
fn the_case_of_the_method_does_not_matter() {
    let mut route = users();
    route.methods = vec!["get".to_string()];
    let config = config(vec![route]);
    let (request, _) = forward(&config, "Get", "/api/users", &HeaderMap::new()).unwrap();
    assert_eq!(request.method.as_str(), "GET");
}

#[test]
fn a_request_that_cannot_be_built_is_an_internal_error() {
    let mut route = users();
    route.target = "unix:/run/upstream.socket".to_string();
    let config = config(vec![route]);
    let failure = forward(&config, "GET", "/api/users", &HeaderMap::new()).unwrap_err();
    assert_eq!(
        failure,
        HandlerErr::INTERNALERROR("Error while building proxy request".to_string())
    );
    assert_eq!(failure.into_response().status, 500);
}

#[test]
fn the_matched_record_is_the_one_in_the_table() {
    let mut other = users();
    other.path = "/api/orders".to_string();
    other.target = "http://orders:9090".to_string();
    let config = config(vec![users(), other]);
    let (request, record) = forward(&config, "GET", "/api/orders/", &HeaderMap::new()).unwrap();
    assert_eq!(record.target, "http://orders:9090");
    assert_eq!(request.url.href, "http://orders:9090/api/orders");
    assert_eq!(request.url.port, Some(9090));
}

#[test]
fn a_failed_upstream_call_is_an_internal_error_with_its_text() {
    let config = config(vec![users()]);
    let record = config.lookup("/api/users").unwrap();
    let failure = relay(record, Upstream::Failed("connection refused".to_string())).unwrap_err();
    assert_eq!(failure, HandlerErr::INTERNALERROR("connection refused".to_string()));
    let response = failure.into_response();
    assert_eq!(response.status, 500);
    assert_eq!(response.body.error, "connection refused");
}

#[test]
fn an_upstream_error_status_is_passed_on() {
    let config = config(vec![users()]);
    let record = config.lookup("/api/users").unwrap();
    let mut headers = HeaderMap::new();
    headers.insert("retry-after", HeaderValue::from_static("3"));
    let upstream = Upstream::Replied { status: 503, headers: headers.clone(), body: b"busy".to_vec() };
    let (response, applied) = relay(record, upstream).unwrap();
    assert_eq!(response.status, 503);
    assert_eq!(response.headers, headers);
    assert_eq!(response.body, b"busy".to_vec());
    assert!(applied.is_empty());
}

#[test]
fn what_is_no_method_is_a_bad_request_on_a_known_path() {
    let config = config(vec![users()]);
    for token in ["", "G ET", "GET\r\n", "G\u{e9}T"] {
        assert_eq!(
            forward(&config, token, "/api/users", &HeaderMap::new()).unwrap_err(),
            HandlerErr::BADREQUEST("Method not supported".to_string())
        );
    }
}

#[test]
fn what_is_no_method_is_not_found_on_an_unknown_path() {
    let config = config(vec![users()]);
    assert_eq!(
        forward(&config, "not a method", "/nowhere", &HeaderMap::new()).unwrap_err(),
        HandlerErr::NOTFOUND
    );
}

#[test]
fn relaying_the_response_again_gives_the_same_headers() {
    let mut route = users();
    route.add_response_headers = Some(vec![
        ("X-Proxied-By".to_string(), "gateway".to_string()),
        ("cache-control".to_string(), "no-store".to_string()),
        ("bad name".to_string(), "skipped".to_string()),
    ]);
    let config = config(vec![route]);
    let (_, record) = forward(&config, "GET", "/api/users", &HeaderMap::new()).unwrap();
    let mut headers = HeaderMap::new();
    headers.append("x-proxied-by", HeaderValue::from_static("origin"));
    headers.append("x-proxied-by", HeaderValue::from_static("edge"));
    headers.insert("content-type", HeaderValue::from_static("text/plain"));
    let first = Upstream::Replied { status: 200, headers, body: b"a".to_vec() };
    let (once, applied_once) = relay(record, first).unwrap();
    let second =
        Upstream::Replied { status: 200, headers: once.headers.clone(), body: b"a".to_vec() };
    let (twice, applied_twice) = relay(record, second).unwrap();
    assert_eq!(twice.headers, once.headers);
    assert_eq!(applied_once, vec![true, true, false]);
    assert_eq!(applied_twice, applied_once);
    assert_eq!(twice.headers.get_all("x-proxied-by").iter().count(), 1);
    assert_eq!(twice.headers.len(), 3);
}
