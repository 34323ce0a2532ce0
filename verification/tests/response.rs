use http_send::decode::BodyType;
use http_send::error::{DecodeFault, HttpError};
use http_send::request::Request;
use http_send::response::{complete, join_status_line, status_line, Status};
use reqwest::header::{HeaderMap, HeaderValue, CONTENT_TYPE, SET_COOKIE};

fn plain() -> Request {
    Request::new("http://localhost/".to_string(), reqwest::Method::GET)
}

fn status(code: u16) -> Status {
    Status::new(code).unwrap()
}

#[test]
fn status_is_a_number_of_three_digits() {
    assert!(Status::new(0).is_none());
    assert!(Status::new(99).is_none());
    assert_eq!(Status::new(100).unwrap().as_u16(), 100);
    assert_eq!(Status::new(999).unwrap().as_u16(), 999);
    assert!(Status::new(1000).is_none());
    assert!(Status::new(u16::MAX).is_none());
}

#[test]
fn status_line_has_code_and_reason() {
    assert_eq!(status_line(status(200)), "200 OK");
    assert_eq!(status_line(status(404)), "404 Not Found");
    assert_eq!(status_line(status(100)), "100 Continue");
    assert_eq!(status_line(status(503)), "503 Service Unavailable");
    assert_eq!(status_line(status(301)), "301 Moved Permanently");
}

#[test]
fn status_line_of_unregistered_code_has_no_reason() {
    assert_eq!(status_line(status(599)), "599");
    assert_eq!(status_line(status(999)), "999");
    assert_eq!(status_line(status(209)), "209");
}

#[test]
fn status_line_is_joined_with_one_space() {
    assert_eq!(join_status_line("200".to_string(), Some("OK")), "200 OK");
    assert_eq!(join_status_line("200".to_string(), None), "200");
    assert_eq!(join_status_line("".to_string(), Some("")), " ");
}

#[test]
fn response_keeps_what_came() {
    let mut headers = HeaderMap::new();
    headers.append(SET_COOKIE, HeaderValue::from_static("a=1"));
    headers.append(SET_COOKIE, HeaderValue::from_static("b=2"));
    headers.insert("x-one", HeaderValue::from_static("1"));
    let r = complete(&plain(), status(201), headers.clone(), "created".to_string()).unwrap();
    assert_eq!(r.status, "201 Created");
    assert_eq!(r.status_code, 201);
    assert!(r.body.is_none());
    assert_eq!(r.raw_body, "created");
    assert_eq!(r.headers, headers);
    let cookies: Vec<&HeaderValue> = r.headers.get_all(SET_COOKIE).iter().collect();
    assert_eq!(cookies.len(), 2);
    assert_eq!(cookies[0], "a=1");
    assert_eq!(cookies[1], "b=2");
    assert!(r.error.is_empty());
}

#[test]
fn response_decodes_json_and_keeps_the_text() {
    let mut headers = HeaderMap::new();
    headers.insert(CONTENT_TYPE, HeaderValue::from_static("application/json"));
    let text = "{\"n\": [1, 2.5]}";
    let r = complete(&plain(), status(200), headers, text.to_string()).unwrap();
    assert_eq!(r.raw_body, text);
    let mut expected = serde_json::Map::new();
    let items = vec![serde_json::Value::from(1), serde_json::Value::from(2.5)];
    expected.insert("n".to_string(), serde_json::Value::Array(items));
    match r.body {
        Some(BodyType::Json(v)) => assert_eq!(v, serde_json::Value::Object(expected)),
        other => panic!("no JSON body: {:?}", other),
    }
}

#[test]
fn raise_error_false_withholds_the_status_code() {
    let mut data = plain();
    data.raise_error = Some(false);
    let r = complete(&data, status(500), HeaderMap::new(), "".to_string()).unwrap();
    assert_eq!(r.status_code, 0);
    assert_eq!(r.status, "500 Internal Server Error");
}

#[test]
fn raise_error_true_reports_the_status_code() {
    let mut data = plain();
    data.raise_error = Some(true);
    let r = complete(&data, status(500), HeaderMap::new(), "".to_string()).unwrap();
    assert_eq!(r.status_code, 500);
    assert_eq!(r.status, "500 Internal Server Error");
}

#[test]
fn malformed_body_yields_no_response() {
    let mut data = plain();
    data.force_yaml_decode = Some(true);
    let r = complete(&data, status(200), HeaderMap::new(), "a: [".to_string());
    assert!(matches!(r, Err(HttpError::Decode(DecodeFault::Yaml(_)))));
}
