use http_send::decode::{
    content_type, decode_body, decoder_for_media_type, forced, negotiate, BodyType, Decoder,
};
use http_send::error::{DecodeFault, HttpError};
use http_send::request::Request;
use reqwest::header::{HeaderMap, HeaderValue, CONTENT_TYPE};

fn plain() -> Request {
    Request::new("http://localhost/".to_string(), reqwest::Method::GET)
}

fn typed(media_type: &'static str) -> HeaderMap {
    let mut headers = HeaderMap::new();
    headers.insert(CONTENT_TYPE, HeaderValue::from_static(media_type));
    headers
}

fn json_of(data: &Request, headers: &HeaderMap, raw_body: &str) -> serde_json::Value {
    match decode_body(data, headers, raw_body) {
        Ok(Some(BodyType::Json(v))) => v,
        other => panic!("no JSON body: {:?}", other),
    }
}

fn yaml_of(data: &Request, headers: &HeaderMap, raw_body: &str) -> serde_yaml::Value {
    match decode_body(data, headers, raw_body) {
        Ok(Some(BodyType::Yaml(v))) => v,
        other => panic!("no YAML body: {:?}", other),
    }
}

#[test]
fn empty_body_is_not_decoded() {
    let mut data = plain();
    data.force_json_decode = Some(true);
    assert!(matches!(decode_body(&data, &typed("application/json"), ""), Ok(None)));
    assert!(matches!(decode_body(&data, &HeaderMap::new(), ""), Ok(None)));
}

#[test]
fn json_content_type_decodes_an_empty_object() {
    let v = json_of(&plain(), &typed("application/json"), "{}");
    assert_eq!(v, serde_json::Value::Object(serde_json::Map::new()));
}

#[test]
fn json_content_type_decodes_an_empty_array() {
    let v = json_of(&plain(), &typed("application/json"), "[]");
    assert_eq!(v, serde_json::Value::Array(Vec::new()));
}

#[test]
fn json_content_type_decodes_nested_objects() {
    let text = "{\"a\": {\"b\": {\"c\": [1, \"two\", null, true, {\"d\": -3}]}}}";
    let v = json_of(&plain(), &typed("application/json"), text);
    let mut d = serde_json::Map::new();
    d.insert("d".to_string(), serde_json::Value::from(-3));
    let list = vec![
        serde_json::Value::from(1),
        serde_json::Value::from("two"),
        serde_json::Value::Null,
        serde_json::Value::Bool(true),
        serde_json::Value::Object(d),
    ];
    let mut c = serde_json::Map::new();
    c.insert("c".to_string(), serde_json::Value::Array(list));
    let mut b = serde_json::Map::new();
    b.insert("b".to_string(), serde_json::Value::Object(c));
    let mut a = serde_json::Map::new();
    a.insert("a".to_string(), serde_json::Value::Object(b));
    assert_eq!(v, serde_json::Value::Object(a));
}

#[test]
fn json_content_type_decodes_deep_nesting() {
    let depth = 100;
    let text = format!("{}{}", "[".repeat(depth), "]".repeat(depth));
    let mut v = json_of(&plain(), &typed("application/json"), &text);
    let mut seen = 0;
    loop {
        match v {
            serde_json::Value::Array(mut items) => {
                seen += 1;
                match items.pop() {
                    Some(inner) => {
                        assert!(items.is_empty());
                        v = inner;
                    }
                    None => break,
                }
            }
            other => panic!("not an array: {:?}", other),
        }
    }
    assert_eq!(seen, depth);
}

#[test]
fn json_nested_beyond_the_limit_of_the_reader_fails_the_call() {
    let depth = 200;
    let text = format!("{}{}", "[".repeat(depth), "]".repeat(depth));
    let r = decode_body(&plain(), &typed("application/json"), &text);
    assert!(matches!(r, Err(HttpError::Decode(DecodeFault::Json(_)))));
}

#[test]
fn malformed_json_fails_the_call() {
    let r = decode_body(&plain(), &typed("application/json"), "{\"a\": ");
    assert!(matches!(r, Err(HttpError::Decode(DecodeFault::Json(_)))));
    let mut data = plain();
    data.force_json_decode = Some(true);
    let r = decode_body(&data, &HeaderMap::new(), "not json");
    assert!(matches!(r, Err(HttpError::Decode(DecodeFault::Json(_)))));
}

#[test]
fn yaml_content_types_decode_yaml() {
    let expected = serde_yaml::Value::Sequence(vec![
        serde_yaml::Value::from(1),
        serde_yaml::Value::from("b"),
    ]);
    assert_eq!(yaml_of(&plain(), &typed("application/yaml"), "- 1\n- b\n"), expected);
    assert_eq!(yaml_of(&plain(), &typed("application/x-yaml"), "- 1\n- b\n"), expected);
}

#[test]
fn malformed_yaml_fails_the_call() {
    let r = decode_body(&plain(), &typed("application/yaml"), "a: [1, 2");
    assert!(matches!(r, Err(HttpError::Decode(DecodeFault::Yaml(_)))));
}

#[test]
fn other_content_type_leaves_the_body_raw() {
    let mut data = plain();
    data.force_json_decode = Some(true);
    data.force_yaml_decode = Some(true);
    assert!(matches!(decode_body(&data, &typed("text/plain"), "{}"), Ok(None)));
    let with_parameter = typed("application/json; charset=utf-8");
    assert!(matches!(decode_body(&data, &with_parameter, "{}"), Ok(None)));
    assert!(matches!(decode_body(&data, &typed("Application/JSON"), "{}"), Ok(None)));
}

#[test]
fn content_type_goes_before_force_flags() {
    let mut data = plain();
    data.force_json_decode = Some(true);
    let v = yaml_of(&data, &typed("application/yaml"), "a: 1\n");
    let mut expected = serde_yaml::Mapping::new();
    expected.insert(serde_yaml::Value::from("a"), serde_yaml::Value::from(1));
    assert_eq!(v, serde_yaml::Value::Mapping(expected));
}

#[test]
fn force_json_decodes_without_content_type() {
    let mut data = plain();
    data.force_json_decode = Some(true);
    let v = json_of(&data, &HeaderMap::new(), "[1]");
    assert_eq!(v, serde_json::Value::Array(vec![serde_json::Value::from(1)]));
}

#[test]
fn force_json_goes_before_force_yaml() {
    let mut data = plain();
    data.force_json_decode = Some(true);
    data.force_yaml_decode = Some(true);
    let v = json_of(&data, &HeaderMap::new(), "{\"k\": \"v\"}");
    let mut expected = serde_json::Map::new();
    expected.insert("k".to_string(), serde_json::Value::from("v"));
    assert_eq!(v, serde_json::Value::Object(expected));
}

#[test]
fn force_flag_set_to_false_forces_nothing() {
    let mut data = plain();
    data.force_json_decode = Some(false);
    data.force_yaml_decode = Some(false);
    assert!(matches!(decode_body(&data, &HeaderMap::new(), "{}"), Ok(None)));
    data.force_yaml_decode = Some(true);
    assert!(matches!(decode_body(&data, &HeaderMap::new(), "{}"), Ok(Some(BodyType::Yaml(_)))));
}

#[test]
fn force_yaml_decodes_a_single_key_mapping() {
    let mut data = plain();
    data.force_yaml_decode = Some(true);
    let v = yaml_of(&data, &HeaderMap::new(), "key: value\n");
    let mut expected = serde_yaml::Mapping::new();
    expected.insert(serde_yaml::Value::from("key"), serde_yaml::Value::from("value"));
    assert_eq!(v, serde_yaml::Value::Mapping(expected));
}

#[test]
fn no_flag_and_no_content_type_leaves_the_body_raw() {
    assert!(matches!(decode_body(&plain(), &HeaderMap::new(), "key: value\n"), Ok(None)));
}

#[test]
fn unreadable_content_type_leaves_it_to_the_force_flags() {
    let mut headers = HeaderMap::new();
    headers.insert(CONTENT_TYPE, HeaderValue::from_bytes(b"application/\xffjson").unwrap());
    assert!(matches!(decode_body(&plain(), &headers, "{}"), Ok(None)));
    assert!(matches!(decode_body(&plain(), &headers, ""), Ok(None)));
    let mut data = plain();
    data.force_yaml_decode = Some(true);
    assert!(matches!(decode_body(&data, &headers, "{}"), Ok(Some(BodyType::Yaml(_)))));
    data.force_json_decode = Some(true);
    assert!(matches!(decode_body(&data, &headers, "{}"), Ok(Some(BodyType::Json(_)))));
    assert!(matches!(decode_body(&data, &headers, ""), Ok(None)));
}

#[test]
fn first_content_type_value_decides() {
    let mut headers = HeaderMap::new();
    headers.append(CONTENT_TYPE, HeaderValue::from_static("text/plain"));
    headers.append(CONTENT_TYPE, HeaderValue::from_static("application/json"));
    assert!(matches!(decode_body(&plain(), &headers, "{}"), Ok(None)));
    let mut headers = HeaderMap::new();
    headers.append("x-other", HeaderValue::from_static("application/yaml"));
    headers.append(CONTENT_TYPE, HeaderValue::from_static("application/json"));
    headers.append(CONTENT_TYPE, HeaderValue::from_static("text/plain"));
    assert!(matches!(decode_body(&plain(), &headers, "{}"), Ok(Some(BodyType::Json(_)))));
}

#[test]
fn content_type_is_read_as_text() {
    assert_eq!(content_type(&HeaderMap::new()), None);
    let html = typed("text/html; charset=utf-8");
    assert_eq!(content_type(&html), Some("text/html; charset=utf-8".to_string()));
    let mut headers = HeaderMap::new();
    headers.insert("x-content-type", HeaderValue::from_static("application/json"));
    assert_eq!(content_type(&headers), None);
    headers.insert(CONTENT_TYPE, HeaderValue::from_bytes(b"\x80").unwrap());
    assert_eq!(content_type(&headers), None);
    headers.insert(CONTENT_TYPE, HeaderValue::from_bytes(b"a\tb c").unwrap());
    assert_eq!(content_type(&headers), Some("a\tb c".to_string()));
    headers.insert(CONTENT_TYPE, HeaderValue::from_bytes(b"").unwrap());
    assert_eq!(content_type(&headers), Some(String::new()));
}

#[test]
fn first_content_type_is_the_one_read() {
    let mut headers = HeaderMap::new();
    headers.append(CONTENT_TYPE, HeaderValue::from_bytes(b"\xff").unwrap());
    headers.append(CONTENT_TYPE, HeaderValue::from_static("application/json"));
    assert_eq!(content_type(&headers), None);
    let mut headers = HeaderMap::new();
    headers.append(CONTENT_TYPE, HeaderValue::from_static("a/b"));
    headers.append(CONTENT_TYPE, HeaderValue::from_static("c/d"));
    assert_eq!(content_type(&headers), Some("a/b".to_string()));
}

#[test]
fn media_types_select_decoders() {
    assert_eq!(decoder_for_media_type(&"application/json".to_string()), Some(Decoder::Json));
    assert_eq!(decoder_for_media_type(&"application/yaml".to_string()), Some(Decoder::Yaml));
    assert_eq!(decoder_for_media_type(&"application/x-yaml".to_string()), Some(Decoder::Yaml));
    assert_eq!(decoder_for_media_type(&"application/xml".to_string()), None);
    assert_eq!(decoder_for_media_type(&"".to_string()), None);
}

#[test]
fn negotiation_follows_its_order() {
    let mut data = plain();
    data.force_yaml_decode = Some(true);
    let json = Some("application/json".to_string());
    assert_eq!(negotiate(&data, &json, ""), None);
    assert_eq!(negotiate(&data, &json, "x"), Some(Decoder::Json));
    assert_eq!(negotiate(&data, &None, "x"), Some(Decoder::Yaml));
    assert_eq!(negotiate(&data, &None, ""), None);
    let other = Some("text/css".to_string());
    assert_eq!(negotiate(&data, &other, "x"), None);
    assert_eq!(negotiate(&plain(), &None, "x"), None);
}

#[test]
fn forced_decoder_is_json_before_yaml() {
    let mut data = plain();
    assert_eq!(forced(&data), None);
    data.force_yaml_decode = Some(true);
    assert_eq!(forced(&data), Some(Decoder::Yaml));
    data.force_json_decode = Some(false);
    assert_eq!(forced(&data), Some(Decoder::Yaml));
    data.force_json_decode = Some(true);
    assert_eq!(forced(&data), Some(Decoder::Json));
    data.force_yaml_decode = None;
    assert_eq!(forced(&data), Some(Decoder::Json));
}
