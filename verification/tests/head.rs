use http::header::{HeaderMap, HeaderName, HeaderValue, CONTENT_LENGTH, HOST, TRANSFER_ENCODING};
use http_exchange::error::HeadError;
use http_exchange::head::{
    chunked_head, decimal, field_taken, fixed_head, head_built, host_value,
};
use http_exchange::origin::Origin;

fn origin(host: &str, port: Option<u16>) -> Origin {
    Origin { scheme: Some("http".to_string()), host: host.to_string(), port }
}

fn full_map() -> HeaderMap {
    let mut headers = HeaderMap::new();
    let mut i: u32 = 0;
    while headers.try_insert(
        HeaderName::from_bytes(format!("x-{}", i).as_bytes()).unwrap(),
        HeaderValue::from_static("v"),
    )
    .is_ok()
    {
        i += 1;
    }
    headers
}

#[test]
fn decimal_writes_exact_digits() {
    assert_eq!(decimal(0), "0");
    assert_eq!(decimal(5), "5");
    assert_eq!(decimal(9), "9");
    assert_eq!(decimal(10), "10");
    assert_eq!(decimal(443), "443");
    assert_eq!(decimal(65535), "65535");
    assert_eq!(decimal(1_000_000), "1000000");
    assert_eq!(decimal(u64::MAX), "18446744073709551615");
}

#[test]
fn host_value_has_the_port_only_when_named() {
    assert_eq!(host_value("example.com", None), "example.com");
    assert_eq!(host_value("example.com", Some(8080)), "example.com:8080");
    assert_eq!(host_value("example.com", Some(0)), "example.com:0");
    assert_eq!(host_value("", Some(80)), ":80");
}

#[test]
fn fixed_head_adds_host_and_content_length_when_absent() {
    let head = fixed_head(&HeaderMap::new(), &origin("example.com", None), 0).unwrap();
    assert_eq!(head.get(HOST).unwrap(), "example.com");
    assert_eq!(head.get(CONTENT_LENGTH).unwrap(), "0");
    assert_eq!(head.len(), 2);
}

#[test]
fn fixed_head_host_has_the_port_the_origin_names() {
    let head = fixed_head(&HeaderMap::new(), &origin("example.com", Some(8080)), 5).unwrap();
    assert_eq!(head.get(HOST).unwrap(), "example.com:8080");
    assert_eq!(head.get(CONTENT_LENGTH).unwrap(), "5");
}

#[test]
fn fixed_head_content_length_is_the_exact_length() {
    let head = fixed_head(&HeaderMap::new(), &origin("h", None), 1234567).unwrap();
    assert_eq!(head.get(CONTENT_LENGTH).unwrap(), "1234567");
}

#[test]
fn fixed_head_keeps_a_host_the_caller_set() {
    let mut headers = HeaderMap::new();
    headers.insert(HOST, HeaderValue::from_static("chosen.example"));
    let head = fixed_head(&headers, &origin("example.com", Some(81)), 3).unwrap();
    assert_eq!(head.get_all(HOST).iter().count(), 1);
    assert_eq!(head.get(HOST).unwrap(), "chosen.example");
    assert_eq!(head.get(CONTENT_LENGTH).unwrap(), "3");
}

#[test]
fn fixed_head_keeps_a_content_length_the_caller_set() {
    let mut headers = HeaderMap::new();
    headers.insert(CONTENT_LENGTH, HeaderValue::from_static("99"));
    let head = fixed_head(&headers, &origin("example.com", None), 3).unwrap();
    assert_eq!(head.get_all(CONTENT_LENGTH).iter().count(), 1);
    assert_eq!(head.get(CONTENT_LENGTH).unwrap(), "99");
    assert_eq!(head.get(HOST).unwrap(), "example.com");
}

#[test]
fn fixed_head_with_both_set_is_the_callers_own() {
    let mut headers = HeaderMap::new();
    headers.insert(HOST, HeaderValue::from_static("a"));
    headers.append(HOST, HeaderValue::from_static("b"));
    headers.insert(CONTENT_LENGTH, HeaderValue::from_static("7"));
    headers.insert("x-other", HeaderValue::from_static("kept"));
    let head = fixed_head(&headers, &origin("example.com", None), 3).unwrap();
    assert_eq!(head, headers);
}

#[test]
fn fixed_head_keeps_other_fields_and_leaves_the_callers_map_alone() {
    let mut headers = HeaderMap::new();
    headers.insert("accept", HeaderValue::from_static("*/*"));
    headers.append("accept", HeaderValue::from_static("text/plain"));
    let head = fixed_head(&headers, &origin("example.com", None), 1).unwrap();
    let accepted: Vec<&HeaderValue> = head.get_all("accept").iter().collect();
    assert_eq!(accepted, vec!["*/*", "text/plain"]);
    assert_eq!(head.len(), 4);
    assert_eq!(headers.len(), 2);
    assert!(headers.get(HOST).is_none());
    assert!(headers.get(CONTENT_LENGTH).is_none());
}

#[test]
fn fixed_head_fails_on_a_host_that_is_no_field_value() {
    assert!(matches!(
        fixed_head(&HeaderMap::new(), &origin("bad\nhost", None), 0),
        Err(HeadError::Value(_))
    ));
    assert!(matches!(
        fixed_head(&HeaderMap::new(), &origin("bad\u{7f}host", None), 0),
        Err(HeadError::Value(_))
    ));
    assert!(matches!(
        fixed_head(&HeaderMap::new(), &origin("host", Some(1)), 0),
        Ok(_)
    ));
}

#[test]
fn fixed_head_refuses_the_host_before_it_asks_the_map() {
    assert!(matches!(
        fixed_head(&full_map(), &origin("bad\nhost", None), 0),
        Err(HeadError::Value(_))
    ));
}

#[test]
fn fixed_head_with_a_host_set_fails_only_by_the_map() {
    let mut headers = full_map();
    let name = headers.keys().next().unwrap().clone();
    headers.remove(name);
    headers.insert(HOST, HeaderValue::from_static("chosen.example"));
    assert!(headers.try_insert("x-one-more", HeaderValue::from_static("v")).is_err());
    assert!(matches!(
        fixed_head(&headers, &origin("bad\nhost", None), 0),
        Err(HeadError::Fields(_))
    ));
}

#[test]
fn field_taken_hands_the_answer_of_the_map_on() {
    assert!(matches!(field_taken(Ok(())), Ok(())));
    let refusal = full_map().try_insert("x-one-more", HeaderValue::from_static("v")).unwrap_err();
    assert!(matches!(field_taken(Err(refusal)), Err(HeadError::Fields(_))));
}

#[test]
fn head_built_is_the_head_or_the_failure() {
    let mut head = HeaderMap::new();
    head.insert(HOST, HeaderValue::from_static("example.com"));
    let built = head_built(head.clone(), Ok(())).unwrap();
    assert_eq!(built, head);
    let refused = HeaderValue::from_str("bad\nvalue").unwrap_err();
    assert!(matches!(
        head_built(head.clone(), Err(HeadError::Value(refused))),
        Err(HeadError::Value(_))
    ));
    let full = full_map().try_insert("x-one-more", HeaderValue::from_static("v")).unwrap_err();
    assert!(matches!(
        head_built(head, Err(HeadError::Fields(full))),
        Err(HeadError::Fields(_))
    ));
}

#[test]
fn fixed_head_takes_a_host_with_a_tab() {
    let head = fixed_head(&HeaderMap::new(), &origin("a\tb", None), 0).unwrap();
    assert_eq!(head.get(HOST).unwrap().as_bytes(), b"a\tb");
}

#[test]
fn fixed_head_takes_a_host_beyond_ascii() {
    let head = fixed_head(&HeaderMap::new(), &origin("b\u{fc}cher.example", None), 0).unwrap();
    assert_eq!(head.get(HOST).unwrap().as_bytes(), "b\u{fc}cher.example".as_bytes());
}

#[test]
fn fixed_head_does_not_read_a_host_it_does_not_add() {
    let mut headers = HeaderMap::new();
    headers.insert(HOST, HeaderValue::from_static("chosen.example"));
    let head = fixed_head(&headers, &origin("bad\nhost", None), 0).unwrap();
    assert_eq!(head.get(HOST).unwrap(), "chosen.example");
}

#[test]
fn fixed_head_fails_when_the_map_takes_no_more_fields() {
    let headers = full_map();
    assert!(headers.len() > 1000);
    assert!(matches!(
        fixed_head(&headers, &origin("example.com", None), 0),
        Err(HeadError::Fields(_))
    ));
}

#[test]
fn chunked_head_sets_the_transfer_encoding() {
    let head = chunked_head(&HeaderMap::new()).unwrap();
    assert_eq!(head.get(TRANSFER_ENCODING).unwrap(), "chunked");
    assert_eq!(head.len(), 1);
    assert!(head.get(CONTENT_LENGTH).is_none());
    assert!(head.get(HOST).is_none());
}

#[test]
fn chunked_head_replaces_what_the_caller_set() {
    let mut headers = HeaderMap::new();
    headers.insert(TRANSFER_ENCODING, HeaderValue::from_static("gzip"));
    headers.append(TRANSFER_ENCODING, HeaderValue::from_static("identity"));
    headers.insert("x-other", HeaderValue::from_static("kept"));
    let head = chunked_head(&headers).unwrap();
    let codings: Vec<&HeaderValue> = head.get_all(TRANSFER_ENCODING).iter().collect();
    assert_eq!(codings, vec!["chunked"]);
    assert_eq!(head.get("x-other").unwrap(), "kept");
    assert_eq!(headers.get(TRANSFER_ENCODING).unwrap(), "gzip");
}

#[test]
fn chunked_head_keeps_a_content_length_but_adds_none() {
    let mut headers = HeaderMap::new();
    headers.insert(CONTENT_LENGTH, HeaderValue::from_static("12"));
    let head = chunked_head(&headers).unwrap();
    assert_eq!(head.get(CONTENT_LENGTH).unwrap(), "12");
    assert_eq!(head.get(TRANSFER_ENCODING).unwrap(), "chunked");
}

#[test]
fn chunked_head_fails_when_the_map_takes_no_more_fields() {
    assert!(matches!(chunked_head(&full_map()), Err(HeadError::Fields(_))));
}

#[test]
fn chunked_head_succeeds_on_maps_with_room() {
    let mut headers = HeaderMap::new();
    for i in 0..100u32 {
        headers.insert(
            HeaderName::from_bytes(format!("x-{}", i).as_bytes()).unwrap(),
            HeaderValue::from_static("v"),
        );
        let head = chunked_head(&headers).unwrap();
        assert_eq!(head.get(TRANSFER_ENCODING).unwrap(), "chunked");
        assert_eq!(head.len(), headers.len() + 1);
    }
}
