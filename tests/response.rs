use httpserver::response::{Headers, HttpResponse};

fn html_headers() -> Headers {
    let mut headers = Headers::new();
    headers.insert("Content-Type", "text/html");
    headers
}

#[test]
fn test_response_struct_creation_200() {
    let response_actual = HttpResponse::new("200", None, Some("xxxx".into()));

    let response_expected = HttpResponse {
        version: "HTTP/1.1".into(),
        status_code: "200".into(),
        status_text: "OK".into(),
        headers: {
            let mut headers = Headers::new();
            headers.insert("Content-Type", "text/html");
            Some(headers)
        },
        body: Some("xxxx".into()),
    };

    assert_eq!(response_actual, response_expected)
}

#[test]
fn test_response_struct_creation_404() {
    let response_actual = HttpResponse::new("404", None, Some("xxxx".into()));

    let response_expected = HttpResponse {
        version: "HTTP/1.1".into(),
        status_code: "404".into(),
        status_text: "Not Found".into(),
        headers: {
            let mut headers = Headers::new();
            headers.insert("Content-Type", "text/html");
            Some(headers)
        },
        body: Some("xxxx".into()),
    };

    assert_eq!(response_actual, response_expected)
}

#[test]
fn test_http_response_creation() {
    let response_expected = HttpResponse {
        version: "HTTP/1.1".into(),
        status_code: "404".into(),
        status_text: "Not Found".into(),
        headers: {
            let mut headers = Headers::new();
            headers.insert("Content-Type", "text/html");
            Some(headers)
        },
        body: Some("xxxx".into()),
    };

    let http_text: String = response_expected.into();

    let actual_string: String =
        "HTTP/1.1 404 Not Found\r\nContent-Type:text/html\r\nContent-Length: 4\r\n\r\nxxxx"
            .into();

    assert_eq!(http_text, actual_string)
}

#[test]
fn reason_phrases_follow_the_table() {
    assert_eq!(HttpResponse::new("200", None, None).status_text(), "OK");
    assert_eq!(HttpResponse::new("400", None, None).status_text(), "Bad Request");
    assert_eq!(HttpResponse::new("404", None, None).status_text(), "Not Found");
    assert_eq!(HttpResponse::new("500", None, None).status_text(), "Internal Server Error");
    assert_eq!(HttpResponse::new("302", None, None).status_text(), "Not Defined");
    assert_eq!(HttpResponse::new("", None, None).status_text(), "Not Defined");
    assert_eq!(HttpResponse::new("2000", None, None).status_text(), "Not Defined");
}

#[test]
fn unknown_code_is_kept_verbatim() {
    let r = HttpResponse::new("418", None, None);
    assert_eq!(r.status_code(), "418");
    assert_eq!(r.version(), "HTTP/1.1");
}

#[test]
fn default_response_is_200_ok_without_headers_or_body() {
    let r = HttpResponse::default();
    assert_eq!(r.version(), "HTTP/1.1");
    assert_eq!(r.status_code(), "200");
    assert_eq!(r.status_text(), "OK");
    assert!(r.headers.is_none());
    assert!(r.body.is_none());
}

#[test]
fn omitted_headers_give_exactly_content_type_html() {
    let r = HttpResponse::new("500", None, Some("b".into()));
    assert_eq!(r.headers, Some(html_headers()));
    assert_eq!(r.headers(), "Content-Type:text/html\r\n");
}

#[test]
fn supplied_headers_are_kept() {
    let mut h = Headers::new();
    h.insert("Content-Type", "application/json");
    h.insert("X-Trace", "7");
    let r = HttpResponse::new("200", Some(h), None);
    assert_eq!(r.headers(), "Content-Type:application/json\r\nX-Trace:7\r\n");
}

#[test]
fn inserting_a_present_name_replaces_its_value() {
    let mut h = Headers::new();
    h.insert("A", "1");
    h.insert("B", "2");
    h.insert("A", "3");
    let r = HttpResponse::new("200", Some(h), None);
    assert_eq!(r.headers(), "A:3\r\nB:2\r\n");
}

#[test]
fn empty_body_announces_zero_length() {
    let r = HttpResponse::new("200", None, Some(String::new()));
    assert_eq!(
        r.serialize(),
        "HTTP/1.1 200 OK\r\nContent-Type:text/html\r\nContent-Length: 0\r\n\r\n"
    );
}

#[test]
fn absent_body_serializes_as_empty() {
    let r = HttpResponse::new("404", None, None);
    assert_eq!(r.body(), "");
    assert_eq!(
        r.serialize(),
        "HTTP/1.1 404 Not Found\r\nContent-Type:text/html\r\nContent-Length: 0\r\n\r\n"
    );
}

#[test]
fn content_length_counts_bytes_not_characters() {
    let r = HttpResponse::new("200", None, Some("h\u{e9}llo".into()));
    assert_eq!(
        r.serialize(),
        "HTTP/1.1 200 OK\r\nContent-Type:text/html\r\nContent-Length: 6\r\n\r\nh\u{e9}llo"
    );
}

#[test]
fn content_length_of_several_digits() {
    let body = "x".repeat(1234);
    let r = HttpResponse::new("200", None, Some(body.clone()));
    let expected = format!(
        "HTTP/1.1 200 OK\r\nContent-Type:text/html\r\nContent-Length: 1234\r\n\r\n{}",
        body
    );
    assert_eq!(r.serialize(), expected);
}

#[test]
fn string_conversion_equals_serialize() {
    let r = HttpResponse::new("400", None, Some("bad".into()));
    let expected = r.serialize();
    let s: String = String::from(r);
    assert_eq!(s, expected);
    assert_eq!(
        s,
        "HTTP/1.1 400 Bad Request\r\nContent-Type:text/html\r\nContent-Length: 3\r\n\r\nbad"
    );
}

#[test]
fn send_response_writes_the_wire_text() {
    let r = HttpResponse::new("404", None, Some("xxxx".into()));
    let mut sink: Vec<u8> = Vec::new();
    assert_eq!(r.send_response(&mut sink), Ok(()));
    assert_eq!(
        sink,
        b"HTTP/1.1 404 Not Found\r\nContent-Type:text/html\r\nContent-Length: 4\r\n\r\nxxxx".to_vec()
    );
}

#[test]
fn send_response_appends_to_what_was_sent() {
    let mut sink: Vec<u8> = b"earlier".to_vec();
    let r = HttpResponse::new("200", None, Some("\u{e9}".into()));
    assert_eq!(r.send_response(&mut sink), Ok(()));
    assert_eq!(
        sink,
        "earlierHTTP/1.1 200 OK\r\nContent-Type:text/html\r\nContent-Length: 2\r\n\r\n\u{e9}"
            .as_bytes()
            .to_vec()
    );
}
