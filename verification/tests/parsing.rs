use expresso::parser::{ExpressStatus, HttpRequest, ParseError};

fn req(s: &str) -> Vec<u8> {
    s.as_bytes().to_vec()
}

#[test]
fn request_line_tokens_verbatim() {
    let r = HttpRequest::parse(&req("GET /abc HTTP/1.1\r\n\r\n")).unwrap();
    assert_eq!(r.method, b"GET".to_vec());
    assert_eq!(r.path, b"/abc".to_vec());
    assert_eq!(r.version, b"HTTP/1.1".to_vec());
    assert_eq!(r.body, Vec::<u8>::new());
}

#[test]
fn request_line_extra_whitespace_ignored() {
    let r = HttpRequest::parse(&req("GET    /abc \t HTTP/1.1\r\n\r\n")).unwrap();
    assert_eq!(r.method, b"GET".to_vec());
    assert_eq!(r.path, b"/abc".to_vec());
    assert_eq!(r.version, b"HTTP/1.1".to_vec());
}

#[test]
fn request_line_two_tokens_is_malformed() {
    let e = HttpRequest::parse(&req("GET /abc\r\n\r\n")).unwrap_err();
    assert_eq!(e, ParseError::MalformedRequest);
}

#[test]
fn request_line_four_tokens_is_malformed() {
    let e = HttpRequest::parse(&req("GET /a b HTTP/1.1\r\n\r\n")).unwrap_err();
    assert_eq!(e, ParseError::MalformedRequest);
}

#[test]
fn empty_input_is_empty_request() {
    let e = HttpRequest::parse(&Vec::new()).unwrap_err();
    assert_eq!(e, ParseError::EmptyRequest);
}

#[test]
fn bare_lf_lines_tolerated() {
    let r = HttpRequest::parse(&req("GET / HTTP/1.1\nHost: here\n\n")).unwrap();
    assert_eq!(r.path, b"/".to_vec());
    assert_eq!(r.headers.len(), 1);
    assert_eq!(r.headers[0].name, b"Host".to_vec());
    assert_eq!(r.headers[0].value, b"here".to_vec());
}

#[test]
fn body_has_exactly_declared_length() {
    let r = HttpRequest::parse(&req(
        "POST /files/x HTTP/1.1\r\nContent-Length: 5\r\n\r\nhello",
    ))
    .unwrap();
    assert_eq!(r.body, b"hello".to_vec());
}

#[test]
fn extra_bytes_beyond_declared_length_ignored() {
    let r = HttpRequest::parse(&req(
        "POST /files/x HTTP/1.1\r\nContent-Length: 2\r\n\r\nhello",
    ))
    .unwrap();
    assert_eq!(r.body, b"he".to_vec());
}

#[test]
fn short_body_is_truncated() {
    let e = HttpRequest::parse(&req(
        "POST /files/x HTTP/1.1\r\nContent-Length: 10\r\n\r\nhello",
    ))
    .unwrap_err();
    assert_eq!(e, ParseError::TruncatedBody);
}

#[test]
fn missing_content_length_means_empty_body() {
    let r = HttpRequest::parse(&req("POST /files/x HTTP/1.1\r\n\r\nhello")).unwrap();
    assert_eq!(r.body, Vec::<u8>::new());
}

#[test]
fn unparsable_content_length_means_empty_body() {
    let r = HttpRequest::parse(&req(
        "POST /files/x HTTP/1.1\r\nContent-Length: many\r\n\r\nhello",
    ))
    .unwrap();
    assert_eq!(r.body, Vec::<u8>::new());
}

#[test]
fn oversized_content_length_means_empty_body() {
    // far beyond usize: the declared length is unparsable, so no body
    let r = HttpRequest::parse(&req(
        "POST /x HTTP/1.1\r\nContent-Length: 99999999999999999999999999\r\n\r\nhi",
    ))
    .unwrap();
    assert_eq!(r.body, Vec::<u8>::new());
}

#[test]
fn header_names_and_values_trimmed_on_first_colon() {
    let r = HttpRequest::parse(&req(
        "GET / HTTP/1.1\r\n  Host :  a:b:c  \r\n\r\n",
    ))
    .unwrap();
    assert_eq!(r.headers.len(), 1);
    assert_eq!(r.headers[0].name, b"Host".to_vec());
    assert_eq!(r.headers[0].value, b"a:b:c".to_vec());
}

#[test]
fn header_line_without_colon_skipped() {
    let r = HttpRequest::parse(&req(
        "GET / HTTP/1.1\r\nnonsense line\r\nHost: here\r\n\r\n",
    ))
    .unwrap();
    assert_eq!(r.headers.len(), 1);
    assert_eq!(r.headers[0].name, b"Host".to_vec());
}

#[test]
fn duplicate_header_resolves_to_last() {
    let r = HttpRequest::parse(&req(
        "GET / HTTP/1.1\r\nUser-Agent: one\r\nUser-Agent: two\r\n\r\n",
    ))
    .unwrap();
    let v = expresso::parser::header_value(&r.headers, &b"User-Agent".to_vec());
    assert_eq!(v, Some(b"two".to_vec()));
}

#[test]
fn header_lookup_is_case_sensitive() {
    let r = HttpRequest::parse(&req("GET / HTTP/1.1\r\nuser-agent: x\r\n\r\n")).unwrap();
    let v = expresso::parser::header_value(&r.headers, &b"User-Agent".to_vec());
    assert_eq!(v, None);
}

#[test]
fn request_line_without_newline_still_parses() {
    let r = HttpRequest::parse(&req("GET / HTTP/1.1")).unwrap();
    assert_eq!(r.method, b"GET".to_vec());
    assert_eq!(r.headers.len(), 0);
    assert_eq!(r.body, Vec::<u8>::new());
}

#[test]
fn blank_first_line_is_malformed() {
    let e = HttpRequest::parse(&req("\r\n")).unwrap_err();
    assert_eq!(e, ParseError::MalformedRequest);
}

#[test]
fn final_header_without_newline_kept() {
    let r = HttpRequest::parse(&req("GET / HTTP/1.1\r\nHost: x")).unwrap();
    assert_eq!(r.headers.len(), 1);
    assert_eq!(r.headers[0].name, b"Host".to_vec());
    assert_eq!(r.headers[0].value, b"x".to_vec());
}

#[test]
fn validate_request_reports_status() {
    assert_eq!(
        expresso::parser::validate_request(&req("GET / HTTP/1.1\r\n\r\n")),
        ExpressStatus::Success
    );
    assert_eq!(
        expresso::parser::validate_request(&req("GET /\r\n\r\n")),
        ExpressStatus::Failure
    );
}
