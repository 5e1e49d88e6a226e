use pingora_bench::outcome::HeaderError;
use pingora_bench::request::{Header, RequestSpec};
use pingora_bench::target::Target;

fn target() -> Target {
    Target { host: String::from("example.com"), port: 80, tls: false, path: String::from("/") }
}

fn spec(headers: &[&str], body: Option<&str>) -> RequestSpec {
    RequestSpec::new(
        String::from("GET"),
        target(),
        headers.iter().map(|h| h.to_string()).collect(),
        body.map(|b| b.as_bytes().to_vec()),
    )
}

fn header(name: &str, value: &str) -> Header {
    Header { name: String::from(name), value: String::from(value) }
}

#[test]
fn request_spec_keeps_what_it_was_built_from() {
    let spec = RequestSpec::new(
        String::from("POST"),
        target(),
        vec![String::from("A: b")],
        Some(vec![1, 2, 3]),
    );
    assert_eq!(spec.method(), "POST");
    assert_eq!(spec.target(), &target());
    assert_eq!(spec.headers(), &vec![String::from("A: b")]);
    assert_eq!(spec.body(), &Some(vec![1, 2, 3]));
}

#[test]
fn mandatory_headers_are_always_present() {
    assert_eq!(
        spec(&[], None).header_set(),
        Ok(vec![header("Host", "example.com"), header("User-Agent", "pingora-bench/0.1.0")])
    );
}

#[test]
fn custom_header_is_added_after_the_mandatory_ones() {
    assert_eq!(
        spec(&["X-Test: 123"], None).header_set(),
        Ok(vec![
            header("Host", "example.com"),
            header("User-Agent", "pingora-bench/0.1.0"),
            header("X-Test", "123"),
        ])
    );
}

#[test]
fn header_without_separator_is_dropped_without_error() {
    assert_eq!(
        spec(&["NoColonHere"], None).header_set(),
        Ok(vec![header("Host", "example.com"), header("User-Agent", "pingora-bench/0.1.0")])
    );
}

#[test]
fn custom_headers_keep_their_order() {
    assert_eq!(
        spec(&["B: 2", "NoColonHere", "A: 1", "B: 3"], None).header_set(),
        Ok(vec![
            header("Host", "example.com"),
            header("User-Agent", "pingora-bench/0.1.0"),
            header("B", "2"),
            header("A", "1"),
            header("B", "3"),
        ])
    );
}

#[test]
fn body_adds_length_and_content_type_last() {
    assert_eq!(
        spec(&["X-Test: 123"], Some("{\"a\":1}")).header_set(),
        Ok(vec![
            header("Host", "example.com"),
            header("User-Agent", "pingora-bench/0.1.0"),
            header("X-Test", "123"),
            header("Content-Length", "7"),
            header("Content-Type", "application/json"),
        ])
    );
}

#[test]
fn content_length_counts_bytes() {
    let built = spec(&[], Some("zwölf")).header_set().unwrap();
    assert_eq!(built[2], header("Content-Length", "6"));
    let built = spec(&[], Some("")).header_set().unwrap();
    assert_eq!(built[2], header("Content-Length", "0"));
    let long = "x".repeat(12345);
    let built = spec(&[], Some(&long)).header_set().unwrap();
    assert_eq!(built[2], header("Content-Length", "12345"));
}

#[test]
fn content_type_is_set_whatever_the_body_holds() {
    let built = spec(&[], Some("plain text, no json")).header_set().unwrap();
    assert_eq!(built[3], header("Content-Type", "application/json"));
}

#[test]
fn invalid_header_name_is_an_error() {
    assert_eq!(
        spec(&["Bad Name: x"], None).header_set(),
        Err(HeaderError::InvalidName { index: 0 })
    );
    assert_eq!(spec(&[": x"], None).header_set(), Err(HeaderError::InvalidName { index: 0 }));
}

#[test]
fn invalid_header_value_is_an_error() {
    assert_eq!(
        spec(&["Good: a\u{7f}b"], None).header_set(),
        Err(HeaderError::InvalidValue { index: 0 })
    );
    assert_eq!(
        spec(&["Good: line\nbreak"], None).header_set(),
        Err(HeaderError::InvalidValue { index: 0 })
    );
}

#[test]
fn the_first_faulty_header_is_reported() {
    assert_eq!(
        spec(&["A: 1", "NoColonHere", "B: \u{1}", "Bad Name: x"], None).header_set(),
        Err(HeaderError::InvalidValue { index: 2 })
    );
    assert_eq!(
        spec(&["A: 1", "Bad Name: x", "B: \u{1}"], None).header_set(),
        Err(HeaderError::InvalidName { index: 1 })
    );
}

#[test]
fn a_faulty_name_is_reported_before_a_faulty_value() {
    assert_eq!(
        spec(&["Bad Name: \u{1}"], Some("body")).header_set(),
        Err(HeaderError::InvalidName { index: 0 })
    );
}

#[test]
fn header_errors_describe_themselves() {
    assert_eq!(HeaderError::InvalidName { index: 3 }.description(), "Invalid header name");
    assert_eq!(HeaderError::InvalidValue { index: 0 }.description(), "Invalid header value");
}

#[test]
fn same_spec_builds_the_same_headers_every_time() {
    let spec = spec(&["X-Test: 123"], Some("abc"));
    assert_eq!(spec.header_set(), spec.header_set());
}
