use pingora_bench::executor::ResponseHeader;
use pingora_bench::header::{chars_of, split_header, white_space, MAX_NAME_LEN};
use pingora_bench::outcome::HeaderError;
use pingora_bench::request::RequestSpec;
use pingora_bench::target::Target;

/// What becomes of a request whose only user-supplied header is `line`.
fn built(line: String) -> Result<usize, HeaderError> {
    let target = Target { host: String::from("h"), port: 80, tls: false, path: String::from("/") };
    RequestSpec::new(String::from("GET"), target, vec![line], None).header_set().map(|h| h.len())
}

fn valid_name(name: &str) -> bool {
    match built(format!("{}:v", name)) {
        Ok(count) => {
            assert_eq!(count, 3);
            true
        }
        Err(error) => {
            assert_eq!(error, HeaderError::InvalidName { index: 0 });
            false
        }
    }
}

fn valid_value(value: &str) -> bool {
    match built(format!("n:{}", value)) {
        Ok(count) => {
            assert_eq!(count, 3);
            true
        }
        Err(error) => {
            assert_eq!(error, HeaderError::InvalidValue { index: 0 });
            false
        }
    }
}

fn value_text(value: &[u8]) -> Option<String> {
    let shown = ResponseHeader { name: String::from("n"), value: value.to_vec() }.shown_value();
    if shown == "<binary>" {
        None
    } else {
        Some(shown)
    }
}

fn split(line: &str) -> Option<(String, String)> {
    split_header(line)
}

fn pair(name: &str, value: &str) -> Option<(String, String)> {
    Some((String::from(name), String::from(value)))
}

/// What the standard library makes of the line.
fn split_by_std(line: &str) -> Option<(String, String)> {
    line.split_once(':').map(|(k, v)| (k.trim().to_string(), v.trim().to_string()))
}

#[test]
fn header_line_with_separator_is_split() {
    assert_eq!(split("X-Test: 123"), pair("X-Test", "123"));
}

#[test]
fn header_line_without_separator_gives_nothing() {
    assert_eq!(split("NoColonHere"), None);
    assert_eq!(split(""), None);
    assert_eq!(split("   "), None);
}

#[test]
fn header_line_is_split_at_the_first_separator() {
    assert_eq!(split("Referer: http://example.com:8080/x"), pair("Referer", "http://example.com:8080/x"));
    assert_eq!(split("a:b:c"), pair("a", "b:c"));
    assert_eq!(split("::"), pair("", ":"));
}

#[test]
fn header_name_and_value_are_trimmed() {
    assert_eq!(split("  Accept \t:  text/html  "), pair("Accept", "text/html"));
    assert_eq!(split("Name:Value"), pair("Name", "Value"));
    assert_eq!(split("Name:\tValue\r\n"), pair("Name", "Value"));
    assert_eq!(split("Name: two words "), pair("Name", "two words"));
}

#[test]
fn header_parts_may_be_empty() {
    assert_eq!(split(":"), pair("", ""));
    assert_eq!(split("Name:"), pair("Name", ""));
    assert_eq!(split(": value"), pair("", "value"));
    assert_eq!(split("  :  "), pair("", ""));
}

#[test]
fn header_trimming_knows_unicode_white_space() {
    assert_eq!(split("\u{00A0}Name\u{2003}:\u{3000}Value\u{2028}"), pair("Name", "Value"));
    assert_eq!(split("N\u{00A0}ame: V\u{2003}alue"), pair("N\u{00A0}ame", "V\u{2003}alue"));
    assert_eq!(split("\u{200B}Name: Value"), pair("\u{200B}Name", "Value"));
}

#[test]
fn header_splitting_keeps_other_characters() {
    assert_eq!(split("X-Größe: zwölf"), pair("X-Größe", "zwölf"));
    assert_eq!(split("名前: 値"), pair("名前", "値"));
}

#[test]
fn header_splitting_agrees_with_the_standard_library() {
    let lines = [
        "X-Test: 123",
        "NoColonHere",
        "",
        ":",
        " : ",
        "a:b:c",
        "  spaced  :  out  ",
        "\t\tTabbed:\tvalue\t",
        "\u{0085}next-line:\u{1680}ogham\u{205F}",
        "\u{2000}\u{2001}\u{2002}k\u{2009}:\u{200A}v\u{202F}\u{2029}",
        "trailing colon:",
        ":leading colon",
        "Content-Type: application/json; charset=utf-8",
        "emoji🙂: 🙂 yes 🙂 ",
        "\u{000B}vt\u{000C}: ff\u{000B}",
        "\u{001C}fs: not white space\u{001F}",
        "\u{180E}mongolian: separator",
        "\u{FEFF}bom: value",
    ];
    for line in lines {
        assert_eq!(split(line), split_by_std(line));
    }
}

#[test]
fn white_space_agrees_with_the_standard_library() {
    for code in 0u32..=0x10FFFF {
        if let Some(c) = char::from_u32(code) {
            assert_eq!(white_space(c), c.is_whitespace());
        }
    }
}

#[test]
fn chars_of_gives_every_character() {
    assert_eq!(chars_of(""), Vec::<char>::new());
    assert_eq!(chars_of("aß🙂"), vec!['a', 'ß', '🙂']);
}

#[test]
fn header_names_are_tokens() {
    assert!(valid_name("X-Test"));
    assert!(valid_name("content-length"));
    assert!(valid_name("a"));
    assert!(valid_name("!#$%&'*+-.^_`|~09azAZ"));
}

#[test]
fn header_names_with_other_characters_are_refused() {
    assert!(!valid_name(""));
    assert!(!valid_name("X Test"));
    assert!(!valid_name("X(Test)"));
    assert!(!valid_name("X/Test"));
    assert!(!valid_name("X=Test"));
    assert!(!valid_name("X\"Test"));
    assert!(!valid_name("X\tTest"));
    assert!(!valid_name("X\u{a0}Test"));
    assert!(!valid_name("X-Tést"));
    assert!(!valid_name("X\u{7f}"));
    assert!(!valid_name("X\0"));
    for c in ['"', '(', ')', ',', '/', ';', '<', '=', '>', '?', '@', '[', '\\', ']', '{', '}'] {
        assert!(!valid_name(&c.to_string()));
        assert!(!valid_name(&format!("a{}b", c)));
    }
}

#[test]
fn header_names_have_a_longest_length() {
    assert_eq!(MAX_NAME_LEN, 65535);
    assert!(valid_name(&"a".repeat(64)));
    assert!(valid_name(&"a".repeat(65)));
    assert!(valid_name(&"a".repeat(MAX_NAME_LEN)));
    assert!(!valid_name(&"a".repeat(MAX_NAME_LEN + 1)));
    assert!(!valid_name(&format!("{}(", "a".repeat(100))));
}

#[test]
fn header_values_are_visible_text() {
    assert!(valid_value(""));
    assert!(valid_value("123"));
    assert!(valid_value("text/html; q=0.9, */*"));
    assert!(valid_value("with\tinner tab"));
    assert!(valid_value("zwölf 🙂"));
    assert!(valid_value("~ !"));
    let printable: String = (0x20u8..0x7f).map(char::from).collect();
    assert!(valid_value(&format!("a{}z", printable)));
}

#[test]
fn header_values_with_control_characters_are_refused() {
    assert!(!valid_value("line\nbreak"));
    assert!(!valid_value("carriage\rreturn"));
    assert!(!valid_value("nul\0"));
    assert!(!valid_value("del\u{7f}"));
    assert!(!valid_value("a\u{1f}z"));
    assert!(!valid_value("escape\u{1b}[0m"));
    for code in (0u8..0x20).filter(|c| *c != 9) {
        assert!(!valid_value(&format!("a{}z", char::from(code))));
    }
}

#[test]
fn value_text_of_visible_bytes() {
    assert_eq!(value_text(b""), Some(String::new()));
    assert_eq!(value_text(b"gzip, br"), Some(String::from("gzip, br")));
    assert_eq!(value_text(b"\t~ "), Some(String::from("\t~ ")));
    assert_eq!(value_text(b"<binary"), Some(String::from("<binary")));
    let printable: Vec<u8> = (0x20..0x7f).collect();
    assert_eq!(value_text(&printable), Some(String::from_utf8(printable.clone()).unwrap()));
}

#[test]
fn value_text_of_other_bytes_is_absent() {
    for byte in (0u8..=255).filter(|b| !(*b == 9 || (0x20..0x7f).contains(b))) {
        assert_eq!(value_text(&[b'a', byte, b'z']), None);
    }
}
