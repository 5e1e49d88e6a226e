//! Header lines of the form `Name: Value`, and what may stand in the names
//! and values of headers.

use vstd::prelude::*;
use vstd::string::StringSliceAdditionalSpecFns;
use vstd::string::StrSliceExecFns;

verus! {

/// `c` has the Unicode property White_Space.
pub open spec fn is_white_space(c: char) -> bool {
    let u = c as u32;
    ||| 0x09 <= u <= 0x0D
    ||| u == 0x20
    ||| u == 0x85
    ||| u == 0xA0
    ||| u == 0x1680
    ||| 0x2000 <= u <= 0x200A
    ||| u == 0x2028
    ||| u == 0x2029
    ||| u == 0x202F
    ||| u == 0x205F
    ||| u == 0x3000
}

/// Number of white-space characters at the start of `s`.
pub open spec fn leading_space(s: Seq<char>) -> nat
    decreases s.len(),
{
    if s.len() > 0 && is_white_space(s.first()) {
        1 + leading_space(s.drop_first())
    } else {
        0
    }
}

/// Number of white-space characters at the end of `s`.
pub open spec fn trailing_space(s: Seq<char>) -> nat
    decreases s.len(),
{
    if s.len() > 0 && is_white_space(s.last()) {
        1 + trailing_space(s.drop_last())
    } else {
        0
    }
}

/// `s` without the white space at its start and at its end.
pub open spec fn trimmed(s: Seq<char>) -> Seq<char> {
    let rest = s.skip(leading_space(s) as int);
    rest.take(rest.len() - trailing_space(rest))
}

/// Position of the first `:` in `s`; the length of `s` where it has none.
pub open spec fn separator_index(s: Seq<char>) -> nat
    decreases s.len(),
{
    if s.len() > 0 && s.first() != ':' {
        1 + separator_index(s.drop_first())
    } else {
        0
    }
}

/// The name of a header line: what stands before its first `:`, trimmed.
pub open spec fn line_name(line: Seq<char>) -> Seq<char> {
    trimmed(line.take(separator_index(line) as int))
}

/// The value of a header line: what stands after its first `:`, trimmed.
pub open spec fn line_value(line: Seq<char>) -> Seq<char> {
    trimmed(line.skip(separator_index(line) as int + 1))
}

/// Name and value of a header line. A line without `:` has neither.
pub open spec fn split_line(line: Seq<char>) -> Option<(Seq<char>, Seq<char>)> {
    if separator_index(line) == line.len() {
        None
    } else {
        Some((line_name(line), line_value(line)))
    }
}

/// `b` may stand in a header name: a letter, a digit, or one of
/// ``! # $ % & ' * + - . ^ _ ` | ~``.
pub open spec fn is_name_byte(b: u8) -> bool {
    ||| 0x30 <= b <= 0x39
    ||| 0x41 <= b <= 0x5A
    ||| 0x61 <= b <= 0x7A
    ||| b == 0x21
    ||| 0x23 <= b <= 0x27
    ||| b == 0x2A
    ||| b == 0x2B
    ||| b == 0x2D
    ||| b == 0x2E
    ||| b == 0x5E
    ||| b == 0x5F
    ||| b == 0x60
    ||| b == 0x7C
    ||| b == 0x7E
}

/// The longest header name, in bytes.
pub const MAX_NAME_LEN: usize = 65535;

/// `bytes` is a header name: between one and `MAX_NAME_LEN` bytes, each of which
/// may stand in a name.
pub open spec fn is_field_name(bytes: Seq<u8>) -> bool {
    &&& 1 <= bytes.len() <= MAX_NAME_LEN
    &&& forall|i: int| 0 <= i < bytes.len() ==> is_name_byte(#[trigger] bytes[i])
}

/// `b` may stand in a header value: a horizontal tab, or any byte from the
/// space upwards but for the delete character.
pub open spec fn is_value_byte(b: u8) -> bool {
    b == 0x09 || (b >= 0x20 && b != 0x7F)
}

/// `bytes` is a header value: each byte may stand in a value.
pub open spec fn is_field_value(bytes: Seq<u8>) -> bool {
    forall|i: int| 0 <= i < bytes.len() ==> is_value_byte(#[trigger] bytes[i])
}

/// `b` is a character of visible text: a horizontal tab, or a printable
/// ASCII character.
pub open spec fn is_text_byte(b: u8) -> bool {
    b == 0x09 || 0x20 <= b < 0x7F
}

/// `bytes` can be shown as text: each byte is a character of visible text.
pub open spec fn is_text(bytes: Seq<u8>) -> bool {
    forall|i: int| 0 <= i < bytes.len() ==> is_text_byte(#[trigger] bytes[i])
}

/// The characters that the bytes of an ASCII text stand for.
pub open spec fn ascii_chars(bytes: Seq<u8>) -> Seq<char> {
    bytes.map_values(|b: u8| b as char)
}

/// `http::header::HeaderName::from_bytes` on the UTF-8 bytes of `name`: it
/// refuses the empty name, a name of more than `MAX_NAME_LEN` bytes, and a
/// name with a byte outside its table of name characters, and accepts every
/// other.
#[verifier::external_body]
pub(crate) fn name_accepted(name: &str) -> (accepted: bool)
    ensures
        accepted == is_field_name(name.spec_bytes()),
{
    http::header::HeaderName::from_bytes(name.as_bytes()).is_ok()
}

/// `http::header::HeaderValue::from_str`: it refuses a text whose UTF-8
/// bytes hold a control character other than the horizontal tab, and
/// accepts every other.
#[verifier::external_body]
pub(crate) fn value_accepted(value: &str) -> (accepted: bool)
    ensures
        accepted == is_field_value(value.spec_bytes()),
{
    http::header::HeaderValue::from_str(value).is_ok()
}

/// `http::header::HeaderValue::from_bytes` followed by
/// `http::header::HeaderValue::to_str`: a header value is given as text
/// exactly where each of its bytes is a horizontal tab or a printable ASCII
/// character, and the text then holds these characters.
#[verifier::external_body]
pub(crate) fn text_accepted(value: &[u8]) -> (text: Option<String>)
    ensures
        text is Some <==> is_text(value@),
        text is Some ==> text->0@ == ascii_chars(value@),
{
    http::header::HeaderValue::from_bytes(value).ok()?.to_str().ok().map(str::to_string)
}

/// Whether `c` is white space.
pub fn white_space(c: char) -> (space: bool)
    ensures
        space == is_white_space(c),
{
    let u: u32 = c as u32;
    (0x09 <= u && u <= 0x0D) || u == 0x20 || u == 0x85 || u == 0xA0 || u == 0x1680 || (0x2000 <= u
        && u <= 0x200A) || u == 0x2028 || u == 0x2029 || u == 0x202F || u == 0x205F || u == 0x3000
}

/// The characters of `s`.
pub fn chars_of(s: &str) -> (chars: Vec<char>)
    ensures
        chars@ == s@,
{
    let mut chars: Vec<char> = Vec::new();
    for c in it: s.chars()
        invariant
            chars@ == it.seq().take(it.index() as int),
            it.seq() == s@,
    {
        chars.push(c);
    }
    chars
}

/// Where `s` begins with `count` white-space characters and the next one, if
/// any, is none, `leading_space(s)` is `count`.
pub proof fn lemma_leading_space(s: Seq<char>, count: nat)
    requires
        count <= s.len(),
        forall|k: int| 0 <= k < count ==> is_white_space(#[trigger] s[k]),
        count < s.len() ==> !is_white_space(s[count as int]),
    ensures
        leading_space(s) == count,
    decreases count,
{
    if count > 0 {
        let rest = s.drop_first();
        assert forall|k: int| 0 <= k < count - 1 implies is_white_space(#[trigger] rest[k]) by {
            assert(rest[k] == s[k + 1]);
        }
        lemma_leading_space(rest, (count - 1) as nat);
    }
}

/// Where `s` ends with `count` white-space characters and the one before
/// them, if any, is none, `trailing_space(s)` is `count`.
pub proof fn lemma_trailing_space(s: Seq<char>, count: nat)
    requires
        count <= s.len(),
        forall|k: int| s.len() - count <= k < s.len() ==> is_white_space(#[trigger] s[k]),
        count < s.len() ==> !is_white_space(s[s.len() - count - 1]),
    ensures
        trailing_space(s) == count,
    decreases count,
{
    if count > 0 {
        let rest = s.drop_last();
        assert forall|k: int| rest.len() - (count - 1) <= k < rest.len() implies is_white_space(
            #[trigger] rest[k],
        ) by {
            assert(rest[k] == s[k]);
        }
        lemma_trailing_space(rest, (count - 1) as nat);
    }
}

/// Where no character of `s` before position `at` is `:` and the one at `at`,
/// if any, is, `separator_index(s)` is `at`.
pub proof fn lemma_separator_index(s: Seq<char>, at: nat)
    requires
        at <= s.len(),
        forall|k: int| 0 <= k < at ==> #[trigger] s[k] != ':',
        at < s.len() ==> s[at as int] == ':',
    ensures
        separator_index(s) == at,
    decreases at,
{
    if at > 0 {
        let rest = s.drop_first();
        assert forall|k: int| 0 <= k < at - 1 implies #[trigger] rest[k] != ':' by {
            assert(rest[k] == s[k + 1]);
        }
        lemma_separator_index(rest, (at - 1) as nat);
    }
}

/// The white space that `leading_space` counts is white space, and what
/// follows it is none.
pub proof fn lemma_leading_space_counts(s: Seq<char>)
    ensures
        leading_space(s) <= s.len(),
        forall|k: int| 0 <= k < leading_space(s) ==> is_white_space(#[trigger] s[k]),
        leading_space(s) < s.len() ==> !is_white_space(s[leading_space(s) as int]),
    decreases s.len(),
{
    if s.len() > 0 && is_white_space(s.first()) {
        let rest = s.drop_first();
        lemma_leading_space_counts(rest);
        assert forall|k: int| 0 <= k < leading_space(s) implies is_white_space(#[trigger] s[k]) by {
            if k > 0 {
                assert(s[k] == rest[k - 1]);
            }
        }
        if leading_space(s) < s.len() {
            assert(s[leading_space(s) as int] == rest[leading_space(rest) as int]);
        }
    }
}

/// The white space that `trailing_space` counts is white space, and what
/// stands before it is none.
pub proof fn lemma_trailing_space_counts(s: Seq<char>)
    ensures
        trailing_space(s) <= s.len(),
        forall|k: int|
            s.len() - trailing_space(s) <= k < s.len() ==> is_white_space(#[trigger] s[k]),
        trailing_space(s) < s.len() ==> !is_white_space(s[s.len() - trailing_space(s) - 1]),
    decreases s.len(),
{
    if s.len() > 0 && is_white_space(s.last()) {
        let rest = s.drop_last();
        lemma_trailing_space_counts(rest);
        assert forall|k: int| s.len() - trailing_space(s) <= k < s.len() implies is_white_space(
            #[trigger] s[k],
        ) by {
            if k < s.len() - 1 {
                assert(s[k] == rest[k]);
            }
        }
        if trailing_space(s) < s.len() {
            assert(s[s.len() - trailing_space(s) - 1] == rest[rest.len() - trailing_space(rest)
                - 1]);
        }
    }
}

/// `trimmed(s)` is the part of `s` between its leading and its trailing
/// white space: it neither begins nor ends with white space, and all that
/// `s` holds before and after it is white space.
pub proof fn lemma_trimmed(s: Seq<char>)
    ensures
        trimmed(s).len() > 0 ==> !is_white_space(trimmed(s).first()) && !is_white_space(
            trimmed(s).last(),
        ),
        exists|from: int, to: int|
            {
                &&& 0 <= from <= to <= s.len()
                &&& trimmed(s) == #[trigger] s.subrange(from, to)
                &&& forall|k: int| 0 <= k < from ==> is_white_space(#[trigger] s[k])
                &&& forall|k: int| to <= k < s.len() ==> is_white_space(#[trigger] s[k])
            },
{
    lemma_leading_space_counts(s);
    let from = leading_space(s) as int;
    let rest = s.skip(from);
    lemma_trailing_space_counts(rest);
    let to = s.len() - trailing_space(rest);
    assert(trimmed(s) =~= s.subrange(from, to));
    assert forall|k: int| to <= k < s.len() implies is_white_space(#[trigger] s[k]) by {
        assert(s[k] == rest[k - from]);
    }
    if trimmed(s).len() > 0 {
        assert(trimmed(s).first() == s[from]);
        assert(trimmed(s).last() == rest[rest.len() - trailing_space(rest) - 1]);
    }
}

/// `separator_index(s)` is the position of the first `:` of `s`: no
/// character before it is one, and `s` has one exactly where the index lies
/// inside `s`.
pub proof fn lemma_separator_is_first(s: Seq<char>)
    ensures
        separator_index(s) <= s.len(),
        forall|k: int| 0 <= k < separator_index(s) ==> #[trigger] s[k] != ':',
        separator_index(s) < s.len() ==> s[separator_index(s) as int] == ':',
        separator_index(s) < s.len() <==> s.contains(':'),
    decreases s.len(),
{
    if s.len() > 0 && s.first() != ':' {
        let rest = s.drop_first();
        lemma_separator_is_first(rest);
        assert forall|k: int| 0 <= k < separator_index(s) implies #[trigger] s[k] != ':' by {
            if k > 0 {
                assert(s[k] == rest[k - 1]);
            }
        }
        if separator_index(s) < s.len() {
            assert(s[separator_index(s) as int] == rest[separator_index(rest) as int]);
        }
    }
    if separator_index(s) < s.len() {
        assert(s.contains(s[separator_index(s) as int]));
    }
    if s.contains(':') {
        let k = choose|k: int| 0 <= k < s.len() && s[k] == ':';
        assert(!(k < separator_index(s)));
    }
}

/// A line has a name and a value exactly where it holds a `:`.
pub proof fn lemma_split_needs_separator(line: Seq<char>)
    ensures
        split_line(line) is Some <==> line.contains(':'),
{
    lemma_separator_is_first(line);
}

/// The bounds of `trimmed` within the part of `chars` from `from` up to `to`.
fn trim_bounds(chars: &Vec<char>, from: usize, to: usize) -> (bounds: (usize, usize))
    requires
        from <= to <= chars@.len(),
    ensures
        from <= bounds.0 <= bounds.1 <= to,
        chars@.subrange(bounds.0 as int, bounds.1 as int) == trimmed(
            chars@.subrange(from as int, to as int),
        ),
{
    let ghost part = chars@.subrange(from as int, to as int);
    let mut start: usize = from;
    while start < to && white_space(chars[start])
        invariant
            from <= start <= to <= chars@.len(),
            forall|k: int| from <= k < start ==> is_white_space(#[trigger] chars@[k]),
        decreases to - start,
    {
        start = start + 1;
    }
    let mut end: usize = to;
    while end > start && white_space(chars[end - 1])
        invariant
            start <= end <= to <= chars@.len(),
            forall|k: int| end <= k < to ==> is_white_space(#[trigger] chars@[k]),
        decreases end - start,
    {
        end = end - 1;
    }
    proof {
        let lead = (start - from) as nat;
        assert forall|k: int| 0 <= k < lead implies is_white_space(#[trigger] part[k]) by {
            assert(part[k] == chars@[from + k]);
        }
        lemma_leading_space(part, lead);
        let rest = part.skip(lead as int);
        let trail = (to - end) as nat;
        assert forall|k: int| rest.len() - trail <= k < rest.len() implies is_white_space(
            #[trigger] rest[k],
        ) by {
            assert(rest[k] == chars@[start + k]);
        }
        if trail < rest.len() {
            assert(rest[rest.len() - trail - 1] == chars@[end - 1]);
        }
        lemma_trailing_space(rest, trail);
        assert(chars@.subrange(start as int, end as int) =~= rest.take(rest.len() - trail));
    }
    (start, end)
}

/// Splits a header line at its first `:` into a trimmed name and a trimmed
/// value. A line without `:` gives `None`.
pub fn split_header(line: &str) -> (parts: Option<(String, String)>)
    ensures
        parts is None <==> split_line(line@) is None,
        parts matches Some((name, value)) ==> split_line(line@) == Some((name@, value@)),
{
    let chars = chars_of(line);
    let n = chars.len();
    let mut at: usize = 0;
    while at < n && chars[at] != ':'
        invariant
            at <= n == chars@.len(),
            forall|k: int| 0 <= k < at ==> #[trigger] chars@[k] != ':',
        decreases n - at,
    {
        at = at + 1;
    }
    proof {
        lemma_separator_index(chars@, at as nat);
    }
    if at == n {
        return None;
    }
    let (name_from, name_to) = trim_bounds(&chars, 0, at);
    let (value_from, value_to) = trim_bounds(&chars, at + 1, n);
    let name = line.substring_char(name_from, name_to).to_owned();
    let value = line.substring_char(value_from, value_to).to_owned();
    proof {
        assert(chars@.subrange(0, at as int) =~= line@.take(at as int));
        assert(chars@.subrange(at + 1, n as int) =~= line@.skip(at + 1));
    }
    Some((name, value))
}

} // verus!
