//! The request that a run sends, and the headers it sends it with.

use vstd::prelude::*;
use vstd::string::StringExecFns;
use vstd::utf8::encode_utf8;

use crate::header::{
    is_field_name, is_field_value, lemma_split_needs_separator, line_name, line_value,
    name_accepted, split_header, split_line, value_accepted,
};
use crate::outcome::HeaderError;
use crate::target::Target;
use crate::text::{decimal, decimal_string, lines_of};

verus! {

/// One header of a request.
#[derive(Clone, Debug, PartialEq, Eq)]
pub struct Header {
    pub name: String,
    pub value: String,
}

/// Name and value of a header, as texts.
pub type HeaderText = (Seq<char>, Seq<char>);

/// The value of the `User-Agent` header of every request.
pub open spec fn client_id() -> Seq<char> {
    "pingora-bench/0.1.0"@
}

/// The value of the `Content-Type` header of every request with a body.
pub open spec fn default_content_type() -> Seq<char> {
    "application/json"@
}

/// The headers that a list of user-supplied lines gives, in the order of
/// the lines. A line without separator gives none. The first line whose
/// name or value cannot be sent makes the whole list an error; of a line
/// with both faults the name is reported.
pub open spec fn custom_headers(lines: Seq<Seq<char>>) -> Result<Seq<HeaderText>, HeaderError>
    decreases lines.len(),
{
    if lines.len() == 0 {
        Ok(Seq::<HeaderText>::empty())
    } else {
        let index = (lines.len() - 1) as usize;
        match custom_headers(lines.drop_last()) {
            Err(e) => Err(e),
            Ok(before) => match split_line(lines.last()) {
                None => Ok(before),
                Some((name, value)) => if !is_field_name(encode_utf8(name)) {
                    Err(HeaderError::InvalidName { index })
                } else if !is_field_value(encode_utf8(value)) {
                    Err(HeaderError::InvalidValue { index })
                } else {
                    Ok(before.push((name, value)))
                },
            },
        }
    }
}

/// The headers of a body of `length` bytes: its length and the default
/// content type; none where there is no body.
pub open spec fn body_headers(length: Option<nat>) -> Seq<HeaderText> {
    match length {
        Some(n) => seq![
            ("Content-Length"@, decimal(n)),
            ("Content-Type"@, default_content_type()),
        ],
        None => Seq::<HeaderText>::empty(),
    }
}

/// All headers of a request: `Host` and `User-Agent`, then the user-supplied
/// ones in their order, then those of the body.
pub open spec fn header_list(
    host: Seq<char>,
    lines: Seq<Seq<char>>,
    body_length: Option<nat>,
) -> Result<Seq<HeaderText>, HeaderError> {
    match custom_headers(lines) {
        Err(e) => Err(e),
        Ok(custom) => Ok(
            seq![("Host"@, host), ("User-Agent"@, client_id())] + custom + body_headers(
                body_length,
            ),
        ),
    }
}

/// Names and values of a list of headers.
pub open spec fn texts_of(headers: Seq<Header>) -> Seq<HeaderText> {
    headers.map_values(|h: Header| (h.name@, h.value@))
}

/// Names and values of the headers that were built, or the fault that was
/// found.
pub open spec fn built_texts(built: Result<Vec<Header>, HeaderError>) -> Result<
    Seq<HeaderText>,
    HeaderError,
> {
    match built {
        Ok(headers) => Ok(texts_of(headers@)),
        Err(e) => Err(e),
    }
}

/// What is sent on every attempt of a run. It is built once and never
/// changed.
#[derive(Clone, Debug, PartialEq, Eq)]
pub struct RequestSpec {
    method: String,
    target: Target,
    headers: Vec<String>,
    body: Option<Vec<u8>>,
}

impl RequestSpec {
    /// The method of the request.
    pub closed spec fn spec_method(&self) -> String {
        self.method
    }

    /// The endpoint of the request.
    pub closed spec fn spec_target(&self) -> Target {
        self.target
    }

    /// The user-supplied header lines.
    pub closed spec fn spec_headers(&self) -> Vec<String> {
        self.headers
    }

    /// The body of the request.
    pub closed spec fn spec_body(&self) -> Option<Vec<u8>> {
        self.body
    }

    /// The number of bytes of the body, if there is one.
    pub open spec fn body_length(&self) -> Option<nat> {
        match self.spec_body() {
            Some(b) => Some(b@.len()),
            None => None,
        }
    }

    /// The headers that the request is sent with, or the fault of the first
    /// user-supplied header that cannot be sent.
    pub open spec fn spec_header_set(&self) -> Result<Seq<HeaderText>, HeaderError> {
        header_list(self.spec_target().host@, lines_of(self.spec_headers()@), self.body_length())
    }

    /// A request of the given method to `target`, with the user-supplied
    /// header lines and the optional body.
    pub fn new(
        method: String,
        target: Target,
        headers: Vec<String>,
        body: Option<Vec<u8>>,
    ) -> (spec: RequestSpec)
        ensures
            spec.spec_method() == method,
            spec.spec_target() == target,
            spec.spec_headers() == headers,
            spec.spec_body() == body,
    {
        RequestSpec { method, target, headers, body }
    }

    /// The method of the request.
    pub fn method(&self) -> (method: &String)
        ensures
            *method == self.spec_method(),
    {
        &self.method
    }

    /// The endpoint of the request.
    pub fn target(&self) -> (target: &Target)
        ensures
            *target == self.spec_target(),
    {
        &self.target
    }

    /// The user-supplied header lines.
    pub fn headers(&self) -> (headers: &Vec<String>)
        ensures
            *headers == self.spec_headers(),
    {
        &self.headers
    }

    /// The body of the request.
    pub fn body(&self) -> (body: &Option<Vec<u8>>)
        ensures
            *body == self.spec_body(),
    {
        &self.body
    }

    /// Builds the headers of the request.
    pub fn header_set(&self) -> (built: Result<Vec<Header>, HeaderError>)
        ensures
            built_texts(built) == self.spec_header_set(),
    {
        let mut built: Vec<Header> = Vec::new();
        built.push(Header { name: String::from_str("Host"), value: self.target.host.clone() });
        built.push(
            Header {
                name: String::from_str("User-Agent"),
                value: String::from_str("pingora-bench/0.1.0"),
            },
        );
        let ghost mandatory = texts_of(built@);
        let ghost lines = lines_of(self.headers@);
        assert(mandatory =~= seq![("Host"@, self.target.host@), ("User-Agent"@, client_id())]);
        let mut i: usize = 0;
        while i < self.headers.len()
            invariant
                i <= self.headers@.len(),
                lines == lines_of(self.headers@),
                custom_headers(lines.take(i as int)) is Ok,
                texts_of(built@) == mandatory + custom_headers(lines.take(i as int))->Ok_0,
            decreases self.headers@.len() - i,
        {
            let ghost before = built@;
            proof {
                assert(lines.take(i + 1).drop_last() =~= lines.take(i as int));
                assert(lines.take(i + 1).last() == self.headers@[i as int]@);
            }
            match split_header(self.headers[i].as_str()) {
                None => {},
                Some((name, value)) => {
                    if !name_accepted(name.as_str()) {
                        proof {
                            lemma_error_stays(lines, i + 1);
                        }
                        return Err(HeaderError::InvalidName { index: i });
                    }
                    if !value_accepted(value.as_str()) {
                        proof {
                            lemma_error_stays(lines, i + 1);
                        }
                        return Err(HeaderError::InvalidValue { index: i });
                    }
                    built.push(Header { name, value });
                    assert(texts_of(built@) =~= texts_of(before).push((name@, value@)));
                },
            }
            assert(texts_of(built@) =~= mandatory + custom_headers(lines.take(i + 1))->Ok_0);
            i = i + 1;
        }
        proof {
            assert(lines.take(i as int) =~= lines);
        }
        let ghost custom = texts_of(built@);
        match &self.body {
            Some(body) => {
                built.push(
                    Header {
                        name: String::from_str("Content-Length"),
                        value: decimal_string(body.len() as u128),
                    },
                );
                built.push(
                    Header {
                        name: String::from_str("Content-Type"),
                        value: String::from_str("application/json"),
                    },
                );
                assert(texts_of(built@) =~= custom + body_headers(self.body_length()));
            },
            None => {
                assert(texts_of(built@) =~= custom + body_headers(self.body_length()));
            },
        }
        Ok(built)
    }
}

/// A line without separator adds no header and raises no error: the headers
/// are those of the lines before it.
pub proof fn lemma_line_without_separator_is_dropped(lines: Seq<Seq<char>>, line: Seq<char>)
    requires
        !line.contains(':'),
    ensures
        custom_headers(lines.push(line)) == custom_headers(lines),
{
    lemma_split_needs_separator(line);
    assert(lines.push(line).drop_last() =~= lines);
}

/// A line whose name and value can be sent adds one header after those of
/// the lines before it.
pub proof fn lemma_sendable_line_is_appended(lines: Seq<Seq<char>>, line: Seq<char>)
    requires
        custom_headers(lines) is Ok,
        line.contains(':'),
        is_field_name(encode_utf8(line_name(line))),
        is_field_value(encode_utf8(line_value(line))),
    ensures
        custom_headers(lines.push(line)) == Ok::<Seq<HeaderText>, HeaderError>(
            custom_headers(lines)->Ok_0.push((line_name(line), line_value(line))),
        ),
{
    lemma_split_needs_separator(line);
    assert(lines.push(line).drop_last() =~= lines);
}

/// A line whose name cannot be sent, after lines without fault, makes the
/// list an error that names the line; so does one whose value cannot be
/// sent, where the name can.
pub proof fn lemma_faulty_line_is_an_error(lines: Seq<Seq<char>>, line: Seq<char>)
    requires
        custom_headers(lines) is Ok,
        line.contains(':'),
        lines.len() <= usize::MAX,
    ensures
        !is_field_name(encode_utf8(line_name(line))) ==> custom_headers(lines.push(line)) == Err::<
            Seq<HeaderText>,
            HeaderError,
        >(HeaderError::InvalidName { index: lines.len() as usize }),
        is_field_name(encode_utf8(line_name(line))) && !is_field_value(
            encode_utf8(line_value(line)),
        ) ==> custom_headers(lines.push(line)) == Err::<Seq<HeaderText>, HeaderError>(
            HeaderError::InvalidValue { index: lines.len() as usize },
        ),
{
    lemma_split_needs_separator(line);
    assert(lines.push(line).drop_last() =~= lines);
}

/// The mandatory headers come first, whatever the user supplied, and the
/// headers of the body come last.
pub proof fn lemma_header_list_order(
    host: Seq<char>,
    lines: Seq<Seq<char>>,
    body_length: Option<nat>,
)
    requires
        header_list(host, lines, body_length) is Ok,
    ensures
        custom_headers(lines) is Ok,
        header_list(host, lines, body_length)->Ok_0.len() == 2 + custom_headers(lines)->Ok_0.len()
            + body_headers(body_length).len(),
        header_list(host, lines, body_length)->Ok_0[0] == ("Host"@, host),
        header_list(host, lines, body_length)->Ok_0[1] == ("User-Agent"@, client_id()),
        body_length is Some ==> header_list(host, lines, body_length)->Ok_0.last() == (
            "Content-Type"@,
            default_content_type(),
        ),
{
}

/// An error among the first `upto` lines is the error of the whole list.
pub proof fn lemma_error_stays(lines: Seq<Seq<char>>, upto: int)
    requires
        0 <= upto <= lines.len(),
        custom_headers(lines.take(upto)) is Err,
    ensures
        custom_headers(lines) == custom_headers(lines.take(upto)),
    decreases lines.len() - upto,
{
    if upto < lines.len() {
        assert(lines.take(upto + 1).drop_last() =~= lines.take(upto));
        lemma_error_stays(lines, upto + 1);
    } else {
        assert(lines.take(upto) =~= lines);
    }
}

} // verus!
