//! The endpoint of a run, taken from its URL.

use vstd::prelude::*;
use vstd::string::StringExecFns;

verus! {

/// The parts of a URL that name an endpoint.
#[derive(Clone, Debug, PartialEq, Eq)]
pub struct UrlParts {
    pub scheme: String,
    pub host: Option<String>,
    /// The port of the URL, or the usual port of its scheme.
    pub port: Option<u16>,
    pub path: String,
    pub query: Option<String>,
}

/// The parts of a URL as the contracts see them.
pub struct UrlPartsView {
    pub scheme: Seq<char>,
    pub host: Option<Seq<char>>,
    pub port: Option<u16>,
    pub path: Seq<char>,
    pub query: Option<Seq<char>>,
}

/// Why a URL names no endpoint. Each is fatal: no request is attempted.
#[derive(Clone, Debug, PartialEq, Eq)]
pub enum ConfigError {
    /// The text is no URL; `reason` says why.
    InvalidUrl { reason: String },
    /// The URL has no host.
    MissingHost,
    /// The URL names no port and its scheme has no usual one.
    UnknownPort,
}

/// The reasons why a URL names no endpoint, as the contracts see them.
pub enum ConfigFault {
    InvalidUrl { reason: Seq<char> },
    MissingHost,
    UnknownPort,
}

/// The endpoint of every request of a run.
#[derive(Clone, Debug, PartialEq, Eq)]
pub struct Target {
    pub host: String,
    pub port: u16,
    /// The connection is encrypted.
    pub tls: bool,
    /// Path and query as sent in the request line.
    pub path: String,
}

/// An endpoint as the contracts see it.
pub struct TargetView {
    pub host: Seq<char>,
    pub port: u16,
    pub tls: bool,
    pub path: Seq<char>,
}

/// The view of an optional text.
pub open spec fn text_of(text: Option<String>) -> Option<Seq<char>> {
    match text {
        Some(t) => Some(t@),
        None => None,
    }
}

impl View for UrlParts {
    type V = UrlPartsView;

    open spec fn view(&self) -> UrlPartsView {
        UrlPartsView {
            scheme: self.scheme@,
            host: text_of(self.host),
            port: self.port,
            path: self.path@,
            query: text_of(self.query),
        }
    }
}

impl View for ConfigError {
    type V = ConfigFault;

    open spec fn view(&self) -> ConfigFault {
        match self {
            ConfigError::InvalidUrl { reason } => ConfigFault::InvalidUrl { reason: reason@ },
            ConfigError::MissingHost => ConfigFault::MissingHost,
            ConfigError::UnknownPort => ConfigFault::UnknownPort,
        }
    }
}

impl View for Target {
    type V = TargetView;

    open spec fn view(&self) -> TargetView {
        TargetView { host: self.host@, port: self.port, tls: self.tls, path: self.path@ }
    }
}

/// What `url::Url::parse` makes of a text: the scheme, host, port or usual
/// port, path and query of the URL it reads, or its account of why the
/// text is no URL.
pub uninterp spec fn url_parts(text: Seq<char>) -> Result<UrlPartsView, Seq<char>>;

/// The view of the parts of a URL, or of the reason why there are none.
pub open spec fn taken_view(taken: Result<UrlParts, String>) -> Result<UrlPartsView, Seq<char>> {
    match taken {
        Ok(parts) => Ok(parts@),
        Err(reason) => Err(reason@),
    }
}

/// The view of an endpoint, or of the reason why there is none.
pub open spec fn found_view(found: Result<Target, ConfigError>) -> Result<TargetView, ConfigFault> {
    match found {
        Ok(target) => Ok(target@),
        Err(error) => Err(error@),
    }
}

/// The path of the request line: `path`, or `/` where it is empty, followed
/// by `?` and the query where there is one.
pub open spec fn request_path(path: Seq<char>, query: Option<Seq<char>>) -> Seq<char> {
    let base = if path.len() == 0 {
        "/"@
    } else {
        path
    };
    match query {
        Some(q) => base + "?"@ + q,
        None => base,
    }
}

/// The endpoint that the parts of a URL name. A URL without host names
/// none; neither does one whose port is unknown. The connection is
/// encrypted exactly where the scheme is `https`.
pub open spec fn endpoint_of(parts: UrlPartsView) -> Result<TargetView, ConfigFault> {
    match (parts.host, parts.port) {
        (None, _) => Err(ConfigFault::MissingHost),
        (Some(_), None) => Err(ConfigFault::UnknownPort),
        (Some(host), Some(port)) => Ok(
            TargetView {
                host,
                port,
                tls: parts.scheme == "https"@,
                path: request_path(parts.path, parts.query),
            },
        ),
    }
}

/// The endpoint that a text names: that of the URL it holds, where it holds
/// one.
pub open spec fn endpoint_in(taken: Result<UrlPartsView, Seq<char>>) -> Result<
    TargetView,
    ConfigFault,
> {
    match taken {
        Ok(parts) => endpoint_of(parts),
        Err(reason) => Err(ConfigFault::InvalidUrl { reason }),
    }
}

/// `url::Url::parse`, with the parts of the URL read off by `Url::scheme`,
/// `Url::host_str`, `Url::port_or_known_default`, `Url::path` and
/// `Url::query`, and the error turned into its text. The contract claims
/// only that the outcome depends on nothing but the text.
#[verifier::external_body]
fn take_apart(text: &str) -> (taken: Result<UrlParts, String>)
    ensures
        taken_view(taken) == url_parts(text@),
{
    match url::Url::parse(text) {
        Ok(url) => Ok(
            UrlParts {
                scheme: url.scheme().to_string(),
                host: url.host_str().map(str::to_string),
                port: url.port_or_known_default(),
                path: url.path().to_string(),
                query: url.query().map(str::to_string),
            },
        ),
        Err(error) => Err(error.to_string()),
    }
}

impl ConfigError {
    /// What is wrong with the URL, in words.
    pub open spec fn spec_description(&self) -> Seq<char> {
        match self {
            ConfigError::InvalidUrl { reason } => "Invalid URL: "@ + reason@,
            ConfigError::MissingHost => "URL must have a host"@,
            ConfigError::UnknownPort => "Could not determine port"@,
        }
    }

    /// What is wrong with the URL, in words.
    pub fn description(&self) -> (text: String)
        ensures
            text@ == self.spec_description(),
    {
        match self {
            ConfigError::InvalidUrl { reason } => {
                let mut text = String::from_str("Invalid URL: ");
                text.append(reason.as_str());
                text
            },
            ConfigError::MissingHost => String::from_str("URL must have a host"),
            ConfigError::UnknownPort => String::from_str("Could not determine port"),
        }
    }
}

impl Target {
    /// The endpoint that the parts of a URL name, or the reason why they
    /// name none.
    pub fn from_parts(parts: UrlParts) -> (found: Result<Target, ConfigError>)
        ensures
            found_view(found) == endpoint_of(parts@),
    {
        let host = match parts.host {
            Some(h) => h,
            None => { return Err(ConfigError::MissingHost); },
        };
        let port = match parts.port {
            Some(p) => p,
            None => { return Err(ConfigError::UnknownPort); },
        };
        let tls = parts.scheme == String::from_str("https");
        let mut path = if parts.path.as_str().unicode_len() == 0 {
            String::from_str("/")
        } else {
            parts.path
        };
        match parts.query {
            Some(q) => {
                path.append("?");
                path.append(q.as_str());
            },
            None => {},
        }
        Ok(Target { host, port, tls, path })
    }

    /// Reads the endpoint from the text of a URL.
    pub fn parse(text: &str) -> (found: Result<Target, ConfigError>)
        ensures
            found_view(found) == endpoint_in(url_parts(text@)),
    {
        match take_apart(text) {
            Ok(parts) => Target::from_parts(parts),
            Err(reason) => Err(ConfigError::InvalidUrl { reason }),
        }
    }

    /// Whether the certificate and the host name of the peer go unchecked:
    /// only on an encrypted connection, and only where the user asked for it.
    pub fn skips_verification(&self, insecure: bool) -> (skip: bool)
        ensures
            skip == (self.tls && insecure),
    {
        self.tls && insecure
    }
}

/// An endpoint never has an empty path.
pub proof fn lemma_path_not_empty(parts: UrlPartsView)
    requires
        endpoint_of(parts) is Ok,
    ensures
        endpoint_of(parts)->Ok_0.path.len() > 0,
{
    reveal_strlit("/");
    reveal_strlit("?");
}

} // verus!
