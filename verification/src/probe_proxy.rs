//! Which proxies a connection probe may be sent through.
use vstd::prelude::*;
use vstd::string::*;
use crate::utf8_text::optional_text;
use crate::utf8_text::text_eq;

verus! {

/// The parts of a proxy's URL that decide whether it may be used.
#[derive(Debug, Clone, PartialEq, Eq)]
pub struct ProxyParts {
    pub scheme: String,
    pub host: Option<String>,
    /// The port, be it the scheme's own.
    pub port: Option<u16>,
}

/// Why a proxy may not be used.
#[derive(Debug, Clone, PartialEq, Eq)]
pub enum ProxyUrlError {
    /// The text is no URL, for the reason that is given.
    Invalid(String),
    UnsupportedScheme,
    MissingHost,
    NotLoopback,
    MissingPort,
}

/// Why a proxy may not be used, with the reason as text.
pub enum ProxyRefusal {
    Invalid(Seq<char>),
    UnsupportedScheme,
    MissingHost,
    NotLoopback,
    MissingPort,
}

impl View for ProxyUrlError {
    type V = ProxyRefusal;

    open spec fn view(&self) -> ProxyRefusal {
        match *self {
            ProxyUrlError::Invalid(reason) => ProxyRefusal::Invalid(reason@),
            ProxyUrlError::UnsupportedScheme => ProxyRefusal::UnsupportedScheme,
            ProxyUrlError::MissingHost => ProxyRefusal::MissingHost,
            ProxyUrlError::NotLoopback => ProxyRefusal::NotLoopback,
            ProxyUrlError::MissingPort => ProxyRefusal::MissingPort,
        }
    }
}

/// What the `url` crate reads from a text: the scheme, the host and the port of a URL, or the
/// reason why the text is none.
pub uninterp spec fn parsed_url(text: Seq<char>) -> Result<
    (Seq<char>, Option<Seq<char>>, Option<u16>),
    Seq<char>,
>;

/// Why a proxy with these parts may not be used: it must speak HTTP or HTTPS, on a host that is
/// this machine by one of its usual names, on a known port. The first fault in that order counts.
pub open spec fn parts_refusal(
    scheme: Seq<char>,
    host: Option<Seq<char>>,
    port: Option<u16>,
) -> Option<ProxyRefusal> {
    if scheme != "http"@ && scheme != "https"@ {
        Some(ProxyRefusal::UnsupportedScheme)
    } else {
        match host {
            None => Some(ProxyRefusal::MissingHost),
            Some(host) => if host != "127.0.0.1"@ && host != "localhost"@ && host != "::1"@ {
                Some(ProxyRefusal::NotLoopback)
            } else if port is None {
                Some(ProxyRefusal::MissingPort)
            } else {
                None
            },
        }
    }
}

/// Why the proxy at a URL may not be used, if so.
pub open spec fn proxy_refusal(url: Seq<char>) -> Option<ProxyRefusal> {
    match parsed_url(url) {
        Ok((scheme, host, port)) => parts_refusal(scheme, host, port),
        Err(reason) => Some(ProxyRefusal::Invalid(reason)),
    }
}

/// Reads a URL with `url::Url::parse`, and takes from it `scheme`, `host_str` and
/// `port_or_known_default`, or the text of the error. What those are on a given text is
/// [`parsed_url`].
#[verifier::external_body]
fn parse_url(text: &str) -> (parts: Result<ProxyParts, String>)
    ensures
        match parts {
            Ok(parts) => parsed_url(text@) == Ok::<
                (Seq<char>, Option<Seq<char>>, Option<u16>),
                Seq<char>,
            >((parts.scheme@, optional_text(parts.host), parts.port)),
            Err(reason) => parsed_url(text@) == Err::<
                (Seq<char>, Option<Seq<char>>, Option<u16>),
                Seq<char>,
            >(reason@),
        },
{
    let url = url::Url::parse(text).map_err(|error| error.to_string())?;
    Ok(ProxyParts {
        scheme: url.scheme().to_string(),
        host: url.host_str().map(str::to_string),
        port: url.port_or_known_default(),
    })
}

/// Checks the parts of a proxy's URL.
pub fn check_proxy_parts(parts: &ProxyParts) -> (result: Result<(), ProxyUrlError>)
    ensures
        match result {
            Ok(()) => parts_refusal(parts.scheme@, optional_text(parts.host), parts.port) is None,
            Err(error) => parts_refusal(parts.scheme@, optional_text(parts.host), parts.port)
                == Some(error@),
        },
{
    if !text_eq(parts.scheme.as_str(), "http") && !text_eq(parts.scheme.as_str(), "https") {
        return Err(ProxyUrlError::UnsupportedScheme);
    }
    match &parts.host {
        None => Err(ProxyUrlError::MissingHost),
        Some(host) => {
            let host = host.as_str();
            if !text_eq(host, "127.0.0.1") && !text_eq(host, "localhost") && !text_eq(host, "::1") {
                Err(ProxyUrlError::NotLoopback)
            } else if parts.port.is_none() {
                Err(ProxyUrlError::MissingPort)
            } else {
                Ok(())
            }
        },
    }
}

/// Checks the URL of a proxy.
pub fn validate_proxy_url(value: &str) -> (result: Result<(), ProxyUrlError>)
    ensures
        match result {
            Ok(()) => proxy_refusal(value@) is None,
            Err(error) => proxy_refusal(value@) == Some(error@),
        },
{
    match parse_url(value) {
        Ok(parts) => check_proxy_parts(&parts),
        Err(reason) => Err(ProxyUrlError::Invalid(reason)),
    }
}

impl ProxyRefusal {
    /// What the user is told.
    pub open spec fn text(&self) -> Seq<char> {
        match *self {
            ProxyRefusal::Invalid(reason) => reason,
            ProxyRefusal::UnsupportedScheme =>
                "--proxy currently supports explicit HTTP CONNECT proxies only"@,
            ProxyRefusal::MissingHost => "--proxy URL must include a host"@,
            ProxyRefusal::NotLoopback =>
                "--proxy must use a loopback host for the TUN control experiment"@,
            ProxyRefusal::MissingPort => "--proxy URL must include a port"@,
        }
    }
}

impl ProxyUrlError {
    /// What the user is told.
    pub fn message(&self) -> (message: String)
        ensures
            message@ == self@.text(),
    {
        match self {
            ProxyUrlError::Invalid(reason) => reason.clone(),
            ProxyUrlError::UnsupportedScheme =>
                "--proxy currently supports explicit HTTP CONNECT proxies only".to_owned(),
            ProxyUrlError::MissingHost => "--proxy URL must include a host".to_owned(),
            ProxyUrlError::NotLoopback =>
                "--proxy must use a loopback host for the TUN control experiment".to_owned(),
            ProxyUrlError::MissingPort => "--proxy URL must include a port".to_owned(),
        }
    }
}

/// A proxy may be used exactly when it speaks HTTP or HTTPS, on this machine by one of its three
/// names, on a known port; of several faults the scheme counts before the host and the host before
/// the port.
pub proof fn proxies_are_local(scheme: Seq<char>, host: Option<Seq<char>>, port: Option<u16>)
    ensures
        parts_refusal(scheme, host, port) is None <==> (scheme == "http"@ || scheme == "https"@) && (
        host == Some("127.0.0.1"@) || host == Some("localhost"@) || host == Some("::1"@)) && port
            is Some,
        parts_refusal(scheme, host, port) == Some(ProxyRefusal::UnsupportedScheme) <==> !(scheme
            == "http"@ || scheme == "https"@),
        parts_refusal(scheme, host, port) == Some(ProxyRefusal::MissingHost) <==> (scheme
            == "http"@ || scheme == "https"@) && host is None,
        parts_refusal(scheme, host, port) == Some(ProxyRefusal::NotLoopback) <==> (scheme
            == "http"@ || scheme == "https"@) && host is Some && !(host == Some("127.0.0.1"@) || host
            == Some("localhost"@) || host == Some("::1"@)),
        parts_refusal(scheme, host, port) == Some(ProxyRefusal::MissingPort) <==> (scheme
            == "http"@ || scheme == "https"@) && (host == Some("127.0.0.1"@) || host == Some(
            "localhost"@,
        ) || host == Some("::1"@)) && port is None,
{
}

/// A text that is no URL is refused for the reason why it is none, and a URL for the fault of its
/// parts, if they have one.
pub proof fn urls_are_refused_by_their_parts(url: Seq<char>)
    ensures
        parsed_url(url) matches Err(reason) ==> proxy_refusal(url) == Some(
            ProxyRefusal::Invalid(reason),
        ),
        parsed_url(url) matches Ok(parts) ==> proxy_refusal(url) == parts_refusal(
            parts.0,
            parts.1,
            parts.2,
        ),
{
}

/// An error tells its own fault, in words of its own.
pub proof fn proxy_errors_tell_their_fault(error: ProxyUrlError)
    ensures
        error matches ProxyUrlError::Invalid(reason) ==> error@ == ProxyRefusal::Invalid(reason@)
            && error@.text() == reason@,
        error is UnsupportedScheme ==> error@ == ProxyRefusal::UnsupportedScheme && error@.text()
            == "--proxy currently supports explicit HTTP CONNECT proxies only"@,
        error is MissingHost ==> error@ == ProxyRefusal::MissingHost && error@.text()
            == "--proxy URL must include a host"@,
        error is NotLoopback ==> error@ == ProxyRefusal::NotLoopback && error@.text()
            == "--proxy must use a loopback host for the TUN control experiment"@,
        error is MissingPort ==> error@ == ProxyRefusal::MissingPort && error@.text()
            == "--proxy URL must include a port"@,
{
}

} // verus!
