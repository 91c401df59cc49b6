use vstd::prelude::*;

use crate::error::ClientError;

verus! {

#[verifier::external_type_specification]
#[verifier::external_body]
pub struct ExParseError(url::ParseError);

/// Whether `url::Url::parse` accepts the text.
pub uninterp spec fn url_parses(s: Seq<char>) -> bool;

/// The scheme that `url::Url::scheme` gives for the parsed text.
pub uninterp spec fn url_scheme_of(s: Seq<char>) -> Seq<char>;

/// The host that `url::Url::host_str` gives for the parsed text.
pub uninterp spec fn url_host_of(s: Seq<char>) -> Option<Seq<char>>;

/// The path that `url::Url::path` gives for the parsed text.
pub uninterp spec fn url_path_of(s: Seq<char>) -> Seq<char>;

/// The port that `url::Url::port_or_known_default` gives for the parsed text.
pub uninterp spec fn url_port_of(s: Seq<char>) -> Option<u16>;

/// The pieces of a parsed URL, as the URL parser hands them out.
pub struct UrlParts {
    pub scheme: String,
    pub host: Option<String>,
    pub path: String,
    pub port: Option<u16>,
}

/// Where a request goes: every piece is present.
pub struct Target {
    pub scheme: String,
    pub host: String,
    pub path: String,
    pub port: u16,
}

pub open spec fn opt_chars(o: Option<String>) -> Option<Seq<char>> {
    match o {
        Some(s) => Some(s@),
        None => None,
    }
}

/// The request path: an absent path is the root.
pub open spec fn path_or_root(p: Seq<char>) -> Seq<char> {
    if p.len() == 0 {
        "/"@
    } else {
        p
    }
}

/// `t` is the target made of the given pieces.
pub open spec fn is_target(
    t: Target,
    scheme: Seq<char>,
    host: Option<Seq<char>>,
    path: Seq<char>,
    port: Option<u16>,
) -> bool {
    &&& t.scheme@ == scheme
    &&& host == Some(t.host@)
    &&& t.path@ == path_or_root(path)
    &&& port == Some(t.port)
}

/// Relies on `url::Url::parse` to parse the text, and on the parsed value's
/// `scheme`, `host_str`, `path` and `port_or_known_default` to read it.
#[verifier::external_body]
fn url_components(s: &str) -> (r: Result<UrlParts, url::ParseError>)
    ensures
        r is Ok <==> url_parses(s@),
        r matches Ok(p) ==> {
            &&& p.scheme@ == url_scheme_of(s@)
            &&& opt_chars(p.host) == url_host_of(s@)
            &&& p.path@ == url_path_of(s@)
            &&& p.port == url_port_of(s@)
        },
{
    url::Url::parse(s).map(|u| UrlParts {
        scheme: u.scheme().to_string(),
        host: u.host_str().map(String::from),
        path: u.path().to_string(),
        port: u.port_or_known_default(),
    })
}

/// Turns parsed pieces into a target: the host and the port must be present,
/// and an empty path becomes `/`.
pub fn resolve_parts(parts: UrlParts) -> (r: Result<Target, ClientError>)
    ensures
        r is Ok <==> (parts.host is Some && parts.port is Some),
        r matches Ok(t) ==> is_target(t, parts.scheme@, opt_chars(parts.host), parts.path@, parts.port),
        r matches Err(e) ==> e == ClientError::UrlError,
{
    let UrlParts { scheme, host, path, port } = parts;
    match (host, port) {
        (Some(host), Some(port)) => {
            let path = if path.as_str().is_empty() {
                "/".to_owned()
            } else {
                path
            };
            Ok(Target { scheme, host, path, port })
        },
        _ => Err(ClientError::UrlError),
    }
}

/// Parses a URL into scheme, host, path and port.
pub fn parse_url(url: &str) -> (r: Result<Target, ClientError>)
    ensures
        r is Ok <==> {
            &&& url_parses(url@)
            &&& url_host_of(url@) is Some
            &&& url_port_of(url@) is Some
        },
        r matches Ok(t) ==> is_target(
            t,
            url_scheme_of(url@),
            url_host_of(url@),
            url_path_of(url@),
            url_port_of(url@),
        ),
        r matches Err(e) ==> e == ClientError::UrlError,
{
    match url_components(url) {
        Ok(parts) => resolve_parts(parts),
        Err(_) => Err(ClientError::UrlError),
    }
}


/// The transport that a request needs.
#[derive(Debug, Clone, Copy, PartialEq, Eq, Structural)]
pub enum TransportKind {
    /// A plain TCP connection.
    Plain,
    /// A TLS connection that negotiates HTTP/2 as its application protocol.
    Tls,
}

/// The transport for a scheme, if the scheme is served.
pub open spec fn transport_for(scheme: Seq<char>) -> Option<TransportKind> {
    if scheme == "http"@ {
        Some(TransportKind::Plain)
    } else if scheme == "https"@ {
        Some(TransportKind::Tls)
    } else {
        None
    }
}

/// Picks the transport for a scheme: `http` is plain, `https` is TLS, and any
/// other scheme is refused.
pub fn select_transport(scheme: &str) -> (r: Result<TransportKind, ClientError>)
    ensures
        transport_for(scheme@) matches Some(k) ==> r == Ok::<TransportKind, ClientError>(k),
        transport_for(scheme@) is None ==> r == Err::<TransportKind, ClientError>(
            ClientError::UnsupportedScheme,
        ),
{
    let s = scheme.to_owned();
    if s == "http".to_owned() {
        Ok(TransportKind::Plain)
    } else if s == "https".to_owned() {
        Ok(TransportKind::Tls)
    } else {
        Err(ClientError::UnsupportedScheme)
    }
}

/// The application-layer protocol identifier of HTTP/2: the bytes of `h2`.
pub open spec fn h2_id() -> Seq<u8> {
    seq![0x68u8, 0x32u8]
}

/// The identifier of HTTP/2, the one protocol that TLS offers.
pub fn h2_alpn_id() -> (r: Vec<u8>)
    ensures
        r@ == h2_id(),
{
    let r: Vec<u8> = vec![0x68u8, 0x32u8];
    assert(r@ =~= h2_id());
    r
}

/// Whether TLS negotiated exactly the HTTP/2 identifier.
pub open spec fn alpn_accepted(negotiated: Option<Seq<u8>>) -> bool {
    negotiated == Some(h2_id())
}

/// Checks what TLS negotiated: anything but the HTTP/2 identifier, including
/// nothing at all, is refused.
pub fn check_alpn(negotiated: Option<&[u8]>) -> (r: Result<(), ClientError>)
    ensures
        r is Ok <==> alpn_accepted(
            match negotiated {
                Some(b) => Some(b@),
                None => None,
            },
        ),
        r matches Err(e) ==> e == ClientError::AlpnMismatch,
{
    match negotiated {
        Some(b) => {
            if b.len() == 2 && b[0] == 0x68u8 && b[1] == 0x32u8 {
                assert(b@ =~= h2_id());
                Ok(())
            } else {
                proof {
                    if b@ == h2_id() {
                        assert(b@[0] == h2_id()[0] && b@[1] == h2_id()[1]);
                    }
                }
                Err(ClientError::AlpnMismatch)
            }
        },
        None => Err(ClientError::AlpnMismatch),
    }
}

} // verus!
