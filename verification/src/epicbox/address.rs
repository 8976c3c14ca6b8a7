//! Where the epicbox server is reached.

use vstd::prelude::*;

use tungstenite::client::{uri_mode, IntoClientRequest};

use crate::text::{chars_of, decimal, decimal_text, join, join3, string_of};

verus! {

/// The port of an unencrypted epicbox server.
pub const DEFAULT_EPICBOX_PORT_80: u16 = 80;

/// The port of an encrypted epicbox server.
pub const DEFAULT_EPICBOX_PORT_443: u16 = 443;

/// How the epicbox server is configured.
pub struct EpicboxConfig {
    pub epicbox_domain: Option<String>,
    pub epicbox_port: Option<u16>,
    pub epicbox_protocol_unsecure: Option<bool>,
}

impl Clone for EpicboxConfig {
    fn clone(&self) -> (res: Self)
        ensures
            res == *self,
    {
        EpicboxConfig {
            epicbox_domain: match &self.epicbox_domain {
                Some(domain) => Some(domain.clone()),
                None => None,
            },
            epicbox_port: self.epicbox_port,
            epicbox_protocol_unsecure: self.epicbox_protocol_unsecure,
        }
    }
}

/// An epicbox mailbox: a public key at a server.
pub struct EpicboxAddress {
    pub public_key: String,
    pub domain: String,
    pub port: Option<u16>,
}

/// What a websocket URL names.
pub struct UriParts {
    /// Whether the connection is encrypted.
    pub secure: bool,
    /// The host, an IPv6 address in its brackets.
    pub host: Option<String>,
    /// The port, where the URL has one.
    pub port: Option<u16>,
}

/// `UriParts` with its host as a sequence of characters.
pub struct UriView {
    pub secure: bool,
    pub host: Option<Seq<char>>,
    pub port: Option<u16>,
}

impl View for UriParts {
    type V = UriView;

    open spec fn view(&self) -> UriView {
        UriView {
            secure: self.secure,
            host: match self.host {
                Some(host) => Some(host@),
                None => None,
            },
            port: self.port,
        }
    }
}

/// The host and port to connect to.
pub struct Endpoint {
    pub host: String,
    pub port: u16,
}

/// What tungstenite finds in a websocket URL, or the text of its error.
pub uninterp spec fn client_uri(url: Seq<char>) -> Result<UriView, Seq<char>>;

/// Whether a host that starts with a bracket ends with one.
pub open spec fn closed_brackets(host: Seq<char>) -> bool {
    host.len() > 0 && host[0] == '[' ==> host.len() >= 2 && host.last() == ']'
}

/// `tungstenite::client::IntoClientRequest` on a string, with `uri_mode`,
/// `Uri::host` and `Uri::port_u16` on the URI of the request: the scheme must
/// be `ws` or `wss`, and a host that starts with a bracket is an IPv6 address
/// in brackets. An error is given by its text.
#[verifier::external_body]
fn read_url(url: &str) -> (res: Result<UriParts, String>)
    ensures
        match res {
            Ok(parts) => client_uri(url@) matches Ok(found) && found == parts@,
            Err(message) => client_uri(url@) matches Err(said) && said == message@,
        },
        res matches Ok(parts) && parts@.host matches Some(host) ==> closed_brackets(host),
{
    let request = url.into_client_request().map_err(|e: tungstenite::Error| e.to_string())?;
    let uri = request.uri();
    let mode = uri_mode(uri).map_err(|e: tungstenite::Error| e.to_string())?;
    Ok(
        UriParts {
            secure: matches!(mode, tungstenite::stream::Mode::Tls),
            host: uri.host().map(|host: &str| host.to_string()),
            port: uri.port_u16(),
        },
    )
}

/// The port of an address, or the default one of the protocol.
pub open spec fn port_or_default(port: Option<u16>, secure: bool) -> u16 {
    match port {
        Some(port) => port,
        None => if secure {
            DEFAULT_EPICBOX_PORT_443
        } else {
            DEFAULT_EPICBOX_PORT_80
        },
    }
}

/// Whether the configuration asks for encryption: it does unless it says otherwise.
pub open spec fn is_secure(config: EpicboxConfig) -> bool {
    config.epicbox_protocol_unsecure != Some(true)
}

/// The URL of the server of `address`.
pub open spec fn server_url(secure: bool, domain: Seq<char>, port: Option<u16>) -> Seq<char> {
    let scheme = if secure {
        "wss://"@
    } else {
        "ws://"@
    };
    scheme + domain + (":"@ + decimal(port_or_default(port, secure) as nat))
}

/// The URL of the server of `address`.
pub fn epicbox_url(config: &EpicboxConfig, address: &EpicboxAddress) -> (res: String)
    ensures
        res@ == server_url(is_secure(*config), address.domain@, address.port),
{
    let unsecure = match config.epicbox_protocol_unsecure {
        Some(unsecure) => unsecure,
        None => false,
    };
    let port = match address.port {
        Some(port) => port,
        None => if unsecure {
            DEFAULT_EPICBOX_PORT_80
        } else {
            DEFAULT_EPICBOX_PORT_443
        },
    };
    let port_text = decimal_text(port as u64);
    let suffix = join(":", port_text.as_str());
    if unsecure {
        join3("ws://", address.domain.as_str(), suffix.as_str())
    } else {
        join3("wss://", address.domain.as_str(), suffix.as_str())
    }
}

/// A host without the brackets of an IPv6 address.
pub open spec fn bare_host(host: Seq<char>) -> Seq<char> {
    if host.len() > 0 && host[0] == '[' {
        host.subrange(1, host.len() - 1)
    } else {
        host
    }
}

/// Whether a host in brackets can be taken out of them.
pub open spec fn can_be_bared(host: Seq<char>) -> bool {
    host.len() > 0 && host[0] == '[' ==> host.len() >= 2 && host.last() < '\u{80}'
}

/// The text of an input or output error of the connection with this message.
pub open spec fn io_error(message: Seq<char>) -> Seq<char> {
    "IO error: "@ + message
}

/// The `Display` impl of `tungstenite::Error` writes the variant `Io` as the
/// words `IO error: ` and the text of the error inside, and that of a
/// `std::io::Error` made of a message is the message.
#[verifier::external_body]
fn io_error_text(message: &str) -> (res: String)
    ensures
        res@ == io_error(message@),
{
    tungstenite::Error::Io(std::io::Error::new(std::io::ErrorKind::TimedOut, message)).to_string()
}

/// The text of an input or output error of the connection with this message.
pub fn epicbox_io_error(message: &str) -> (res: String)
    ensures
        res@ == io_error(message@),
{
    io_error_text(message)
}

/// The text of the error for a URL without a host.
pub open spec fn missing_host() -> Seq<char> {
    io_error("epicbox host is missing"@)
}

/// The host and port that a URL names: brackets are dropped and a missing port
/// is the default one of the protocol. A URL without a host is refused.
pub fn endpoint_of(parts: UriParts) -> (res: Result<Endpoint, String>)
    requires
        parts@.host matches Some(host) ==> can_be_bared(host),
    ensures
        match parts@.host {
            Some(host) => res matches Ok(endpoint) && endpoint.host@ == bare_host(host)
                && endpoint.port == port_or_default(parts.port, parts.secure),
            None => res matches Err(message) && message@ == missing_host(),
        },
{
    let host = match parts.host {
        Some(host) => host,
        None => {
            return Err(epicbox_io_error("epicbox host is missing"));
        },
    };
    let port = match parts.port {
        Some(port) => port,
        None => if parts.secure {
            DEFAULT_EPICBOX_PORT_443
        } else {
            DEFAULT_EPICBOX_PORT_80
        },
    };
    let chars = chars_of(host.as_str());
    if chars.len() > 0 && chars[0] == '[' {
        let mut inner: Vec<char> = Vec::new();
        let mut i: usize = 1;
        while i < chars.len() - 1
            invariant
                chars@.len() >= 2,
                1 <= i <= chars@.len() - 1,
                inner@ == chars@.subrange(1, i as int),
            decreases chars@.len() - i,
        {
            inner.push(chars[i]);
            i = i + 1;
            assert(chars@.subrange(1, i as int) =~= chars@.subrange(1, i - 1).push(chars@[i - 1]));
        }
        Ok(Endpoint { host: string_of(inner.as_slice()), port })
    } else {
        Ok(Endpoint { host, port })
    }
}

/// Whether `res` is the endpoint that `found` names, or the error that it is.
pub open spec fn connects_to(found: Result<UriView, Seq<char>>, res: Result<Endpoint, String>) -> bool {
    match found {
        Ok(parts) => match parts.host {
            Some(host) => res matches Ok(endpoint) && endpoint.host@ == bare_host(host)
                && endpoint.port == port_or_default(parts.port, parts.secure),
            None => res matches Err(message) && message@ == missing_host(),
        },
        Err(said) => res matches Err(message) && message@ == said,
    }
}

/// The host and port to connect to for a websocket URL.
pub fn endpoint(url: &str) -> (res: Result<Endpoint, String>)
    ensures
        connects_to(client_uri(url@), res),
{
    match read_url(url) {
        Ok(parts) => endpoint_of(parts),
        Err(message) => Err(message),
    }
}

/// The attempts to reach the addresses of a server, in turn.
pub struct ConnectAttempts {
    pub last_error: Option<String>,
}

/// The text of the error for a server that no attempt reached: that of the
/// last attempt, or a timeout where there was no address.
pub open spec fn not_reached(last_error: Option<String>, url: Seq<char>) -> Seq<char> {
    io_error(
        match last_error {
            Some(error) => error@,
            None => "epicbox connect timeout: "@ + url,
        },
    )
}

impl ConnectAttempts {
    /// No attempt yet.
    pub fn new() -> (res: Self)
        ensures
            res.last_error is None,
    {
        ConnectAttempts { last_error: None }
    }

    /// Notes that an attempt failed, with the text of the operating system's error.
    pub fn failed(&mut self, error: String)
        ensures
            final(self).last_error == Some(error),
    {
        self.last_error = Some(error);
    }

    /// The error when all addresses have been tried.
    pub fn give_up(self, url: &str) -> (res: String)
        ensures
            res@ == not_reached(self.last_error, url@),
    {
        match self.last_error {
            Some(error) => epicbox_io_error(error.as_str()),
            None => {
                let message = join("epicbox connect timeout: ", url);
                epicbox_io_error(message.as_str())
            },
        }
    }
}

} // verus!
