//! What is relied on of where the epicbox server is reached.

use vstd::prelude::*;

use crate::epicbox::address::{
    client_uri, endpoint, endpoint_of, epicbox_io_error, epicbox_url, ConnectAttempts, Endpoint,
    EpicboxAddress, EpicboxConfig, UriParts,
};
use crate::text::decimal;

verus! {

/// The server is reached with encryption unless the configuration says
/// otherwise, at the domain and the port of the address; where the address has
/// no port, at 443 with encryption and at 80 without.
pub proof fn server_is_reached_at_the_address(
    config: EpicboxConfig,
    address: EpicboxAddress,
    res: String,
)
    requires
        call_ensures(epicbox_url, (&config, &address), res),
    ensures
        ({
            let plain = config.epicbox_protocol_unsecure == Some(true);
            let port: u16 = match address.port {
                Some(port) => port,
                None => if plain {
                    80
                } else {
                    443
                },
            };
            let place = address.domain@ + (":"@ + decimal(port as nat));
            &&& plain ==> res@ =~= "ws://"@ + place
            &&& !plain ==> res@ =~= "wss://"@ + place
        }),
{
}

/// Whether this is the endpoint of a URL with this host and port.
pub open spec fn is_endpoint(
    res: Endpoint,
    host: Seq<char>,
    port: Option<u16>,
    secure: bool,
) -> bool {
    &&& host.len() >= 2 && host[0] == '[' ==> res.host@ == host.drop_first().drop_last()
    &&& host.len() == 0 || host[0] != '[' ==> res.host@ == host
    &&& port matches Some(given) ==> res.port == given
    &&& port is None && secure ==> res.port == 443
    &&& port is None && !secure ==> res.port == 80
}

/// The host of a URL loses the brackets of an IPv6 address and nothing else; a
/// port that the URL names is taken, and the usual one where it names none. A
/// URL without a host is refused.
pub proof fn endpoint_is_what_the_url_names(parts: UriParts, res: Result<Endpoint, String>)
    requires
        call_ensures(endpoint_of, (parts,), res),
    ensures
        parts.host matches Some(host) ==> (res matches Ok(found) && is_endpoint(
            found,
            host@,
            parts.port,
            parts.secure,
        )),
        parts.host is None ==> (res matches Err(message) && message@ == "IO error: "@
            + "epicbox host is missing"@),
{
    if let Some(host) = parts.host {
        if host@.len() >= 2 {
            assert(host@.subrange(1, host@.len() - 1) =~= host@.drop_first().drop_last());
        }
    }
}

/// The endpoint of a URL is that of what is found in it, and an error in the
/// URL is passed on.
pub proof fn endpoint_is_found_in_the_url(url: &str, res: Result<Endpoint, String>)
    requires
        call_ensures(endpoint, (url,), res),
    ensures
        match client_uri(url@) {
            Err(said) => res matches Err(message) && message@ == said,
            Ok(found) => match found.host {
                Some(host) => res matches Ok(place) && is_endpoint(
                    place,
                    host,
                    found.port,
                    found.secure,
                ),
                None => res matches Err(message) && message@ == "IO error: "@
                    + "epicbox host is missing"@,
            },
        },
{
    if let Ok(found) = client_uri(url@) {
        if let Some(host) = found.host {
            if host.len() >= 2 {
                assert(host.subrange(1, host.len() - 1) =~= host.drop_first().drop_last());
            }
        }
    }
}

/// The last error of a failed attempt is the one that is reported, and a
/// timeout where there was no attempt.
pub proof fn last_attempt_is_reported(
    fresh: ConnectAttempts,
    tried: ConnectAttempts,
    error: String,
    url: &str,
    untried: String,
    message: &str,
    failed: String,
    said: String,
)
    requires
        call_ensures(ConnectAttempts::new, (), fresh),
        call_ensures(ConnectAttempts::give_up, (fresh, url), untried),
        tried.last_error == Some(error),
        call_ensures(ConnectAttempts::give_up, (tried, url), failed),
        call_ensures(epicbox_io_error, (message,), said),
    ensures
        untried@ =~= "IO error: "@ + ("epicbox connect timeout: "@ + url@),
        failed@ == "IO error: "@ + error@,
        said@ == "IO error: "@ + message@,
{
}

/// A failed attempt is noted in the place of the one before it.
pub proof fn failed_attempt_is_noted(attempts: &mut ConnectAttempts, error: String)
    requires
        call_ensures(ConnectAttempts::failed, (attempts, error), ()),
    ensures
        final(attempts).last_error == Some(error),
{
}

} // verus!
