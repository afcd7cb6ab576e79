//! The connection-target decision made once at startup: with both a token and
//! a host configured, connect to that host on the bus's standard port with
//! the token; otherwise fall back to the local default endpoint with no
//! authentication. A failure to connect is fatal to startup; the caller
//! performing the network connection exits non-zero on it.

use vstd::prelude::*;
use vstd::string::StringExecFns;

verus! {

/// Where — and how — to connect to the message bus.
pub enum BusTarget {
    /// Connect to `host` on the standard port, authenticating with `token`.
    Authenticated { host: String, token: String },
    /// Connect to the local default endpoint, unauthenticated.
    LocalDefault,
}

/// The connection URL a target stands for.
pub open spec fn url_model(t: BusTarget) -> Seq<char> {
    match t {
        BusTarget::Authenticated { host, token: _ } => "nats://"@ + host@ + ":4222"@,
        BusTarget::LocalDefault => "nats://localhost:4222"@,
    }
}

/// Chooses the bus target from the optionally configured token and host
/// values: both present selects the authenticated host, anything less falls
/// back to the local default.
pub fn bus_target(token: Option<String>, host: Option<String>) -> (t: BusTarget)
    ensures
        t == (match (token, host) {
            (Some(tok), Some(h)) => BusTarget::Authenticated { host: h, token: tok },
            _ => BusTarget::LocalDefault,
        }),
{
    match (token, host) {
        (Some(tok), Some(h)) => BusTarget::Authenticated { host: h, token: tok },
        _ => BusTarget::LocalDefault,
    }
}

/// Renders the connection URL for a target: the configured host on the
/// standard port, or the local default endpoint.
pub fn bus_url(t: &BusTarget) -> (r: String)
    ensures
        r@ == url_model(*t),
{
    match t {
        BusTarget::Authenticated { host, token: _ } => {
            let mut s = String::from_str("nats://");
            s.append(host.as_str());
            s.append(":4222");
            s
        },
        BusTarget::LocalDefault => String::from_str("nats://localhost:4222"),
    }
}

/// The one topic the subscriber listens on.
pub fn subscription_topic() -> (r: &'static str)
    ensures
        r@ == "asdf.asdf"@,
{
    "asdf.asdf"
}

} // verus!
