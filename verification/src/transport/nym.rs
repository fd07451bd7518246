//! What the Nym mixnet transport decides: its name, its capabilities, the
//! operations it refuses and the errors it reports. The SOCKS5 connection to
//! the Nym network requester is made by the caller.
use vstd::prelude::*;

use crate::error::{Error, ErrorView};
use crate::text::{host_port, push_host_port};
use crate::transport::{failure_text, TransportCapability};

verus! {

/// The Nym transport's name.
pub fn name() -> (n: &'static str)
    ensures
        n@ == "nym"@,
{
    "nym"
}

/// Nym hides the client's IP address through its mixnet and resists deep
/// packet inspection through Sphinx packet encryption.
pub fn capabilities() -> (c: Vec<TransportCapability>)
    ensures
        c@ == seq![TransportCapability::IpAnonymity, TransportCapability::DpiResistant],
{
    let mut c = Vec::new();
    c.push(TransportCapability::IpAnonymity);
    c.push(TransportCapability::DpiResistant);
    proof {
        assert(c@ =~= seq![TransportCapability::IpAnonymity, TransportCapability::DpiResistant]);
    }
    c
}

/// The error of a connection to `target:port` through the Nym SOCKS5
/// requester at `via` that failed with `detail`.
pub fn connect_failure(target: &str, port: u16, via: &str, detail: &str) -> (e: Error)
    ensures
        e@ == ErrorView::Socks5(
            failure_text("nym connect to "@ + host_port(target@, port) + " via "@ + via@, detail@),
        ),
{
    let mut msg = String::from_str("nym connect to ");
    push_host_port(&mut msg, target, port);
    msg.append(" via ");
    msg.append(via);
    msg.append(": ");
    msg.append(detail);
    proof {
        assert(msg@ =~= failure_text(
            "nym connect to "@ + host_port(target@, port) + " via "@ + via@,
            detail@,
        ));
    }
    Error::Socks5(msg)
}

/// Onion addresses belong to Tor, not to Nym.
pub fn connect_onion_refusal() -> (e: Error)
    ensures
        e@ == ErrorView::Transport("Nym does not support .onion addresses"@),
{
    Error::Transport(String::from_str("Nym does not support .onion addresses"))
}

/// The network requester resolves names when it connects; there is no
/// separate lookup.
pub fn resolve_refusal() -> (e: Error)
    ensures
        e@ == ErrorView::Transport(
            "Nym does not support DNS resolution \u{2014} the network requester resolves hostnames on connect"@,
        ),
{
    Error::Transport(
        String::from_str(
            "Nym does not support DNS resolution \u{2014} the network requester resolves hostnames on connect",
        ),
    )
}

} // verus!
