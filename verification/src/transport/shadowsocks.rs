//! What the Shadowsocks transport decides: its name, the operations it
//! refuses and the errors it reports. The SOCKS5 connection to the local
//! `ss-local` client is made by the caller.
use vstd::prelude::*;

use crate::error::{Error, ErrorView};
use crate::text::{host_port, push_host_port};
use crate::transport::{failure_text, TransportCapability};

verus! {

/// The Shadowsocks transport's name.
pub fn name() -> (n: &'static str)
    ensures
        n@ == "shadowsocks"@,
{
    "shadowsocks"
}

/// The Shadowsocks transport claims no capability.
pub fn capabilities() -> (c: Vec<TransportCapability>)
    ensures
        c@ == Seq::<TransportCapability>::empty(),
{
    Vec::new()
}

/// The error of a connection to `target:port` through the local Shadowsocks
/// client at `via` that failed with `detail`.
pub fn connect_failure(target: &str, port: u16, via: &str, detail: &str) -> (e: Error)
    ensures
        e@ == ErrorView::Socks5(
            failure_text(
                "shadowsocks connect to "@ + host_port(target@, port) + " via "@ + via@,
                detail@,
            ),
        ),
{
    let mut msg = String::from_str("shadowsocks connect to ");
    push_host_port(&mut msg, target, port);
    msg.append(" via ");
    msg.append(via);
    msg.append(": ");
    msg.append(detail);
    proof {
        assert(msg@ =~= failure_text(
            "shadowsocks connect to "@ + host_port(target@, port) + " via "@ + via@,
            detail@,
        ));
    }
    Error::Socks5(msg)
}

/// Onion addresses belong to Tor, not to Shadowsocks.
pub fn connect_onion_refusal() -> (e: Error)
    ensures
        e@ == ErrorView::Transport("Shadowsocks does not support .onion addresses"@),
{
    Error::Transport(String::from_str("Shadowsocks does not support .onion addresses"))
}

/// Shadowsocks offers no name lookup.
pub fn resolve_refusal() -> (e: Error)
    ensures
        e@ == ErrorView::Transport("Shadowsocks does not support DNS resolution"@),
{
    Error::Transport(String::from_str("Shadowsocks does not support DNS resolution"))
}

} // verus!
