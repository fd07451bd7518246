//! What the Tor transport decides: its name, its capabilities, which onion
//! addresses it accepts and the errors it reports. The Tor client itself
//! (Arti) is driven by the caller.
use vstd::prelude::*;

use crate::error::{Error, ErrorView};
use crate::text::{host_port, push_host_port};
use crate::transport::{failure_text, TransportCapability};

verus! {

/// The Tor transport's name.
pub fn name() -> (n: &'static str)
    ensures
        n@ == "tor (arti)"@,
{
    "tor (arti)"
}

/// Tor provides the full set of anonymity features.
pub fn capabilities() -> (c: Vec<TransportCapability>)
    ensures
        c@ == seq![
            TransportCapability::OnionRouting,
            TransportCapability::IpAnonymity,
            TransportCapability::StreamIsolation,
            TransportCapability::DnsResolution,
            TransportCapability::DpiResistant,
        ],
{
    let mut c = Vec::new();
    c.push(TransportCapability::OnionRouting);
    c.push(TransportCapability::IpAnonymity);
    c.push(TransportCapability::StreamIsolation);
    c.push(TransportCapability::DnsResolution);
    c.push(TransportCapability::DpiResistant);
    proof {
        assert(c@ =~= seq![
            TransportCapability::OnionRouting,
            TransportCapability::IpAnonymity,
            TransportCapability::StreamIsolation,
            TransportCapability::DnsResolution,
            TransportCapability::DpiResistant,
        ]);
    }
    c
}

/// The error of a failed bootstrap of the Tor client.
pub fn bootstrap_failure(detail: &str) -> (e: Error)
    ensures
        e@ == ErrorView::Bootstrap("Tor bootstrap failed: "@ + detail@),
{
    let mut msg = String::from_str("Tor bootstrap failed: ");
    msg.append(detail);
    Error::Bootstrap(msg)
}

fn failure(subject: String, detail: &str) -> (e: Error)
    ensures
        e@ == ErrorView::Connection(failure_text(subject@, detail@)),
{
    let mut msg = subject;
    msg.append(": ");
    msg.append(detail);
    proof {
        assert(msg@ =~= failure_text(subject@, detail@));
    }
    Error::Connection(msg)
}

/// The error of a connection through Tor to `target:port` that failed with
/// `detail`.
pub fn connect_failure(target: &str, port: u16, detail: &str) -> (e: Error)
    ensures
        e@ == ErrorView::Connection(
            failure_text("Tor connect to "@ + host_port(target@, port), detail@),
        ),
{
    let mut subject = String::from_str("Tor connect to ");
    push_host_port(&mut subject, target, port);
    failure(subject, detail)
}

/// The error of a connection through Tor to an onion address that failed
/// with `detail`.
pub fn onion_connect_failure(onion_addr: &str, port: u16, detail: &str) -> (e: Error)
    ensures
        e@ == ErrorView::Connection(
            failure_text("Tor onion connect to "@ + host_port(onion_addr@, port), detail@),
        ),
{
    let mut subject = String::from_str("Tor onion connect to ");
    push_host_port(&mut subject, onion_addr, port);
    failure(subject, detail)
}

/// The error of a lookup of `hostname` through Tor that failed with `detail`.
pub fn resolve_failure(hostname: &str, detail: &str) -> (e: Error)
    ensures
        e@ == ErrorView::Connection(failure_text("Tor resolve "@ + hostname@, detail@)),
{
    let mut subject = String::from_str("Tor resolve ");
    subject.append(hostname);
    failure(subject, detail)
}

} // verus!
