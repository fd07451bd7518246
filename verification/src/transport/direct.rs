//! The direct transport: plain TCP, no anonymity layer.
use vstd::prelude::*;

use crate::error::{Error, ErrorView};
use crate::text::{host_port, push_host_port};
use crate::transport::{failure_text, TransportCapability};

verus! {

/// Direct TCP transport, with no anonymity layer.
///
/// Used for testing and as a baseline: it connects straight to the target,
/// without any proxy or onion routing.
#[derive(Debug, Clone, Copy, PartialEq, Eq, Structural)]
pub struct DirectTransport;

impl DirectTransport {
    /// The direct transport.
    pub fn new() -> (t: Self)
        ensures
            t == DirectTransport,
    {
        DirectTransport
    }

    /// The transport's name.
    pub fn name(&self) -> (n: &'static str)
        ensures
            n@ == "direct"@,
    {
        "direct"
    }

    /// The direct transport is always ready.
    pub fn is_ready(&self) -> (b: bool)
        ensures
            b,
    {
        true
    }

    /// The direct transport claims no capability.
    pub fn capabilities(&self) -> (c: Vec<TransportCapability>)
        ensures
            c@ == Seq::<TransportCapability>::empty(),
    {
        Vec::new()
    }

    /// The socket address that a connection to `target` on `port` dials.
    pub fn connect_address(&self, target: &str, port: u16) -> (a: String)
        ensures
            a@ == host_port(target@, port),
    {
        let mut a = String::new();
        push_host_port(&mut a, target, port);
        proof {
            assert(a@ =~= host_port(target@, port));
        }
        a
    }

    /// The error of a connection to `target:port` that failed with `detail`.
    pub fn connect_failure(&self, target: &str, port: u16, detail: &str) -> (e: Error)
        ensures
            e@ == ErrorView::Connection(failure_text(host_port(target@, port), detail@)),
    {
        let mut msg = String::new();
        push_host_port(&mut msg, target, port);
        msg.append(": ");
        msg.append(detail);
        proof {
            assert(msg@ =~= failure_text(host_port(target@, port), detail@));
        }
        Error::Connection(msg)
    }

    /// Onion addresses cannot be reached directly.
    pub fn connect_onion_refusal(&self) -> (e: Error)
        ensures
            e@ == ErrorView::Transport("direct transport does not support .onion addresses"@),
    {
        Error::Transport(String::from_str("direct transport does not support .onion addresses"))
    }

    /// The lookup query for `hostname`: the name with port 0.
    pub fn resolve_query(&self, hostname: &str) -> (q: String)
        ensures
            q@ == host_port(hostname@, 0),
    {
        self.connect_address(hostname, 0)
    }

    /// The error of a lookup of `hostname` that failed with `detail`.
    pub fn resolve_failure(&self, hostname: &str, detail: &str) -> (e: Error)
        ensures
            e@ == ErrorView::Connection(failure_text("DNS resolve "@ + hostname@, detail@)),
    {
        let mut msg = String::from_str("DNS resolve ");
        msg.append(hostname);
        msg.append(": ");
        msg.append(detail);
        proof {
            assert(msg@ =~= failure_text("DNS resolve "@ + hostname@, detail@));
        }
        Error::Connection(msg)
    }

    /// The answer to a lookup of `hostname` that found `addrs`: the addresses
    /// when there is at least one, an error otherwise.
    pub fn resolve_outcome<A>(&self, hostname: &str, addrs: Vec<A>) -> (r: Result<Vec<A>, Error>)
        ensures
            match r {
                Ok(found) => addrs@.len() > 0 && found@ == addrs@,
                Err(e) => addrs@.len() == 0 && e@ == ErrorView::Connection(
                    "no addresses found for "@ + hostname@,
                ),
            },
    {
        if addrs.len() == 0 {
            let mut msg = String::from_str("no addresses found for ");
            msg.append(hostname);
            Err(Error::Connection(msg))
        } else {
            Ok(addrs)
        }
    }
}

impl Default for DirectTransport {
    fn default() -> (t: Self)
        ensures
            t == DirectTransport,
    {
        DirectTransport::new()
    }
}

} // verus!
