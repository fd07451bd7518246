//! The SOCKS5 proxy transport.
use vstd::prelude::*;

use crate::error::{Error, ErrorView};
use crate::text::{has_suffix, host_port, push_host_port};
use crate::transport::{check_onion_address, failure_text, wrong_suffix_error, TransportCapability};

verus! {

/// SOCKS5 proxy transport.
///
/// Connects through an external SOCKS5 proxy (a running Tor instance, an
/// SSH tunnel, or any SOCKS5-compatible proxy server).
#[derive(Debug)]
pub struct Socks5Transport {
    proxy_addr: String,
}

impl View for Socks5Transport {
    type V = Seq<char>;

    /// The proxy's address, in `host:port` form.
    closed spec fn view(&self) -> Seq<char> {
        self.proxy_addr@
    }
}

impl Socks5Transport {
    /// A transport through the proxy at `proxy_addr`, in `host:port` form
    /// (for example `"127.0.0.1:9050"`).
    pub fn new(proxy_addr: &str) -> (t: Self)
        ensures
            t@ == proxy_addr@,
    {
        Socks5Transport { proxy_addr: String::from_str(proxy_addr) }
    }

    /// A transport through Tor's standard SOCKS5 port on this machine.
    pub fn tor_default() -> (t: Self)
        ensures
            t@ == "127.0.0.1:9050"@,
    {
        Self::new("127.0.0.1:9050")
    }

    /// The proxy's address.
    pub fn proxy_addr(&self) -> (a: &str)
        ensures
            a@ == self@,
    {
        self.proxy_addr.as_str()
    }

    /// The transport's name.
    pub fn name(&self) -> (n: &'static str)
        ensures
            n@ == "socks5"@,
    {
        "socks5"
    }

    /// A SOCKS5 proxy hides the client's IP address from the target.
    pub fn capabilities(&self) -> (c: Vec<TransportCapability>)
        ensures
            c@ == seq![TransportCapability::IpAnonymity],
    {
        let mut c = Vec::new();
        c.push(TransportCapability::IpAnonymity);
        c
    }

    /// The error of a connection to `target:port` through the proxy that
    /// failed with `detail`.
    pub fn connect_failure(&self, target: &str, port: u16, detail: &str) -> (e: Error)
        ensures
            e@ == ErrorView::Socks5(
                failure_text("connect to "@ + host_port(target@, port) + " via "@ + self@, detail@),
            ),
    {
        let mut msg = String::from_str("connect to ");
        push_host_port(&mut msg, target, port);
        msg.append(" via ");
        msg.append(self.proxy_addr.as_str());
        msg.append(": ");
        msg.append(detail);
        proof {
            assert(msg@ =~= failure_text(
                "connect to "@ + host_port(target@, port) + " via "@ + self@,
                detail@,
            ));
        }
        Error::Socks5(msg)
    }

    /// Checks an onion address before it is handed to the proxy: only
    /// addresses that end in `.onion` are accepted.
    pub fn check_onion(&self, onion_addr: &str) -> (r: Result<(), Error>)
        ensures
            match r {
                Ok(()) => has_suffix(onion_addr@, ".onion"@),
                Err(e) => !has_suffix(onion_addr@, ".onion"@) && e@ == wrong_suffix_error(
                    ".onion"@,
                    onion_addr@,
                ),
            },
    {
        check_onion_address(onion_addr)
    }

    /// The error of a connection to an onion address through the proxy that
    /// failed with `detail`.
    pub fn onion_connect_failure(&self, onion_addr: &str, port: u16, detail: &str) -> (e: Error)
        ensures
            e@ == ErrorView::Socks5(
                failure_text(
                    "onion connect to "@ + host_port(onion_addr@, port) + " via "@ + self@,
                    detail@,
                ),
            ),
    {
        let mut msg = String::from_str("onion connect to ");
        push_host_port(&mut msg, onion_addr, port);
        msg.append(" via ");
        msg.append(self.proxy_addr.as_str());
        msg.append(": ");
        msg.append(detail);
        proof {
            assert(msg@ =~= failure_text(
                "onion connect to "@ + host_port(onion_addr@, port) + " via "@ + self@,
                detail@,
            ));
        }
        Error::Socks5(msg)
    }

    /// Plain SOCKS5 has no lookup command, so name lookups are refused.
    pub fn resolve_refusal(&self) -> (e: Error)
        ensures
            e@ == ErrorView::Transport(
                "SOCKS5 resolve not supported \u{2014} use connect with hostname directly"@,
            ),
    {
        Error::Transport(
            String::from_str("SOCKS5 resolve not supported \u{2014} use connect with hostname directly"),
        )
    }
}

impl Clone for Socks5Transport {
    fn clone(&self) -> (t: Self)
        ensures
            t@ == self@,
    {
        Socks5Transport { proxy_addr: self.proxy_addr.clone() }
    }
}

impl PartialEq for Socks5Transport {
    fn eq(&self, other: &Self) -> (r: bool) {
        self.proxy_addr.eq(&other.proxy_addr)
    }
}

impl vstd::std_specs::cmp::PartialEqSpecImpl for Socks5Transport {
    open spec fn obeys_eq_spec() -> bool {
        true
    }

    open spec fn eq_spec(&self, other: &Socks5Transport) -> bool {
        self@ == other@
    }
}

impl Eq for Socks5Transport {

}

} // verus!
