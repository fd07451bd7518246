//! What the transports have in common: capabilities, isolation tokens,
//! address checks and the mock transport.
pub mod direct;
pub mod i2p;
pub mod nym;
pub mod shadowsocks;
pub mod socks5;
pub mod tor;

use vstd::prelude::*;

use crate::error::{Error, ErrorView};
use crate::text::{ends_with, has_suffix, host_port, push_host_port};

verus! {

/// Transport capability flags.
///
/// Describes what a transport backend supports, so that callers can select
/// a transport by the properties they need rather than by its name.
#[derive(Debug, Clone, Copy, PartialEq, Eq, Hash, Structural)]
pub enum TransportCapability {
    /// Can connect to .onion addresses.
    OnionRouting,
    /// Provides IP address anonymity.
    IpAnonymity,
    /// Supports stream isolation (multiple independent circuits).
    StreamIsolation,
    /// Can resolve DNS names.
    DnsResolution,
    /// Resistant to DPI (deep packet inspection).
    DpiResistant,
}

impl TransportCapability {
    /// The name under which a capability is shown.
    pub open spec fn name(self) -> Seq<char> {
        match self {
            TransportCapability::OnionRouting => "onion_routing"@,
            TransportCapability::IpAnonymity => "ip_anonymity"@,
            TransportCapability::StreamIsolation => "stream_isolation"@,
            TransportCapability::DnsResolution => "dns_resolution"@,
            TransportCapability::DpiResistant => "dpi_resistant"@,
        }
    }

    /// The name under which this capability is shown.
    pub fn to_string(&self) -> (s: String)
        ensures
            s@ == self.name(),
    {
        match self {
            TransportCapability::OnionRouting => String::from_str("onion_routing"),
            TransportCapability::IpAnonymity => String::from_str("ip_anonymity"),
            TransportCapability::StreamIsolation => String::from_str("stream_isolation"),
            TransportCapability::DnsResolution => String::from_str("dns_resolution"),
            TransportCapability::DpiResistant => String::from_str("dpi_resistant"),
        }
    }
}

/// Two capabilities are shown under the same name only if they are the same
/// capability.
pub proof fn lemma_capability_names_distinct(a: TransportCapability, b: TransportCapability)
    ensures
        a.name() == b.name() ==> a == b,
{
    reveal_strlit("onion_routing");
    reveal_strlit("ip_anonymity");
    reveal_strlit("stream_isolation");
    reveal_strlit("dns_resolution");
    reveal_strlit("dpi_resistant");
    if a != b {
        assert(a.name() != b.name()) by {
            if a.name().len() == b.name().len() {
                assert(a.name()[0] != b.name()[0]);
            }
        }
    }
}

/// Token for stream isolation.
///
/// Each distinct token value makes the transport use a separate circuit or
/// connection path. Connections sharing a token may share a circuit;
/// connections with different tokens must not.
#[derive(Debug, Clone, Copy, PartialEq, Eq, Hash, Structural)]
pub struct IsolationToken(u64);

impl View for IsolationToken {
    type V = u64;

    closed spec fn view(&self) -> u64 {
        self.0
    }
}

impl IsolationToken {
    /// A token with the given value.
    pub fn new(value: u64) -> (t: Self)
        ensures
            t@ == value,
    {
        IsolationToken(value)
    }

    /// The value of the token.
    pub fn value(self) -> (v: u64)
        ensures
            v == self@,
    {
        self.0
    }
}

/// Two tokens are the same token exactly when their values are equal.
pub proof fn lemma_token_identity(a: IsolationToken, b: IsolationToken)
    ensures
        a == b <==> a@ == b@,
{
}

/// The error that refuses an address not ending in `suffix`, for a network
/// whose addresses end in it.
pub open spec fn wrong_suffix_error(suffix: Seq<char>, addr: Seq<char>) -> ErrorView {
    ErrorView::InvalidAddress("expected "@ + suffix + " address, got: "@ + addr)
}

/// Accepts `addr` exactly when it ends in `suffix`; otherwise the error
/// names the expected suffix and the address that was given.
pub fn check_address_suffix(suffix: &str, addr: &str) -> (r: Result<(), Error>)
    ensures
        match r {
            Ok(()) => has_suffix(addr@, suffix@),
            Err(e) => !has_suffix(addr@, suffix@) && e@ == wrong_suffix_error(suffix@, addr@),
        },
{
    if ends_with(addr, suffix) {
        Ok(())
    } else {
        let mut msg = String::from_str("expected ");
        msg.append(suffix);
        msg.append(" address, got: ");
        msg.append(addr);
        proof {
            assert(msg@ =~= "expected "@ + suffix@ + " address, got: "@ + addr@);
        }
        Err(Error::InvalidAddress(msg))
    }
}

/// Accepts exactly the addresses that end in `.onion`.
pub fn check_onion_address(addr: &str) -> (r: Result<(), Error>)
    ensures
        match r {
            Ok(()) => has_suffix(addr@, ".onion"@),
            Err(e) => !has_suffix(addr@, ".onion"@) && e@ == wrong_suffix_error(".onion"@, addr@),
        },
{
    check_address_suffix(".onion", addr)
}

/// The error of an operation that failed on `subject` because of `detail`:
/// the subject, a colon, then the detail.
pub open spec fn failure_text(subject: Seq<char>, detail: Seq<char>) -> Seq<char> {
    subject + ": "@ + detail
}

/// Mock transport for testing: reports itself by name and readiness, and
/// refuses every connection and lookup.
#[derive(Debug)]
pub struct MockTransport {
    /// Whether `is_ready` answers `true`.
    pub ready: bool,
    /// Name answered by `name()`.
    pub transport_name: String,
}

impl MockTransport {
    /// A mock transport named `mock`.
    pub fn new(ready: bool) -> (t: Self)
        ensures
            t.ready == ready,
            t.transport_name@ == "mock"@,
    {
        MockTransport { ready, transport_name: String::from_str("mock") }
    }

    /// The transport's name.
    pub fn name(&self) -> (n: &str)
        ensures
            n@ == self.transport_name@,
    {
        self.transport_name.as_str()
    }

    /// Whether the transport reports itself ready.
    pub fn is_ready(&self) -> (b: bool)
        ensures
            b == self.ready,
    {
        self.ready
    }

    /// The mock supports nothing.
    pub fn capabilities(&self) -> (c: Vec<TransportCapability>)
        ensures
            c@ == Seq::<TransportCapability>::empty(),
    {
        Vec::new()
    }

    /// The error every connection to `target:port` fails with.
    pub fn connect_refusal(&self, target: &str, port: u16) -> (e: Error)
        ensures
            e@ == ErrorView::Transport("mock transport: connect to "@ + host_port(target@, port)),
    {
        let mut msg = String::from_str("mock transport: connect to ");
        push_host_port(&mut msg, target, port);
        Error::Transport(msg)
    }

    /// The error every connection to an onion address fails with.
    pub fn connect_onion_refusal(&self, onion_addr: &str, port: u16) -> (e: Error)
        ensures
            e@ == ErrorView::Transport(
                "mock transport: connect_onion to "@ + host_port(onion_addr@, port),
            ),
    {
        let mut msg = String::from_str("mock transport: connect_onion to ");
        push_host_port(&mut msg, onion_addr, port);
        Error::Transport(msg)
    }

    /// The error every name lookup fails with.
    pub fn resolve_refusal(&self, hostname: &str) -> (e: Error)
        ensures
            e@ == ErrorView::Transport("mock transport: resolve "@ + hostname@),
    {
        let mut msg = String::from_str("mock transport: resolve ");
        msg.append(hostname);
        Error::Transport(msg)
    }
}

impl Clone for MockTransport {
    fn clone(&self) -> (t: Self)
        ensures
            t.ready == self.ready,
            t.transport_name@ == self.transport_name@,
    {
        MockTransport { ready: self.ready, transport_name: self.transport_name.clone() }
    }
}

impl PartialEq for MockTransport {
    fn eq(&self, other: &Self) -> (r: bool) {
        self.ready == other.ready && self.transport_name.eq(&other.transport_name)
    }
}

impl vstd::std_specs::cmp::PartialEqSpecImpl for MockTransport {
    open spec fn obeys_eq_spec() -> bool {
        true
    }

    open spec fn eq_spec(&self, other: &MockTransport) -> bool {
        self.ready == other.ready && self.transport_name@ == other.transport_name@
    }
}

impl Eq for MockTransport {

}

} // verus!
