//! Errors of the transports and their classification.
use vstd::prelude::*;
use vstd::std_specs::convert::FromSpecImpl;

verus! {

/// An error raised by a transport backend.
///
/// The text that each variant carries is the detail shown after the
/// variant's own prefix by [`Error::to_string`].
#[derive(Debug)]
pub enum Error {
    /// The transport is not ready (for example, not bootstrapped yet).
    NotReady(String),
    /// A connection could not be established or broke down.
    Connection(String),
    /// Bootstrapping the transport (or a session of it) failed.
    Bootstrap(String),
    /// An address was refused before anything was sent.
    InvalidAddress(String),
    /// An I/O error, kept as its text.
    Io(String),
    /// The SOCKS5 proxy refused or failed the request.
    Socks5(String),
    /// The Tor client reported an error.
    Tor(String),
    /// An operation ran out of time.
    Timeout,
    /// The transport does not support the operation, or failed in its own way.
    Transport(String),
}

/// Result of the transport operations.
pub type Result<T> = std::result::Result<T, Error>;

/// The mathematical model of an [`Error`]: the variant and the characters of its text.
pub enum ErrorView {
    NotReady(Seq<char>),
    Connection(Seq<char>),
    Bootstrap(Seq<char>),
    InvalidAddress(Seq<char>),
    Io(Seq<char>),
    Socks5(Seq<char>),
    Tor(Seq<char>),
    Timeout,
    Transport(Seq<char>),
}

impl View for Error {
    type V = ErrorView;

    open spec fn view(&self) -> ErrorView {
        match self {
            Error::NotReady(s) => ErrorView::NotReady(s@),
            Error::Connection(s) => ErrorView::Connection(s@),
            Error::Bootstrap(s) => ErrorView::Bootstrap(s@),
            Error::InvalidAddress(s) => ErrorView::InvalidAddress(s@),
            Error::Io(s) => ErrorView::Io(s@),
            Error::Socks5(s) => ErrorView::Socks5(s@),
            Error::Tor(s) => ErrorView::Tor(s@),
            Error::Timeout => ErrorView::Timeout,
            Error::Transport(s) => ErrorView::Transport(s@),
        }
    }
}

/// The broad class of an error, for callers that decide how to react to it.
#[derive(Debug, Clone, Copy, PartialEq, Eq, Hash, Structural)]
pub enum ErrorKind {
    /// A network failure that may go away by itself.
    TransientNetwork,
    /// A configuration that will not work however often it is tried.
    PermanentConfig,
    /// Credentials were refused.
    AuthenticationFailed,
    /// The peer or proxy broke its protocol, or refused the request.
    ProtocolViolation,
    /// A resource ran out.
    ResourceExhausted,
    /// An operation ran out of time.
    Timeout,
    /// The operation is not supported by the transport.
    Unsupported,
}

impl ErrorKind {
    /// The text shown for this kind.
    pub open spec fn message(self) -> Seq<char> {
        match self {
            ErrorKind::TransientNetwork => "transient network error"@,
            ErrorKind::PermanentConfig => "permanent configuration error"@,
            ErrorKind::AuthenticationFailed => "authentication failed"@,
            ErrorKind::ProtocolViolation => "protocol violation"@,
            ErrorKind::ResourceExhausted => "resource exhausted"@,
            ErrorKind::Timeout => "timeout"@,
            ErrorKind::Unsupported => "unsupported operation"@,
        }
    }

    /// The text shown for this kind.
    pub fn to_string(&self) -> (s: String)
        ensures
            s@ == self.message(),
    {
        match self {
            ErrorKind::TransientNetwork => String::from_str("transient network error"),
            ErrorKind::PermanentConfig => String::from_str("permanent configuration error"),
            ErrorKind::AuthenticationFailed => String::from_str("authentication failed"),
            ErrorKind::ProtocolViolation => String::from_str("protocol violation"),
            ErrorKind::ResourceExhausted => String::from_str("resource exhausted"),
            ErrorKind::Timeout => String::from_str("timeout"),
            ErrorKind::Unsupported => String::from_str("unsupported operation"),
        }
    }
}

impl ErrorView {
    /// The class an error belongs to.
    pub open spec fn kind(self) -> ErrorKind {
        match self {
            ErrorView::Connection(_) => ErrorKind::TransientNetwork,
            ErrorView::Io(_) => ErrorKind::TransientNetwork,
            ErrorView::Timeout => ErrorKind::Timeout,
            ErrorView::Bootstrap(_) => ErrorKind::PermanentConfig,
            ErrorView::InvalidAddress(_) => ErrorKind::PermanentConfig,
            ErrorView::NotReady(_) => ErrorKind::PermanentConfig,
            ErrorView::Socks5(_) => ErrorKind::ProtocolViolation,
            ErrorView::Tor(_) => ErrorKind::ProtocolViolation,
            ErrorView::Transport(_) => ErrorKind::Unsupported,
        }
    }

    /// Whether trying the operation again may succeed.
    pub open spec fn is_retryable(self) -> bool {
        match self {
            ErrorView::Connection(_) => true,
            ErrorView::Timeout => true,
            ErrorView::Io(_) => true,
            _ => false,
        }
    }

    /// The text shown for an error: a prefix naming the variant, then its detail.
    pub open spec fn message(self) -> Seq<char> {
        match self {
            ErrorView::NotReady(s) => "transport not ready: "@ + s,
            ErrorView::Connection(s) => "connection failed: "@ + s,
            ErrorView::Bootstrap(s) => "bootstrap failed: "@ + s,
            ErrorView::InvalidAddress(s) => "invalid address: "@ + s,
            ErrorView::Io(s) => "I/O error: "@ + s,
            ErrorView::Socks5(s) => "SOCKS5 error: "@ + s,
            ErrorView::Tor(s) => "Tor error: "@ + s,
            ErrorView::Timeout => "operation timed out"@,
            ErrorView::Transport(s) => "transport error: "@ + s,
        }
    }
}

impl Error {
    /// The class this error belongs to.
    pub fn kind(&self) -> (k: ErrorKind)
        ensures
            k == self@.kind(),
    {
        match self {
            Error::Connection(_) => ErrorKind::TransientNetwork,
            Error::Io(_) => ErrorKind::TransientNetwork,
            Error::Timeout => ErrorKind::Timeout,
            Error::Bootstrap(_) => ErrorKind::PermanentConfig,
            Error::InvalidAddress(_) => ErrorKind::PermanentConfig,
            Error::NotReady(_) => ErrorKind::PermanentConfig,
            Error::Socks5(_) => ErrorKind::ProtocolViolation,
            Error::Tor(_) => ErrorKind::ProtocolViolation,
            Error::Transport(_) => ErrorKind::Unsupported,
        }
    }

    /// Whether trying the operation again may succeed: connection failures,
    /// I/O errors and timeouts.
    pub fn is_retryable(&self) -> (b: bool)
        ensures
            b == self@.is_retryable(),
    {
        match self {
            Error::Connection(_) => true,
            Error::Timeout => true,
            Error::Io(_) => true,
            _ => false,
        }
    }

    /// The text shown for this error.
    pub fn to_string(&self) -> (s: String)
        ensures
            s@ == self@.message(),
    {
        match self {
            Error::NotReady(d) => String::from_str("transport not ready: ").concat(d.as_str()),
            Error::Connection(d) => String::from_str("connection failed: ").concat(d.as_str()),
            Error::Bootstrap(d) => String::from_str("bootstrap failed: ").concat(d.as_str()),
            Error::InvalidAddress(d) => String::from_str("invalid address: ").concat(d.as_str()),
            Error::Io(d) => String::from_str("I/O error: ").concat(d.as_str()),
            Error::Socks5(d) => String::from_str("SOCKS5 error: ").concat(d.as_str()),
            Error::Tor(d) => String::from_str("Tor error: ").concat(d.as_str()),
            Error::Timeout => String::from_str("operation timed out"),
            Error::Transport(d) => String::from_str("transport error: ").concat(d.as_str()),
        }
    }
}

impl Clone for Error {
    fn clone(&self) -> (r: Self)
        ensures
            r@ == self@,
    {
        match self {
            Error::NotReady(s) => Error::NotReady(s.clone()),
            Error::Connection(s) => Error::Connection(s.clone()),
            Error::Bootstrap(s) => Error::Bootstrap(s.clone()),
            Error::InvalidAddress(s) => Error::InvalidAddress(s.clone()),
            Error::Io(s) => Error::Io(s.clone()),
            Error::Socks5(s) => Error::Socks5(s.clone()),
            Error::Tor(s) => Error::Tor(s.clone()),
            Error::Timeout => Error::Timeout,
            Error::Transport(s) => Error::Transport(s.clone()),
        }
    }
}

impl PartialEq for Error {
    fn eq(&self, other: &Self) -> (r: bool) {
        match (self, other) {
            (Error::NotReady(a), Error::NotReady(b)) => a.eq(b),
            (Error::Connection(a), Error::Connection(b)) => a.eq(b),
            (Error::Bootstrap(a), Error::Bootstrap(b)) => a.eq(b),
            (Error::InvalidAddress(a), Error::InvalidAddress(b)) => a.eq(b),
            (Error::Io(a), Error::Io(b)) => a.eq(b),
            (Error::Socks5(a), Error::Socks5(b)) => a.eq(b),
            (Error::Tor(a), Error::Tor(b)) => a.eq(b),
            (Error::Timeout, Error::Timeout) => true,
            (Error::Transport(a), Error::Transport(b)) => a.eq(b),
            _ => false,
        }
    }
}

impl vstd::std_specs::cmp::PartialEqSpecImpl for Error {
    open spec fn obeys_eq_spec() -> bool {
        true
    }

    open spec fn eq_spec(&self, other: &Error) -> bool {
        self@ == other@
    }
}

/// `std::io::Error`, carried through as an opaque value.
#[verifier::external_type_specification]
#[verifier::external_body]
pub struct ExIoError(std::io::Error);

impl From<std::io::Error> for Error {
    /// An I/O error becomes [`Error::Io`] with the error's text, as its
    /// `Display` writes it.
    fn from(e: std::io::Error) -> (r: Error)
        ensures
            r matches Error::Io(s) && vstd::string::to_string_from_display_ensures::<
                std::io::Error,
            >(&e, s),
    {
        Error::Io(e.to_string())
    }
}

/// The text of an I/O error depends on the platform and its locale, so no
/// function of the error names the result: `from` promises the variant and
/// that its text is what the error's `Display` writes.
impl FromSpecImpl<std::io::Error> for Error {
    open spec fn obeys_from_spec() -> bool {
        false
    }

    open spec fn from_spec(v: std::io::Error) -> Error {
        vstd::pervasive::arbitrary()
    }
}

/// An error is worth retrying exactly when it is a transient network error
/// or a timeout.
pub proof fn lemma_retryable_iff_transient_or_timeout(e: ErrorView)
    ensures
        e.is_retryable() <==> (e.kind() == ErrorKind::TransientNetwork || e.kind()
            == ErrorKind::Timeout),
{
}

} // verus!
