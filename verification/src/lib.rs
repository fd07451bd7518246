//! Anonymous transport library: the verified core.
//!
//! The decisions that the transport backends take (which addresses they
//! accept, what they report, which errors they raise and with which text,
//! and the SAMv3 dialogue spoken to an I2P router) are written here as plain
//! functions and state machines with contracts. Sockets and async plumbing
//! are left to the caller, who performs the actions these functions ask for.
pub mod error;
pub mod text;
pub mod transport;

pub use error::{Error, ErrorKind, ErrorView, Result};
pub use transport::direct::DirectTransport;
pub use transport::socks5::Socks5Transport;
pub use transport::{IsolationToken, MockTransport, TransportCapability};
