//! Checks how long a server's TLS certificate remains valid.
//!
//! The library builds a TLS client that inspects certificates without
//! trusting or rejecting them, reads the leaf certificate that the peer
//! presented, and measures the signed time left before its `notAfter`
//! instant. Opening the transport connection and running the handshake is
//! left to the caller.

pub mod error;
pub mod expiration;
pub mod tls;

pub use error::Error;
pub use expiration::SslExpiration;
