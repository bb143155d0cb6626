//! The ways a certificate check can fail.

use vstd::prelude::*;

verus! {

/// Why no expiration could be measured.
#[derive(Debug)]
pub enum Error {
    /// The target could not be resolved, or no transport connection to it
    /// could be opened.
    Connection(String),
    /// The TLS library failed while building a context or session, or while
    /// reading the certificate; holds its description.
    Tls(String),
    /// The transport connected but the TLS handshake failed; holds the
    /// handshake's description.
    Handshake(String),
    /// The handshake completed but the peer presented no certificate.
    CertificateNotFound,
}

} // verus!
