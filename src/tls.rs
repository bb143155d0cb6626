//! The TLS client that inspects a peer's certificate without judging it.

use vstd::prelude::*;
use vstd::string::StringExecFns;
use openssl::asn1::{Asn1Time, Asn1TimeRef};
use openssl::error::ErrorStack;
use openssl::ssl::{Ssl, SslContext, SslContextBuilder, SslMethod, SslRef, SslVerifyMode};
use openssl::x509::X509;
use crate::error::Error;
use crate::expiration::{diff_secs, is_time_diff, SslExpiration};

verus! {

#[verifier::external_type_specification]
#[verifier::external_body]
pub struct ExErrorStack(ErrorStack);

#[verifier::external_type_specification]
#[verifier::external_body]
pub struct ExSslMethod(SslMethod);

#[verifier::external_type_specification]
#[verifier::external_body]
pub struct ExSslContextBuilder(SslContextBuilder);

#[verifier::external_type_specification]
#[verifier::external_body]
pub struct ExSslContext(SslContext);

#[verifier::external_type_specification]
#[verifier::external_body]
pub struct ExSsl(Ssl);

#[verifier::external_type_specification]
#[verifier::external_body]
pub struct ExSslRef(SslRef);

#[verifier::external_type_specification]
#[verifier::external_body]
pub struct ExX509(X509);

#[verifier::external_type_specification]
#[verifier::external_body]
pub struct ExAsn1Time(Asn1Time);

#[verifier::external_type_specification]
#[verifier::external_body]
pub struct ExAsn1TimeRef(Asn1TimeRef);

/// Relies on `SslMethod::tls`: the method that negotiates the highest TLS
/// version both sides support.
pub assume_specification[ SslMethod::tls ]() -> SslMethod;

/// Relies on `SslContext::builder`: a context builder for the method, or the
/// library's error.
pub assume_specification[ SslContext::builder ](method: SslMethod) -> Result<SslContextBuilder, ErrorStack>;

/// Relies on `SslContextBuilder::set_verify`: sets the verification mode of
/// the sessions made from the context to the flags whose bits are `bits`.
#[verifier::external_body]
fn set_verify_bits(builder: &mut SslContextBuilder, bits: i32) {
    builder.set_verify(SslVerifyMode::from_bits_retain(bits))
}

/// Relies on `SslContextBuilder::build`: the finished context.
pub assume_specification[ SslContextBuilder::build ](builder: SslContextBuilder) -> SslContext;

/// Relies on `Ssl::new`: a client session that uses the context.
#[verifier::external_body]
fn session_of(context: &SslContext) -> Result<Ssl, ErrorStack> {
    Ssl::new(context)
}

/// Relies on `SslRef::set_hostname`: sets the name sent for Server Name
/// Indication. It panics on a name that holds a NUL character.
#[verifier::external_body]
fn set_server_name(ssl: &mut Ssl, hostname: &str) -> Result<(), ErrorStack>
    requires
        !hostname@.contains('\0'),
{
    ssl.set_hostname(hostname)
}

/// Relies on `SslRef::peer_certificate`: the leaf certificate that the peer
/// presented, if it presented one.
#[verifier::external_body]
fn peer_certificate(ssl: &SslRef) -> Option<X509> {
    ssl.peer_certificate()
}

/// Relies on `Asn1Time::days_from_now`, with no days added: the current time.
#[verifier::external_body]
fn time_now() -> Result<Asn1Time, ErrorStack> {
    Asn1Time::days_from_now(0)
}

/// Relies on `X509Ref::not_after`: the certificate's "not valid after" time.
#[verifier::external_body]
fn not_after(cert: &X509) -> &Asn1TimeRef {
    cert.not_after()
}

/// Relies on `Asn1TimeRef::diff`, which is `ASN1_TIME_diff`: the time from
/// `from` to `to` as whole days and seconds, where the seconds are always
/// less than one day and never of the opposite sign to the days.
#[verifier::external_body]
fn time_diff(from: &Asn1Time, to: &Asn1TimeRef) -> (r: Result<(i32, i32), ErrorStack>)
    ensures
        r matches Ok(d) ==> is_time_diff(d.0 as int, d.1 as int),
{
    let d = from.diff(to)?;
    Ok((d.days, d.secs))
}

/// Relies on the `Display` impl of `ErrorStack`: the library's description
/// of the error.
#[verifier::external_body]
fn describe(e: &ErrorStack) -> String {
    e.to_string()
}

/// The library's error as a failure of the TLS stack.
fn tls_error(e: ErrorStack) -> (r: Error)
    ensures
        r is Tls,
{
    Error::Tls(describe(&e))
}

/// The address to connect to for a domain: the domain with the HTTPS port,
/// as in `example.com:443`.
pub fn https_target(domain: &str) -> (r: String)
    ensures
        r@ == domain@ + ":443"@,
{
    String::from_str(domain).concat(":443")
}

/// The verification mode flags that ask for no verification of the peer's
/// certificate (`SSL_VERIFY_NONE`).
pub const VERIFY_NONE: i32 = 0;

/// A TLS client session that has not yet run its handshake, with the
/// verification mode and the Server Name Indication name it was set up with.
pub struct TlsSession {
    ssl: Ssl,
    verify_mode: Ghost<i32>,
    server_name: Ghost<Seq<char>>,
}

impl TlsSession {
    /// The bits of the verification mode that the session was given.
    pub closed spec fn verify_mode(&self) -> i32 {
        self.verify_mode@
    }

    /// The name that the session sends for Server Name Indication.
    pub closed spec fn server_name(&self) -> Seq<char> {
        self.server_name@
    }

    /// Whether the session verifies the peer's certificate: any mode but
    /// `VERIFY_NONE` does.
    pub open spec fn verifies_peer(&self) -> bool {
        self.verify_mode() != VERIFY_NONE
    }

    /// The session itself, to run the handshake on a transport stream.
    pub fn into_ssl(self) -> Ssl {
        self.ssl
    }
}

/// A client session for `hostname`, ready for a handshake: it asks for the
/// highest TLS version both sides support, does not verify the peer's
/// certificate, so that an expired, self-signed or mismatched one can still
/// be read, and sends `hostname` for Server Name Indication. Every failure is
/// one of the TLS stack.
pub fn new_session(hostname: &str) -> (r: Result<TlsSession, Error>)
    requires
        !hostname@.contains('\0'),
    ensures
        r matches Ok(s) ==> !s.verifies_peer() && s.server_name() == hostname@,
        r matches Err(e) ==> e is Tls,
{
    let mut builder = match SslContext::builder(SslMethod::tls()) {
        Ok(b) => b,
        Err(e) => return Err(tls_error(e)),
    };
    let mode: i32 = VERIFY_NONE;
    set_verify_bits(&mut builder, mode);
    let context = builder.build();
    let mut ssl = match session_of(&context) {
        Ok(s) => s,
        Err(e) => return Err(tls_error(e)),
    };
    match set_server_name(&mut ssl, hostname) {
        Ok(()) => Ok(TlsSession {
            ssl,
            verify_mode: Ghost(mode),
            server_name: Ghost(hostname@),
        }),
        Err(e) => Err(tls_error(e)),
    }
}

/// How far `cert` is from its expiration instant, measured now. The offset is
/// a time difference of whole days plus less than one day of seconds, the two
/// never of opposite signs. Every failure is one of the TLS stack.
pub fn certificate_expiration(cert: &X509) -> (r: Result<SslExpiration, Error>)
    ensures
        r matches Err(e) ==> e is Tls,
        r matches Ok(x) ==> exists|days: i32, secs: i32|
            is_time_diff(days as int, secs as int) && x@ == diff_secs(days as int, secs as int),
{
    let now = match time_now() {
        Ok(t) => t,
        Err(e) => return Err(tls_error(e)),
    };
    match time_diff(&now, not_after(cert)) {
        Ok((days, secs)) => Ok(SslExpiration::from_time_diff(days, secs)),
        Err(e) => Err(tls_error(e)),
    }
}

/// How far the peer's certificate, if any, is from its expiration instant:
/// `CertificateNotFound` exactly when there is none, else the outcome of
/// `certificate_expiration`.
pub fn peer_expiration(peer: Option<X509>) -> (r: Result<SslExpiration, Error>)
    ensures
        peer is None <==> (r matches Err(e) && e is CertificateNotFound),
        peer is Some ==> (r matches Err(e) ==> e is Tls),
        r matches Ok(x) ==> exists|days: i32, secs: i32|
            is_time_diff(days as int, secs as int) && x@ == diff_secs(days as int, secs as int),
{
    match peer {
        None => Err(Error::CertificateNotFound),
        Some(cert) => certificate_expiration(&cert),
    }
}

/// How far the leaf certificate that the peer presented in the completed
/// handshake of `ssl` is from its expiration instant.
pub fn session_expiration(ssl: &SslRef) -> (r: Result<SslExpiration, Error>)
    ensures
        r matches Err(e) ==> (e is Tls || e is CertificateNotFound),
        r matches Ok(x) ==> exists|days: i32, secs: i32|
            is_time_diff(days as int, secs as int) && x@ == diff_secs(days as int, secs as int),
{
    peer_expiration(peer_certificate(ssl))
}

} // verus!
