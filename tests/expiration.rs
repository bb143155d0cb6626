use openssl::asn1::Asn1Time;
use openssl::ssl::{NameType, SslVerifyMode};
use openssl::x509::X509;
use ssl_expiration::tls::{certificate_expiration, https_target, new_session, peer_expiration};
use ssl_expiration::{Error, SslExpiration};

fn certificate_expiring_at(not_after: &Asn1Time) -> X509 {
    let mut builder = X509::builder().unwrap();
    builder.set_not_after(not_after).unwrap();
    builder.build()
}

#[test]
fn days_truncate_toward_zero() {
    let table: [(i32, i32, i64, i64); 9] = [
        (0, 0, 0, 0),
        (0, 1, 1, 0),
        (0, 86399, 86399, 0),
        (1, 0, 86400, 1),
        (1, 1, 86401, 1),
        (0, -1, -1, 0),
        (0, -86399, -86399, 0),
        (-1, 0, -86400, -1),
        (-1, -1, -86401, -1),
    ];
    for (days, secs, total, whole_days) in table {
        let e = SslExpiration::from_time_diff(days, secs);
        assert_eq!(e.secs(), total);
        assert_eq!(e.days(), whole_days);
    }
}

#[test]
fn offset_adds_days_and_seconds() {
    let e = SslExpiration::from_time_diff(90, 3600);
    assert_eq!(e.secs(), 90 * 86400 + 3600);
    assert_eq!(e.days(), 90);
    let e = SslExpiration::from_time_diff(-3, -7200);
    assert_eq!(e.secs(), -3 * 86400 - 7200);
    assert_eq!(e.days(), -3);
}

#[test]
fn offset_does_not_overflow_at_extreme_days() {
    let e = SslExpiration::from_time_diff(i32::MAX, 86399);
    assert_eq!(e.secs(), i32::MAX as i64 * 86400 + 86399);
    assert_eq!(e.days(), i32::MAX as i64);
    assert!(!e.is_expired());
    let e = SslExpiration::from_time_diff(i32::MIN, -86399);
    assert_eq!(e.secs(), i32::MIN as i64 * 86400 - 86399);
    assert_eq!(e.days(), i32::MIN as i64);
    assert!(e.is_expired());
}

#[test]
fn zero_offset_is_not_expired() {
    let e = SslExpiration::from_time_diff(0, 0);
    assert_eq!(e.secs(), 0);
    assert!(!e.is_expired());
}

#[test]
fn expired_exactly_when_negative() {
    assert!(SslExpiration::from_time_diff(0, -1).is_expired());
    assert!(SslExpiration::from_time_diff(-1, 0).is_expired());
    assert!(!SslExpiration::from_time_diff(0, 1).is_expired());
    assert!(!SslExpiration::from_time_diff(1, 0).is_expired());
}

#[test]
fn unexpired_certificate_has_positive_offset() {
    let cert = certificate_expiring_at(&Asn1Time::days_from_now(30).unwrap());
    let e = certificate_expiration(&cert).unwrap();
    assert!(!e.is_expired());
    assert!(e.secs() > 86400);
    assert!(e.secs() <= 30 * 86400);
    assert!(e.days() == 29 || e.days() == 30);
}

#[test]
fn expired_certificate_has_negative_offset() {
    // 2001-09-09T01:46:40Z
    let cert = certificate_expiring_at(&Asn1Time::from_unix(1_000_000_000).unwrap());
    let e = certificate_expiration(&cert).unwrap();
    assert!(e.is_expired());
    assert!(e.secs() < 0);
    assert!(e.days() < -365);
}

#[test]
fn missing_peer_certificate_is_reported() {
    assert!(matches!(peer_expiration(None), Err(Error::CertificateNotFound)));
}

#[test]
fn present_peer_certificate_is_measured() {
    let cert = certificate_expiring_at(&Asn1Time::days_from_now(2).unwrap());
    let e = peer_expiration(Some(cert)).unwrap();
    assert!(!e.is_expired());
    assert!(e.days() == 1 || e.days() == 2);
}

#[test]
fn session_builds_for_hostname() {
    assert!(new_session("example.com").is_ok());
}

#[test]
fn session_skips_verification_and_sends_server_name() {
    let ssl = new_session("example.com").unwrap().into_ssl();
    assert_eq!(ssl.verify_mode(), SslVerifyMode::NONE);
    assert_eq!(ssl.servername(NameType::HOST_NAME), Some("example.com"));
}

#[test]
fn target_appends_https_port() {
    assert_eq!(https_target("example.com"), "example.com:443");
    assert_eq!(https_target("127.0.0.1"), "127.0.0.1:443");
    assert_eq!(https_target(""), ":443");
}
