use dns::certs::{material_source, resolve_material, MaterialSource};
use dns::listener::{
    configured_transports, has_server, registered_transports, TransportKind,
    DEFAULT_DNS_SERVER_TIMEOUT_SECS,
};
use std::io::{Error, ErrorKind};

fn fail(msg: &str) -> Error {
    Error::new(ErrorKind::NotFound, msg.to_string())
}

#[test]
fn custom_key_and_cert_are_used() {
    let r = resolve_material(Some(Ok("my-key")), Some(Ok("my-cert")), "def-key", "def-cert");
    assert_eq!(r.unwrap(), ("my-cert", "my-key"));
}

#[test]
fn defaults_when_nothing_configured() {
    let r = resolve_material::<&str, &str>(None, None, "def-key", "def-cert");
    assert_eq!(r.unwrap(), ("def-cert", "def-key"));
}

#[test]
fn key_and_cert_fall_back_independently() {
    let r = resolve_material(None, Some(Ok("my-cert")), "def-key", "def-cert");
    assert_eq!(r.unwrap(), ("my-cert", "def-key"));
    let r = resolve_material(Some(Ok("my-key")), None, "def-key", "def-cert");
    assert_eq!(r.unwrap(), ("def-cert", "my-key"));
}

#[test]
fn bad_custom_key_does_not_fall_back() {
    let r = resolve_material::<&str, &str>(Some(Err(fail("key"))), None, "def-key", "def-cert");
    assert_eq!(r.unwrap_err().to_string(), "key");
    let r = resolve_material(Some(Err(fail("key"))), Some(Err(fail("cert"))), "k", "c");
    assert_eq!(r.unwrap_err().to_string(), "key");
}

#[test]
fn bad_custom_cert_does_not_fall_back() {
    let r = resolve_material(Some(Ok("my-key")), Some(Err(fail("cert"))), "def-key", "def-cert");
    assert_eq!(r.unwrap_err().to_string(), "cert");
}

#[test]
fn material_source_follows_configuration() {
    assert_eq!(material_source(&None), MaterialSource::Default);
    assert_eq!(
        material_source(&Some("certs/key.pem".to_string())),
        MaterialSource::Custom("certs/key.pem".to_string())
    );
}

#[test]
fn transports_start_in_fixed_order() {
    let all = configured_transports(true, true, true, true, true);
    assert_eq!(
        all,
        vec![
            TransportKind::Udp,
            TransportKind::Tcp,
            TransportKind::Dot,
            TransportKind::Doh,
            TransportKind::Doh3
        ]
    );
    assert_eq!(configured_transports(false, false, true, false, true), vec![
        TransportKind::Dot,
        TransportKind::Doh3
    ]);
}

#[test]
fn no_transports_means_no_server() {
    assert!(configured_transports(false, false, false, false, false).is_empty());
    assert!(!has_server(&vec![]));
}

#[test]
fn failed_dot_does_not_stop_udp() {
    let outcomes = vec![(TransportKind::Udp, true), (TransportKind::Dot, false)];
    assert_eq!(registered_transports(&outcomes), vec![TransportKind::Udp]);
    assert!(has_server(&outcomes));
}

#[test]
fn all_failed_means_no_server() {
    let outcomes = vec![(TransportKind::Tcp, false), (TransportKind::Doh, false)];
    assert!(registered_transports(&outcomes).is_empty());
    assert!(!has_server(&outcomes));
}

#[test]
fn stream_timeout_is_five_seconds() {
    assert_eq!(DEFAULT_DNS_SERVER_TIMEOUT_SECS, 5);
}
