use openssl::asn1::Asn1Time;
use openssl::ec::{EcGroup, EcKey};
use openssl::error::ErrorStack;
use openssl::hash::MessageDigest;
use openssl::nid::Nid;
use openssl::pkey::{PKey, Private};
use openssl::ssl::{SslAcceptor, SslMethod};
use openssl::x509::{X509NameBuilder, X509};

use razer::connections::{Endpoint, Registry};
use razer::event::handler::EventHandler;
use razer::listener::{ConfigError, Launch, Lister, Phase, Server, DEFAULT_PORT};

struct Quiet;

impl EventHandler for Quiet {}

fn fresh_key() -> PKey<Private> {
    let group = EcGroup::from_curve_name(Nid::X9_62_PRIME256V1).unwrap();
    PKey::from_ec_key(EcKey::generate(&group).unwrap()).unwrap()
}

fn self_signed(key: &PKey<Private>) -> X509 {
    let mut name = X509NameBuilder::new().unwrap();
    name.append_entry_by_text("CN", "localhost").unwrap();
    let name = name.build();
    let mut builder = X509::builder().unwrap();
    builder.set_version(2).unwrap();
    builder.set_subject_name(&name).unwrap();
    builder.set_issuer_name(&name).unwrap();
    builder.set_pubkey(key).unwrap();
    builder.set_not_before(&Asn1Time::days_from_now(0).unwrap()).unwrap();
    builder.set_not_after(&Asn1Time::days_from_now(30).unwrap()).unwrap();
    builder.sign(key, MessageDigest::sha256()).unwrap();
    builder.build()
}

fn key_and_cert_pem() -> (Vec<u8>, Vec<u8>) {
    let key = fresh_key();
    let cert = self_signed(&key);
    (key.private_key_to_pem_pkcs8().unwrap(), cert.to_pem().unwrap())
}

#[test]
fn default_port_is_2794() {
    assert_eq!(DEFAULT_PORT, 2794);
    assert_eq!(Lister::new().port(), 2794);
}

#[test]
fn new_listener_has_neither_key_nor_cert() {
    let lister = Lister::new();
    assert!(!lister.has_key());
    assert!(!lister.has_cert());
}

#[test]
fn plain_listener_starts_in_the_clear() {
    match Lister::new().start() {
        Ok(Launch::Plain { port }) => assert_eq!(port, 2794),
        _ => panic!("a listener without key and certificate runs in the clear"),
    }
}

#[test]
fn listener_binds_every_interface_on_its_port() {
    assert_eq!(Lister::new().start().unwrap().address(), "0.0.0.0:2794");
}

#[test]
fn address_spells_the_port_in_decimal() {
    let acceptor = SslAcceptor::mozilla_intermediate(SslMethod::tls()).unwrap().build();
    for port in [0u16, 7, 10, 80, 443, 1000, 8080, 40000, 65535] {
        let launch = Launch::encrypted(port, Ok(acceptor.clone())).unwrap();
        assert_eq!(launch.address(), format!("0.0.0.0:{}", port));
    }
    let launch = Launch::Plain { port: 9 };
    assert_eq!(launch.address(), "0.0.0.0:9");
}

#[test]
fn plain_launch_is_not_encrypted() {
    let launch = Lister::new().start().unwrap();
    assert!(!launch.is_encrypted());
    assert_eq!(launch.port(), 2794);
}

#[test]
fn key_without_certificate_does_not_start() {
    let (key, _) = key_and_cert_pem();
    let lister = Lister::new().with_key(&key).unwrap();
    assert!(lister.has_key());
    assert!(!lister.has_cert());
    assert_eq!(lister.start().err(), Some(ConfigError::KeyWithoutCertificate));
}

#[test]
fn certificate_without_key_does_not_start() {
    let (_, cert) = key_and_cert_pem();
    let lister = Lister::new().with_cert(&cert).unwrap();
    assert!(lister.has_cert());
    assert!(!lister.has_key());
    assert_eq!(lister.start().err(), Some(ConfigError::CertificateWithoutKey));
}

#[test]
fn key_and_certificate_start_encrypted() {
    let (key, cert) = key_and_cert_pem();
    let lister = Lister::new().with_cert(&cert).unwrap().with_key(&key).unwrap();
    assert!(lister.has_cert());
    assert!(lister.has_key());
    let launch = lister.start().unwrap();
    assert!(launch.is_encrypted());
    assert_eq!(launch.port(), 2794);
}

#[test]
fn encrypted_launch_presents_the_given_certificate() {
    let (key, cert) = key_and_cert_pem();
    let lister = Lister::new().with_key(&key).unwrap().with_cert(&cert).unwrap();
    match lister.start() {
        Ok(Launch::Encrypted { port, acceptor }) => {
            assert_eq!(port, 2794);
            let presented = acceptor.context().certificate().unwrap().to_pem().unwrap();
            assert_eq!(presented, cert);
        }
        _ => panic!("a listener with key and certificate runs encrypted"),
    }
}

#[test]
fn the_certificate_given_last_is_the_one_presented() {
    let (key, cert) = key_and_cert_pem();
    let (_, earlier) = key_and_cert_pem();
    let lister = Lister::new()
        .with_cert(&earlier)
        .unwrap()
        .with_key(&key)
        .unwrap()
        .with_cert(&cert)
        .unwrap();
    match lister.start() {
        Ok(Launch::Encrypted { acceptor, .. }) => {
            let presented = acceptor.context().certificate().unwrap().to_pem().unwrap();
            assert_eq!(presented, cert);
        }
        _ => panic!("a listener with key and certificate runs encrypted"),
    }
}

#[test]
fn the_order_of_key_and_certificate_does_not_matter() {
    let (key, cert) = key_and_cert_pem();
    let lister = Lister::new().with_key(&key).unwrap().with_cert(&cert).unwrap();
    assert!(lister.has_cert());
    assert!(lister.has_key());
    assert!(lister.start().unwrap().is_encrypted());
}

#[test]
fn settings_are_not_changed_in_place() {
    let (key, _) = key_and_cert_pem();
    let plain = Lister::new();
    let keyed = plain.with_key(&key).unwrap();
    assert!(!plain.has_key());
    assert!(keyed.has_key());
    assert_eq!(keyed.port(), plain.port());
}

#[test]
fn acceptor_that_could_not_be_set_up_is_rejected() {
    let launch = Launch::encrypted(2794, Err(ErrorStack::get()));
    assert_eq!(launch.err(), Some(ConfigError::Rejected));
}

#[test]
fn acceptor_that_was_set_up_gives_an_encrypted_launch() {
    let acceptor = SslAcceptor::mozilla_intermediate(SslMethod::tls()).unwrap().build();
    let launch = Launch::encrypted(8443, Ok(acceptor)).unwrap();
    assert!(launch.is_encrypted());
    assert_eq!(launch.port(), 8443);
}

#[test]
fn key_that_was_not_read_is_a_bad_key() {
    let (_, cert) = key_and_cert_pem();
    let lister = Lister::new().with_cert(&cert).unwrap();
    assert_eq!(lister.keyed(Err(ErrorStack::get())).err(), Some(ConfigError::BadKey));
    let keyed = lister.keyed(Ok(fresh_key())).unwrap();
    assert!(keyed.has_key());
    assert!(keyed.has_cert());
}

#[test]
fn certificate_that_was_not_read_is_a_bad_certificate() {
    let (key, _) = key_and_cert_pem();
    let lister = Lister::new().with_key(&key).unwrap();
    assert_eq!(
        lister.certified(Err(ErrorStack::get())).err(),
        Some(ConfigError::BadCertificate)
    );
    let certified = lister.certified(Ok(self_signed(&fresh_key()))).unwrap();
    assert!(certified.has_key());
    assert!(certified.has_cert());
}

#[test]
fn text_that_is_no_key_is_refused() {
    assert_eq!(Lister::new().with_key(b"not a key").err(), Some(ConfigError::BadKey));
    assert_eq!(Lister::new().with_key(b"").err(), Some(ConfigError::BadKey));
}

#[test]
fn text_that_is_no_certificate_is_refused() {
    assert_eq!(
        Lister::new().with_cert(b"not a certificate").err(),
        Some(ConfigError::BadCertificate)
    );
    let (key, _) = key_and_cert_pem();
    assert_eq!(Lister::new().with_cert(&key).err(), Some(ConfigError::BadCertificate));
}

#[test]
fn certificate_is_no_key() {
    let (_, cert) = key_and_cert_pem();
    assert_eq!(Lister::new().with_key(&cert).err(), Some(ConfigError::BadKey));
}

#[test]
fn connection_is_registered_when_it_opens() {
    let mut registry = Registry::new();
    let out = Endpoint { token: 1, connection_id: 8 };
    let mut server = Server::new(out, Quiet);
    assert_eq!(server.phase(), Phase::Connecting);
    assert_eq!(server.out(), out);
    assert!(registry.is_closed(1));
    server.on_open(&mut registry);
    assert_eq!(server.phase(), Phase::Open);
    assert_eq!(registry.resolve(1), Some(out));
}

#[test]
fn connection_is_deregistered_when_it_closes() {
    let mut registry = Registry::new();
    let mut server = Server::new(Endpoint { token: 1, connection_id: 8 }, Quiet);
    server.on_open(&mut registry);
    server.on_close(&mut registry);
    assert_eq!(server.phase(), Phase::Closed);
    assert!(registry.is_closed(1));
    assert_eq!(registry.len(), 0);
}

#[test]
fn connection_that_never_opened_leaves_the_registry_alone() {
    let mut registry = Registry::new();
    registry.register(Endpoint { token: 1, connection_id: 3 });
    let mut server = Server::new(Endpoint { token: 1, connection_id: 4 }, Quiet);
    server.on_close(&mut registry);
    assert_eq!(server.phase(), Phase::Closed);
    assert_eq!(registry.resolve(1), Some(Endpoint { token: 1, connection_id: 3 }));
}

#[test]
fn closed_connection_is_deregistered_once() {
    let mut registry = Registry::new();
    let mut first = Server::new(Endpoint { token: 1, connection_id: 3 }, Quiet);
    first.on_open(&mut registry);
    first.on_close(&mut registry);
    let mut second = Server::new(Endpoint { token: 1, connection_id: 4 }, Quiet);
    second.on_open(&mut registry);
    first.on_close(&mut registry);
    assert_eq!(registry.resolve(1), Some(Endpoint { token: 1, connection_id: 4 }));
    assert_eq!(first.phase(), Phase::Closed);
}

#[test]
fn closed_connection_does_not_open_again() {
    let mut registry = Registry::new();
    let mut server = Server::new(Endpoint { token: 1, connection_id: 3 }, Quiet);
    server.on_open(&mut registry);
    server.on_close(&mut registry);
    server.on_open(&mut registry);
    assert_eq!(server.phase(), Phase::Closed);
    assert!(registry.is_closed(1));
}
