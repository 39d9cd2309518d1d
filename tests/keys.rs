use kdeconnect::device::Device;
use kdeconnect::error::KdeConnectError;
use kdeconnect::keys::{bytes_less, verification_key};
use kdeconnect::packets::{DeviceType, Identity};
use sha2::Digest;

fn cert(name: &str) -> Vec<u8> {
    rcgen::generate_simple_self_signed(vec![name.to_string()]).unwrap().cert.der().to_vec()
}

fn spki(der: &[u8]) -> Vec<u8> {
    let (_, c) = x509_parser::parse_x509_certificate(der).unwrap();
    c.public_key().raw.to_vec()
}

#[test]
fn verification_key_is_symmetric() {
    let a = cert("a");
    let b = cert("b");
    let k1 = verification_key(&a, &b).unwrap();
    let k2 = verification_key(&b, &a).unwrap();
    assert_eq!(k1, k2);
    assert_eq!(k1.len(), 64);
    assert!(k1.chars().all(|c| c.is_ascii_hexdigit() && !c.is_ascii_uppercase()));
}

#[test]
fn verification_key_value() {
    let a = cert("a");
    let b = cert("b");
    let (ka, kb) = (spki(&a), spki(&b));
    let (first, second) = if ka < kb { (kb, ka) } else { (ka, kb) };
    let mut hasher = sha2::Sha256::new();
    hasher.update(&first);
    hasher.update(&second);
    let expected = hex::encode(hasher.finalize());
    assert_eq!(verification_key(&a, &b).unwrap(), expected);
}

#[test]
fn verification_key_bad_certificate() {
    let a = cert("a");
    assert_eq!(verification_key(&a, &[1, 2, 3]), Err(KdeConnectError::X509));
    assert_eq!(verification_key(&[], &a), Err(KdeConnectError::X509));
}

#[test]
fn session_verification_key() {
    let own = cert("me");
    let peer = cert("peer");
    let identity = Identity {
        device_id: "peer".to_string(),
        device_name: "Peer".to_string(),
        device_type: DeviceType::Tablet,
        incoming_capabilities: vec![],
        outgoing_capabilities: vec![],
        protocol_version: 7,
        tcp_port: None,
    };
    let d = Device::new(identity, None, peer.clone());
    assert_eq!(d.get_verification_key(&own).unwrap(), verification_key(&peer, &own).unwrap());
}

#[test]
fn byte_order() {
    assert!(bytes_less(&[1, 2], &[1, 3]));
    assert!(bytes_less(&[1], &[1, 0]));
    assert!(!bytes_less(&[1, 0], &[1]));
    assert!(!bytes_less(&[2], &[2]));
    assert!(!bytes_less(&[], &[]));
    assert!(bytes_less(&[], &[0]));
}
