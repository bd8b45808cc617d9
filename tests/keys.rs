use aws_lc_rs::aead::{Aad, LessSafeKey, Nonce, UnboundKey, AES_128_GCM};
use aws_lc_rs::hkdf::{Prk, HKDF_SHA256};
use recv_fault::schedule::hkdf_label;
use recv_fault::{
    EncryptionLevel, Error, HandshakeKey, InitialKey, OneRttKey, PacketKey, RetryKey, SecretPair, Suite,
};

fn hex(s: &str) -> Vec<u8> {
    (0..s.len())
        .step_by(2)
        .map(|i| u8::from_str_radix(&s[i..i + 2], 16).unwrap())
        .collect()
}

// the client Initial secret of the worked example in RFC 9001, appendix A.1
fn client_initial_secret() -> Prk {
    Prk::new_less_safe(
        HKDF_SHA256,
        &hex("c00cf151ca5be075ed0ebfb5c80323c42d6b7db67881289af4008f1f6c357aea"),
    )
}

#[test]
fn expansion_labels() {
    assert_eq!(
        hkdf_label(b"quic key", 16),
        hex("00100e746c7331332071756963206b657900")
    );
    assert_eq!(hkdf_label(b"quic iv", 12), hex("000c0d746c733133207175696320697600"));
    assert_eq!(hkdf_label(b"quic hp", 16), hex("00100d746c733133207175696320687000"));
    assert_eq!(hkdf_label(b"", 0x0102), vec![0x01, 0x02, 6, 0x74, 0x6c, 0x73, 0x31, 0x33, 0x20, 0]);
}

#[test]
fn packet_nonce_from_derived_iv() {
    let key = PacketKey::new(client_initial_secret());
    // the IV is fa044b2f42a3fd3b46fb255c; packet number 2 flips its last byte
    assert_eq!(key.nonce(2), hex("fa044b2f42a3fd3b46fb255e"));
    assert_eq!(key.nonce(0), hex("fa044b2f42a3fd3b46fb255c"));
    assert_eq!(
        recv_fault::keys::packet_nonce(&[0u8; 12], 0x0102030405060708),
        vec![0, 0, 0, 0, 1, 2, 3, 4, 5, 6, 7, 8]
    );
}

#[test]
fn header_protection_vector() {
    let key = InitialKey::new(client_initial_secret());
    let sample = hex("d1b1c98dd7689fb8ec11d242b123dc9b");
    let mut pn = hex("00000002");
    let first = key.packet_key().protect_header(0xc3, &mut pn, &sample).unwrap();
    assert_eq!(first, 0xc0);
    assert_eq!(pn, hex("7b9aec34"));

    let mut pn = hex("7b9aec34");
    let plain = key.packet_key().unprotect_header(0xc0, &mut pn, &sample).unwrap();
    assert_eq!(plain, 0xc3);
    assert_eq!(pn, hex("00000002"));
}

#[test]
fn header_protection_rejects_short_sample() {
    let key = InitialKey::new(client_initial_secret());
    let mut pn = hex("0002");
    assert_eq!(key.packet_key().protect_header(0x41, &mut pn, &[1, 2, 3]), None);
    assert_eq!(pn, hex("0002"));
    let mut pn = hex("00000002");
    assert_eq!(key.packet_key().unprotect_header(0xc0, &mut pn, &[0u8; 15]), None);
    assert_eq!(pn, hex("00000002"));
    assert!(key.packet_key().protect_header(0x41, &mut pn, &[0u8; 16]).is_some());
}

#[test]
fn seal_then_open() {
    let key = HandshakeKey::new(client_initial_secret());
    let header = [0xc3u8, 0, 0, 0, 1];
    let sealed = key.packet_key().seal(7, &header, b"hello".to_vec());
    assert_eq!(sealed.len(), 5 + 16);
    assert_ne!(&sealed[..5], b"hello");
    let opened = key.packet_key().open(7, &header, sealed.clone()).unwrap();
    assert_eq!(opened, b"hello".to_vec());

    let mut tampered = sealed.clone();
    tampered[0] ^= 1;
    assert_eq!(key.packet_key().open(7, &header, tampered), Err(Error::Decrypt));
    assert_eq!(key.packet_key().open(8, &header, sealed.clone()), Err(Error::Decrypt));
    assert_eq!(key.packet_key().open(7, &header, vec![1, 2, 3]), Err(Error::Decrypt));
}

#[test]
fn retry_integrity_tag_vector() {
    // RFC 9001, appendix A.4: the original destination connection ID, then
    // the Retry packet without its tag
    let mut pseudo = hex("088394c8f03e515708");
    pseudo.extend(hex("ff000000010008f067a5502a4262b5746f6b656e"));
    let key = RetryKey::new();
    assert_eq!(
        key.integrity_tag(&pseudo),
        hex("04a265ba2eff4d829058fb3f0f2496ba")
    );
}

#[test]
fn secrets_and_levels() {
    let pair = SecretPair {
        server: client_initial_secret(),
        client: client_initial_secret(),
    };
    let client = InitialKey::new(pair.client);
    assert_eq!(client.packet_key().nonce(0), hex("fa044b2f42a3fd3b46fb255c"));
    let server = OneRttKey::new(pair.server);
    assert_eq!(server.packet_key().nonce(1), hex("fa044b2f42a3fd3b46fb255d"));
    assert!(EncryptionLevel::Initial.precedes(&EncryptionLevel::Handshake));
    assert!(EncryptionLevel::ZeroRtt.precedes(&EncryptionLevel::OneRtt));
    assert!(!EncryptionLevel::OneRtt.precedes(&EncryptionLevel::Initial));
    assert!(!EncryptionLevel::Handshake.precedes(&EncryptionLevel::Handshake));
    assert_eq!(EncryptionLevel::Retry.rank(), 4);
    assert!(Suite::derives_from_secret(EncryptionLevel::OneRtt));
    assert!(!Suite::derives_from_secret(EncryptionLevel::Retry));
}

#[test]
fn derived_body_key_matches_published_key() {
    let key = PacketKey::new(client_initial_secret());
    let header = [0xc3u8, 0, 0, 0, 2];
    let sealed = key.seal(2, &header, b"initial".to_vec());
    // the client Initial key of RFC 9001, appendix A.1
    let published = LessSafeKey::new(
        UnboundKey::new(&AES_128_GCM, &hex("1f369613dd76d5467730efcbe3b1a22d")).unwrap(),
    );
    let nonce = Nonce::try_assume_unique_for_key(&hex("fa044b2f42a3fd3b46fb255e")).unwrap();
    let mut data = sealed;
    let plain = published
        .open_in_place(nonce, Aad::from(&header[..]), &mut data)
        .unwrap();
    assert_eq!(plain, b"initial");
}

#[test]
fn cloned_secret_pair_derives_same_keys() {
    let pair = SecretPair {
        server: client_initial_secret(),
        client: client_initial_secret(),
    };
    let copy = pair.clone();
    assert_eq!(
        InitialKey::new(pair.client).packet_key().nonce(3),
        InitialKey::new(copy.client).packet_key().nonce(3)
    );
}
