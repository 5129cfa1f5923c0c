use multikey::{KeyTag, KeyType, Keypair, Network};
use rand::rngs::OsRng;

fn bytes_roundtrip(key_tag: KeyTag) {
    let keypair = Keypair::generate(key_tag, &mut OsRng);
    let bytes = keypair.to_vec();
    assert_eq!(keypair, Keypair::try_from(&bytes[..]).expect("keypair"));
    assert_eq!(keypair.key_tag(), key_tag);
}

fn sign_test_tag(key_tag: KeyTag) {
    let keypair = Keypair::generate(key_tag, &mut OsRng);
    sign_test_keypair(&keypair);
}

fn sign_test_keypair(key_pair: &Keypair) {
    let signature = key_pair.sign(b"hello world").expect("signature");
    assert!(key_pair
        .public_key()
        .verify(b"hello world", &signature)
        .is_ok())
}

fn ecdh_test_tag(key_tag: KeyTag) {
    let keypair = Keypair::generate(key_tag, &mut OsRng);
    ecdh_test_keypair(&keypair);
}

fn ecdh_test_keypair(key_pair: &Keypair) {
    let other = Keypair::generate(key_pair.key_tag(), &mut OsRng);
    let keypair_shared = key_pair
        .ecdh(other.public_key())
        .expect("keypair shared secret");
    let other_shared = other
        .ecdh(key_pair.public_key())
        .expect("other shared secret");
    assert_eq!(keypair_shared.as_bytes(), other_shared.as_bytes());
}

#[test]
fn bytes_roundtrip_ed25519() {
    bytes_roundtrip(KeyTag {
        network: Network::MainNet,
        key_type: KeyType::Ed25519,
    });
    bytes_roundtrip(KeyTag {
        network: Network::TestNet,
        key_type: KeyType::Ed25519,
    })
}

#[test]
fn bytes_roundtrip_ecc_compact() {
    bytes_roundtrip(KeyTag {
        network: Network::MainNet,
        key_type: KeyType::EccCompact,
    });
    bytes_roundtrip(KeyTag {
        network: Network::TestNet,
        key_type: KeyType::EccCompact,
    });
}

#[test]
fn sign_ed25519() {
    sign_test_tag(KeyTag {
        network: Network::MainNet,
        key_type: KeyType::Ed25519,
    });
}

#[test]
fn sign_ecc_compact() {
    sign_test_tag(KeyTag {
        network: Network::MainNet,
        key_type: KeyType::EccCompact,
    });
}

#[test]
fn ecdh_ecc_compact() {
    ecdh_test_tag(KeyTag {
        network: Network::MainNet,
        key_type: KeyType::EccCompact,
    });
}
