use multikey::{ecdh_pair, sign_and_verify, Error, KeyTag, KeyType, Keypair, Network};
use rand::rngs::OsRng;

fn hex_to_bytes(s: &str) -> Vec<u8> {
    fn nibble(c: u8) -> u8 {
        match c {
            b'0'..=b'9' => c - b'0',
            b'a'..=b'f' => c - b'a' + 10,
            b'A'..=b'F' => c - b'A' + 10,
            _ => panic!("not a hex digit"),
        }
    }
    let b = s.as_bytes();
    assert!(b.len() % 2 == 0);
    let mut out = Vec::new();
    let mut i = 0;
    while i < b.len() {
        out.push(nibble(b[i]) * 16 + nibble(b[i + 1]));
        i += 2;
    }
    out
}

fn main_ed25519() -> KeyTag {
    KeyTag {
        network: Network::MainNet,
        key_type: KeyType::Ed25519,
    }
}

fn main_ecc() -> KeyTag {
    KeyTag {
        network: Network::MainNet,
        key_type: KeyType::EccCompact,
    }
}

// Not every scalar's public point admits the compact encoding, so walk a
// deterministic sequence until the backend accepts one.
fn accepted_ecc_entropy() -> [u8; 32] {
    let mut entropy = [7u8; 32];
    for i in 0..=255u8 {
        entropy[31] = i;
        if Keypair::generate_from_entropy(main_ecc(), &entropy).is_ok() {
            return entropy;
        }
    }
    panic!("no accepted entropy found");
}

#[test]
fn tag_byte_values() {
    assert_eq!(main_ecc().to_byte(), 0x00);
    assert_eq!(main_ed25519().to_byte(), 0x01);
    assert_eq!(
        KeyTag {
            network: Network::TestNet,
            key_type: KeyType::EccCompact
        }
        .to_byte(),
        0x10
    );
    assert_eq!(
        KeyTag {
            network: Network::TestNet,
            key_type: KeyType::Ed25519
        }
        .to_byte(),
        0x11
    );
    for byte in [0x00u8, 0x01, 0x10, 0x11] {
        let tag = KeyTag::from_byte(byte).expect("valid tag byte");
        assert_eq!(tag.to_byte(), byte);
    }
    assert_eq!(KeyTag::from_byte(0x02), Err(Error::InvalidKeyType(0x02)));
}

#[test]
fn decode_unrecognized_tag() {
    let r = Keypair::try_from(&[0xFFu8][..]);
    assert_eq!(r.unwrap_err(), Error::InvalidKeyType(0xFF));
}

#[test]
fn decode_empty_input() {
    let r = Keypair::try_from(&[][..]);
    assert_eq!(r.unwrap_err(), Error::MissingKeyType);
}

#[test]
fn decode_wrong_length() {
    // A valid tag byte with a truncated body is rejected by the backend.
    let r = Keypair::try_from(&[0x01u8, 0x00][..]);
    assert_eq!(r.unwrap_err(), Error::InvalidKeyBytes);
    let r = Keypair::try_from(&[0x00u8][..]);
    assert_eq!(r.unwrap_err(), Error::InvalidKeyBytes);
}

#[test]
fn decode_inconsistent_ed25519_key() {
    // Corrupting the stored public half of a serialized Ed25519 key makes
    // it non-canonical, and decoding refuses it.
    let keypair = Keypair::generate(main_ed25519(), &mut OsRng);
    let mut bytes = keypair.to_vec();
    bytes[40] ^= 0x01;
    assert_eq!(
        Keypair::try_from(&bytes[..]).unwrap_err(),
        Error::InvalidKeyBytes
    );
}

#[test]
fn ecdh_ed25519_is_invalid_curve() {
    // Exchange is not a capability of the Ed25519 backend, whatever the
    // peer key is.
    let keypair = Keypair::generate(main_ed25519(), &mut OsRng);
    let ed_peer = Keypair::generate(main_ed25519(), &mut OsRng);
    let ecc_peer = Keypair::generate(main_ecc(), &mut OsRng);
    assert_eq!(
        keypair.ecdh(ed_peer.public_key()).unwrap_err(),
        Error::InvalidCurve
    );
    assert_eq!(
        keypair.ecdh(ecc_peer.public_key()).unwrap_err(),
        Error::InvalidCurve
    );
}

#[test]
fn ecdh_mismatched_peer_is_invalid_curve() {
    // An EccCompact keypair cannot exchange with an Ed25519 peer key.
    let keypair = Keypair::generate(main_ecc(), &mut OsRng);
    let ed_peer = Keypair::generate(main_ed25519(), &mut OsRng);
    assert_eq!(
        keypair.ecdh(ed_peer.public_key()).unwrap_err(),
        Error::InvalidCurve
    );
}

#[test]
fn shared_secret_is_32_bytes() {
    let a = Keypair::generate(main_ecc(), &mut OsRng);
    let b = Keypair::generate(main_ecc(), &mut OsRng);
    let shared = a.ecdh(b.public_key()).expect("shared secret");
    assert_eq!(shared.as_bytes().len(), 32);
    // The shared bytes are not simply either party's key material.
    assert_ne!(shared.as_bytes().to_vec(), a.secret_to_vec());
    assert_ne!(shared.as_bytes().to_vec(), b.secret_to_vec());
}

#[test]
fn entropy_determinism_ed25519() {
    let entropy = [7u8; 32];
    let a = Keypair::generate_from_entropy(main_ed25519(), &entropy).expect("keypair");
    let b = Keypair::generate_from_entropy(main_ed25519(), &entropy).expect("keypair");
    assert_eq!(a, b);
    assert_eq!(a.to_vec(), b.to_vec());
}

#[test]
fn entropy_determinism_ecc_compact() {
    let entropy = accepted_ecc_entropy();
    let a = Keypair::generate_from_entropy(main_ecc(), &entropy).expect("keypair");
    let b = Keypair::generate_from_entropy(main_ecc(), &entropy).expect("keypair");
    assert_eq!(a, b);
    assert_eq!(a.to_vec(), b.to_vec());
}

#[test]
fn entropy_rejected() {
    // Wrong length, for either backend.
    assert_eq!(
        Keypair::generate_from_entropy(main_ed25519(), &[1u8; 31]).unwrap_err(),
        Error::InvalidEntropy
    );
    assert_eq!(
        Keypair::generate_from_entropy(main_ecc(), &[1u8; 33]).unwrap_err(),
        Error::InvalidEntropy
    );
    // The all-zero seed is the one 32-byte seed Ed25519 refuses.
    assert_eq!(
        Keypair::generate_from_entropy(main_ed25519(), &[0u8; 32]).unwrap_err(),
        Error::InvalidEntropy
    );
    // 32 bytes above the curve order encode no P-256 scalar.
    assert_eq!(
        Keypair::generate_from_entropy(main_ecc(), &[0xFFu8; 32]).unwrap_err(),
        Error::InvalidEntropy
    );
}

#[test]
fn secret_rebuilds_keypair() {
    for tag in [main_ed25519(), main_ecc()] {
        let keypair = Keypair::generate(tag, &mut OsRng);
        let secret = keypair.secret_to_vec();
        let rebuilt = Keypair::generate_from_entropy(tag, &secret).expect("rebuilt");
        assert_eq!(keypair, rebuilt);
        assert_eq!(keypair.to_vec(), rebuilt.to_vec());
    }
}

#[test]
fn tampered_signature_rejected() {
    for tag in [main_ed25519(), main_ecc()] {
        let keypair = Keypair::generate(tag, &mut OsRng);
        let msg = b"a message to sign";
        let signature = keypair.sign(msg).expect("signature");
        assert!(keypair.public_key().verify(msg, &signature).is_ok());
        // One flipped signature byte fails verification.
        let mut bad_sig = signature.clone();
        bad_sig[3] ^= 0x01;
        assert_eq!(
            keypair.public_key().verify(msg, &bad_sig).unwrap_err(),
            Error::InvalidSignature
        );
        // One flipped message byte fails verification.
        let mut bad_msg = msg.to_vec();
        bad_msg[0] ^= 0x01;
        assert_eq!(
            keypair.public_key().verify(&bad_msg, &signature).unwrap_err(),
            Error::InvalidSignature
        );
    }
}

#[test]
fn foreign_signature_rejected() {
    let a = Keypair::generate(main_ed25519(), &mut OsRng);
    let b = Keypair::generate(main_ed25519(), &mut OsRng);
    let signature = a.sign(b"hello").expect("signature");
    assert_eq!(
        b.public_key().verify(b"hello", &signature).unwrap_err(),
        Error::InvalidSignature
    );
}

#[test]
fn ed25519_known_answer() {
    // The first test vector of the Ed25519 specification: from this seed
    // the backend must derive this public key, and signing the empty
    // message must give this signature.
    let seed = hex_to_bytes("9d61b19deffd5a60ba844af492ec2cc44449c5697b326919703bac031cae7f60");
    let expected_pk =
        hex_to_bytes("d75a980182b10ab7d54bfed3c964073a0ee172f3daa62325af021a68f707511a");
    let expected_sig = hex_to_bytes(
        "e5564300c360ac729086e2cc806e828a84877f1eb8e5d974d873e065224901555fb8821590a33bacc61e39701cf9b46bd25bf5f0595bbe24655141438e7a100b",
    );
    let keypair = Keypair::generate_from_entropy(main_ed25519(), &seed).expect("keypair");
    let bytes = keypair.to_vec();
    assert_eq!(bytes.len(), 65);
    assert_eq!(bytes[0], 0x01);
    assert_eq!(&bytes[1..33], &seed[..]);
    // The stored public half is derived, not the seed handed back.
    assert_eq!(&bytes[33..65], &expected_pk[..]);
    let signature = keypair.sign(b"").expect("signature");
    assert_eq!(signature, expected_sig);
    assert!(keypair.public_key().verify(b"", &signature).is_ok());
}

#[test]
fn sign_and_verify_law_holds() {
    for tag in [main_ed25519(), main_ecc()] {
        let keypair = Keypair::generate(tag, &mut OsRng);
        assert!(sign_and_verify(&keypair, b"any message at all").is_ok());
        assert!(sign_and_verify(&keypair, b"").is_ok());
    }
}

#[test]
fn ecdh_pair_law_holds() {
    let a = Keypair::generate(main_ecc(), &mut OsRng);
    let b = Keypair::generate(main_ecc(), &mut OsRng);
    let (s1, s2) = ecdh_pair(&a, &b).expect("shared secrets");
    assert_eq!(s1.as_bytes(), s2.as_bytes());
    let ed = Keypair::generate(main_ed25519(), &mut OsRng);
    assert_eq!(ecdh_pair(&a, &ed).unwrap_err(), Error::InvalidCurve);
    assert_eq!(ecdh_pair(&ed, &b).unwrap_err(), Error::InvalidCurve);
}

#[test]
fn ecc_compact_serialized_form() {
    // An EccCompact keypair serializes as its tag byte and secret scalar;
    // the public half is recomputed on decode and supports exchange.
    let entropy = accepted_ecc_entropy();
    let keypair = Keypair::generate_from_entropy(main_ecc(), &entropy).expect("keypair");
    let bytes = keypair.to_vec();
    assert_eq!(bytes.len(), 33);
    assert_eq!(bytes[0], 0x00);
    assert_eq!(&bytes[1..33], &entropy[..]);
    let decoded = Keypair::try_from(&bytes[..]).expect("decoded");
    let other = Keypair::generate(main_ecc(), &mut OsRng);
    let s1 = decoded.ecdh(other.public_key()).expect("shared");
    let s2 = other.ecdh(decoded.public_key()).expect("shared");
    assert_eq!(s1.as_bytes(), s2.as_bytes());
}
