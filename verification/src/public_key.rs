//! The sum type over the public halves of all supported backends.

use vstd::prelude::*;
use crate::ecc_compact;
use crate::ed25519;
use crate::error::Error;
use crate::key_tag::{KeyTag, KeyType, Network};

verus! {

/// The public half of a keypair, one variant per backend.
#[derive(Debug)]
pub enum PublicKey {
    Ed25519(ed25519::PublicKey),
    EccCompact(ecc_compact::PublicKey),
}

/// Whether a signature over a message is accepted by the backend a public
/// key belongs to.
pub open spec fn spec_verify_ok(pk: PublicKey, msg: Seq<u8>, sig: Seq<u8>) -> bool {
    match pk {
        PublicKey::Ed25519(p) => ed25519::ed25519_verify_ok(p.spec_bytes(), msg, sig),
        PublicKey::EccCompact(p) => ecc_compact::p256_verify_ok(p.spec_bytes(), msg, sig),
    }
}

impl PublicKey {
    /// The network this key belongs to.
    pub open spec fn spec_network(&self) -> Network {
        match self {
            PublicKey::Ed25519(p) => p.spec_network(),
            PublicKey::EccCompact(p) => p.spec_network(),
        }
    }

    /// The tag naming this key's network and key type.
    pub open spec fn spec_key_tag(&self) -> KeyTag {
        match self {
            PublicKey::Ed25519(p) => KeyTag {
                network: p.spec_network(),
                key_type: KeyType::Ed25519,
            },
            PublicKey::EccCompact(p) => KeyTag {
                network: p.spec_network(),
                key_type: KeyType::EccCompact,
            },
        }
    }

    /// The tag naming this key's network and key type.
    pub fn key_tag(&self) -> (r: KeyTag)
        ensures
            r == self.spec_key_tag(),
    {
        match self {
            PublicKey::Ed25519(p) => KeyTag { network: p.network(), key_type: KeyType::Ed25519 },
            PublicKey::EccCompact(p) => KeyTag {
                network: p.network(),
                key_type: KeyType::EccCompact,
            },
        }
    }

    /// Check a signature over a message against this public key, routing
    /// to the backend the key belongs to.
    pub fn verify(&self, msg: &[u8], signature: &[u8]) -> (r: Result<(), Error>)
        ensures
            r is Ok <==> spec_verify_ok(*self, msg@, signature@),
            r is Err ==> r == Err::<(), Error>(Error::InvalidSignature),
    {
        match self {
            PublicKey::Ed25519(p) => p.verify(msg, signature),
            PublicKey::EccCompact(p) => p.verify(msg, signature),
        }
    }
}

} // verus!
