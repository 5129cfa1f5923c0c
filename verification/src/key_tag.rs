//! The tagged (network, key type) pair that prefixes every serialized key.
//!
//! A [`KeyTag`] encodes to a single byte: the high nibble names the
//! [`Network`], the low nibble the [`KeyType`].  Encoding is total;
//! decoding is partial over the 256 possible byte values and fails with
//! [`Error::InvalidKeyType`](crate::Error::InvalidKeyType) on any byte
//! outside the small closed set of valid tags.

use vstd::prelude::*;
use crate::error::Error;

verus! {

/// The deployment network a key belongs to.
#[derive(Debug, Clone, Copy, PartialEq, Eq, Structural)]
pub enum Network {
    MainNet,
    TestNet,
}

/// The cryptographic algorithm family of a key.  Each variant maps to
/// exactly one backend implementation.
#[derive(Debug, Clone, Copy, PartialEq, Eq, Structural)]
pub enum KeyType {
    Ed25519,
    EccCompact,
}

/// The (network, key type) pair that prefixes every serialized key.
#[derive(Debug, Clone, Copy, PartialEq, Eq, Structural)]
pub struct KeyTag {
    pub network: Network,
    pub key_type: KeyType,
}

/// The nibble that encodes a network, placed in the high half of the tag
/// byte.
pub open spec fn spec_network_byte(n: Network) -> u8 {
    match n {
        Network::MainNet => 0x00,
        Network::TestNet => 0x10,
    }
}

/// The nibble that encodes a key type, placed in the low half of the tag
/// byte.
pub open spec fn spec_key_type_byte(k: KeyType) -> u8 {
    match k {
        KeyType::EccCompact => 0x00,
        KeyType::Ed25519 => 0x01,
    }
}

/// The single byte a tag encodes to.  The two nibbles are disjoint, so
/// addition is exact.
pub open spec fn spec_tag_byte(t: KeyTag) -> u8 {
    (spec_network_byte(t.network) + spec_key_type_byte(t.key_type)) as u8
}

/// Total decoding of a byte back to a tag: the four valid tag bytes each
/// name one tag, every other byte is rejected with the offending value.
pub open spec fn spec_tag_from_byte(b: u8) -> Result<KeyTag, Error> {
    if b == 0x00 {
        Ok(KeyTag { network: Network::MainNet, key_type: KeyType::EccCompact })
    } else if b == 0x01 {
        Ok(KeyTag { network: Network::MainNet, key_type: KeyType::Ed25519 })
    } else if b == 0x10 {
        Ok(KeyTag { network: Network::TestNet, key_type: KeyType::EccCompact })
    } else if b == 0x11 {
        Ok(KeyTag { network: Network::TestNet, key_type: KeyType::Ed25519 })
    } else {
        Err(Error::InvalidKeyType(b))
    }
}

impl KeyTag {
    /// Encode this tag to its wire byte.
    pub fn to_byte(&self) -> (r: u8)
        ensures
            r == spec_tag_byte(*self),
    {
        let n: u8 = match self.network {
            Network::MainNet => 0x00,
            Network::TestNet => 0x10,
        };
        let k: u8 = match self.key_type {
            KeyType::EccCompact => 0x00,
            KeyType::Ed25519 => 0x01,
        };
        n + k
    }

    /// Decode a wire byte back to a tag; rejects every byte that no tag
    /// encodes to, carrying the offending byte.
    pub fn from_byte(b: u8) -> (r: Result<KeyTag, Error>)
        ensures
            r == spec_tag_from_byte(b),
    {
        match b {
            0x00 => Ok(KeyTag { network: Network::MainNet, key_type: KeyType::EccCompact }),
            0x01 => Ok(KeyTag { network: Network::MainNet, key_type: KeyType::Ed25519 }),
            0x10 => Ok(KeyTag { network: Network::TestNet, key_type: KeyType::EccCompact }),
            0x11 => Ok(KeyTag { network: Network::TestNet, key_type: KeyType::Ed25519 }),
            _ => Err(Error::InvalidKeyType(b)),
        }
    }
}

/// Law: tag encoding round-trips.  Every tag decodes back from its own
/// wire byte, so the tag byte routes a serialized key unambiguously.
pub proof fn lemma_tag_byte_roundtrip(t: KeyTag)
    ensures
        spec_tag_from_byte(spec_tag_byte(t)) == Ok::<KeyTag, Error>(t),
{
}

/// Law: the tag encoding is canonical.  A byte that decodes to a tag is
/// exactly that tag's wire byte.
pub proof fn lemma_byte_tag_roundtrip(b: u8)
    ensures
        spec_tag_from_byte(b) matches Ok(t) ==> spec_tag_byte(t) == b,
{
}

} // verus!
