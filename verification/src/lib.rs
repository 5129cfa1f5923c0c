//! A unifying keypair abstraction over several elliptic-curve backends.
//!
//! A [`Keypair`](keypair::Keypair) is a closed sum over the supported
//! backends (Ed25519 and a compact NIST P-256 variant).  Every serialized
//! key begins with a tag byte that names the network and key type, so an
//! opaque byte blob can be routed back to the backend that produced it.

pub mod bytes;
pub mod ecc_compact;
pub mod ed25519;
pub mod error;
pub mod key_tag;
pub mod keypair;
pub mod public_key;

pub use error::Error;
pub use key_tag::{KeyTag, KeyType, Network};
pub use keypair::{ecdh_pair, sign_and_verify, KeyModel, Keypair, SharedSecret, Sign};
pub use public_key::PublicKey;
