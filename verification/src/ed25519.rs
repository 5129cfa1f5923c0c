//! The Ed25519 software backend.
//!
//! Key material is held as plain bytes: a secret key is the canonical
//! 64-byte encoding (32-byte seed followed by the 32-byte public key) that
//! the curve library derives from a seed.  The curve arithmetic itself is
//! reached only through the trusted wrappers in this module.

use vstd::prelude::*;
use crate::bytes::{bytes_eq, copy_range};
use crate::error::Error;
use crate::key_tag::{spec_tag_byte, spec_tag_from_byte, KeyTag, KeyType, Network};

verus! {

/// The 64-byte secret key (seed followed by public key) that the backend
/// derives from a 32-byte seed.  Derivation is deterministic, so this is a
/// function of the seed alone.
pub uninterp spec fn ed25519_kp_of(seed: Seq<u8>) -> Seq<u8>;

/// The signature the backend produces for a secret key and a message.
/// Signing without added noise is deterministic, so this is a function of
/// the two alone.
pub uninterp spec fn ed25519_sign_of(sk: Seq<u8>, msg: Seq<u8>) -> Seq<u8>;

/// Whether Ed25519 verification accepts a signature for a public key and
/// a message.
pub uninterp spec fn ed25519_verify_ok(pk: Seq<u8>, msg: Seq<u8>, sig: Seq<u8>) -> bool;

/// A seed is usable when some byte of it is nonzero; the backend rejects
/// the all-zero seed.
pub open spec fn seed_usable(seed: Seq<u8>) -> bool {
    exists|i: int| 0 <= i < seed.len() && seed[i] != 0
}

/// A well-formed Ed25519 secret key: the canonical 64-byte encoding of its
/// own leading seed.
pub open spec fn sk_wf(sk: Seq<u8>) -> bool {
    &&& sk.len() == 64
    &&& seed_usable(sk.subrange(0, 32))
    &&& sk == ed25519_kp_of(sk.subrange(0, 32))
}

/// Relies on rand_core::RngCore::fill_bytes: draws 32-byte seeds from the
/// caller's secure generator until a usable one comes (only the all-zero
/// seed is rejected).  Nothing else is assumed of the bytes; two calls may
/// differ.
#[verifier::external_body]
fn random_seed<R>(csprng: &mut R) -> (r: Vec<u8>)
    where
        R: rand_core::CryptoRng + rand_core::RngCore,
    ensures
        r@.len() == 32,
        seed_usable(r@),
{
    loop {
        let mut buf = [0u8; 32];
        csprng.fill_bytes(&mut buf);
        if buf.iter().any(|b| *b != 0) {
            return buf.to_vec();
        }
    }
}

/// Relies on ed25519_compact::KeyPair::try_from_seed: derives a key pair
/// deterministically from a 32-byte seed, failing exactly on the all-zero
/// seed; the secret key is the seed followed by the public key.
#[verifier::external_body]
fn kp_from_seed(seed: &[u8]) -> (r: Option<Vec<u8>>)
    requires
        seed@.len() == 32,
    ensures
        r is Some <==> seed_usable(seed@),
        r matches Some(sk) ==> sk@ == ed25519_kp_of(seed@) && sk@.len() == 64 && sk@.subrange(
            0,
            32,
        ) == seed@,
{
    let seed = ed25519_compact::Seed::from_slice(seed).unwrap();
    match ed25519_compact::KeyPair::try_from_seed(seed) {
        Ok(kp) => Some(kp.sk.to_vec()),
        Err(_) => None,
    }
}

/// Relies on ed25519_compact::SecretKey::sign with no added noise: the
/// signature is a deterministic function of the secret key and message,
/// and a signature made with a canonical secret key verifies under the
/// public key held in its last 32 bytes.
#[verifier::external_body]
fn sign_with(sk: &[u8], msg: &[u8]) -> (r: Vec<u8>)
    requires
        sk_wf(sk@),
    ensures
        r@ == ed25519_sign_of(sk@, msg@),
        ed25519_verify_ok(sk@.subrange(32, 64), msg@, r@),
{
    let secret = ed25519_compact::SecretKey::from_slice(sk).unwrap();
    secret.sign(msg, None).to_vec()
}

/// Relies on ed25519_compact::PublicKey::verify: deterministic acceptance
/// of a signature for a public key and a message; a malformed public key
/// or signature is rejected.
#[verifier::external_body]
fn verify_sig(pk: &[u8], msg: &[u8], sig: &[u8]) -> (r: bool)
    ensures
        r == ed25519_verify_ok(pk@, msg@, sig@),
{
    let pk = match ed25519_compact::PublicKey::from_slice(pk) {
        Ok(p) => p,
        Err(_) => return false,
    };
    let sig = match ed25519_compact::Signature::from_slice(sig) {
        Ok(s) => s,
        Err(_) => return false,
    };
    pk.verify(msg, &sig).is_ok()
}

/// The public half of an Ed25519 keypair.
#[derive(Debug)]
pub struct PublicKey {
    network: Network,
    key: Vec<u8>,
}

impl PublicKey {
    #[verifier::type_invariant]
    spec fn inv(self) -> bool {
        self.key@.len() == 32
    }

    /// The network this key belongs to.
    pub closed spec fn spec_network(&self) -> Network {
        self.network
    }

    /// The 32 public-key bytes.
    pub closed spec fn spec_bytes(&self) -> Seq<u8> {
        self.key@
    }

    pub fn network(&self) -> (r: Network)
        ensures
            r == self.spec_network(),
    {
        self.network
    }

    /// Check a signature over a message against this public key.
    pub fn verify(&self, msg: &[u8], signature: &[u8]) -> (r: Result<(), Error>)
        ensures
            r is Ok <==> ed25519_verify_ok(self.spec_bytes(), msg@, signature@),
            r is Err ==> r == Err::<(), Error>(Error::InvalidSignature),
    {
        if verify_sig(self.key.as_slice(), msg, signature) {
            Ok(())
        } else {
            Err(Error::InvalidSignature)
        }
    }
}

/// An Ed25519 keypair: the network, the owned public half, and the
/// canonical 64-byte secret key.
#[derive(Debug)]
pub struct Keypair {
    network: Network,
    public_key: crate::public_key::PublicKey,
    secret: Vec<u8>,
}

impl Keypair {
    #[verifier::type_invariant]
    spec fn inv(self) -> bool {
        &&& sk_wf(self.secret@)
        &&& self.public_key matches crate::public_key::PublicKey::Ed25519(p)
            && p.spec_network() == self.network && p.spec_bytes() == self.secret@.subrange(32, 64)
    }

    /// The network this keypair belongs to.
    pub closed spec fn spec_network(&self) -> Network {
        self.network
    }

    /// The canonical 64-byte secret key.
    pub closed spec fn spec_sk(&self) -> Seq<u8> {
        self.secret@
    }

    /// The owned public half.
    pub closed spec fn spec_public_key(&self) -> crate::public_key::PublicKey {
        self.public_key
    }

    /// How the owned public half relates to the secret key: it is the
    /// Ed25519 half with the same network and the last 32 secret-key bytes.
    pub open spec fn pk_linked(self) -> bool {
        self.spec_public_key() matches crate::public_key::PublicKey::Ed25519(p)
            && p.spec_network() == self.spec_network() && p.spec_bytes()
            == self.spec_sk().subrange(32, 64)
    }

    /// Build the keypair owning a well-formed secret key.
    fn new_from_sk(network: Network, sk: Vec<u8>) -> (r: Keypair)
        requires
            sk_wf(sk@),
        ensures
            r.spec_network() == network,
            r.spec_sk() == sk@,
            sk_wf(r.spec_sk()),
            r.pk_linked(),
    {
        let pk_bytes = copy_range(sk.as_slice(), 32, 64);
        let public = crate::public_key::PublicKey::Ed25519(
            PublicKey { network, key: pk_bytes },
        );
        Keypair { network, public_key: public, secret: sk }
    }

    /// Generate a keypair from the caller's secure random source.
    pub fn generate<R>(network: Network, csprng: &mut R) -> (r: Keypair)
        where
            R: rand_core::CryptoRng + rand_core::RngCore,
        ensures
            r.spec_network() == network,
            sk_wf(r.spec_sk()),
            r.pk_linked(),
    {
        let seed = random_seed(csprng);
        let sk = kp_from_seed(seed.as_slice()).unwrap();
        Self::new_from_sk(network, sk)
    }

    /// Derive a keypair deterministically from caller-supplied entropy.
    /// Exactly the 32-byte seeds with some nonzero byte are accepted.
    pub fn generate_from_entropy(network: Network, entropy: &[u8]) -> (r: Result<Keypair, Error>)
        ensures
            r is Ok <==> entropy@.len() == 32 && seed_usable(entropy@),
            r matches Ok(kp) ==> kp.spec_network() == network && kp.spec_sk() == ed25519_kp_of(
                entropy@,
            ) && sk_wf(kp.spec_sk()) && kp.pk_linked(),
            r matches Err(e) ==> e == Error::InvalidEntropy,
    {
        if entropy.len() != 32 {
            return Err(Error::InvalidEntropy);
        }
        match kp_from_seed(entropy) {
            Some(sk) => Ok(Self::new_from_sk(network, sk)),
            None => Err(Error::InvalidEntropy),
        }
    }

    /// The tag this keypair serializes under.
    pub fn key_tag(&self) -> (r: KeyTag)
        ensures
            r == (KeyTag { network: self.spec_network(), key_type: KeyType::Ed25519 }),
    {
        KeyTag { network: self.network, key_type: KeyType::Ed25519 }
    }

    /// The public half; the keypair retains ownership.
    pub fn public_key(&self) -> (r: &crate::public_key::PublicKey)
        ensures
            *r == self.spec_public_key(),
            self.pk_linked(),
    {
        proof {
            use_type_invariant(&*self);
        }
        &self.public_key
    }

    /// Sign a message; the signature verifies under this keypair's public
    /// key.
    pub fn sign(&self, msg: &[u8]) -> (r: Result<Vec<u8>, Error>)
        ensures
            r matches Ok(sig) && sig@ == ed25519_sign_of(self.spec_sk(), msg@),
            r matches Ok(sig) ==> ed25519_verify_ok(
                self.spec_sk().subrange(32, 64),
                msg@,
                sig@,
            ),
            self.pk_linked(),
    {
        proof {
            use_type_invariant(&*self);
        }
        Ok(sign_with(self.secret.as_slice(), msg))
    }

    /// Serialize as the tag byte followed by the 64 secret-key bytes.
    pub fn to_vec(&self) -> (r: Vec<u8>)
        ensures
            r@ == seq![
                spec_tag_byte(KeyTag { network: self.spec_network(), key_type: KeyType::Ed25519 }),
            ] + self.spec_sk(),
            sk_wf(self.spec_sk()),
    {
        proof {
            use_type_invariant(&*self);
        }
        let tag = KeyTag { network: self.network, key_type: KeyType::Ed25519 };
        let mut out: Vec<u8> = Vec::new();
        out.push(tag.to_byte());
        crate::bytes::push_all(&mut out, self.secret.as_slice());
        proof {
            assert(out@ =~= seq![
                spec_tag_byte(KeyTag { network: self.spec_network(), key_type: KeyType::Ed25519 }),
            ] + self.spec_sk());
        }
        out
    }

    /// Serialize the secret material alone: the 32-byte seed, from which
    /// generate_from_entropy rebuilds this keypair.
    pub fn secret_to_vec(&self) -> (r: Vec<u8>)
        ensures
            r@ == self.spec_sk().subrange(0, 32),
            sk_wf(self.spec_sk()),
    {
        proof {
            use_type_invariant(&*self);
        }
        copy_range(self.secret.as_slice(), 0, 32)
    }

    /// Decode a serialized key whose tag byte was already read and names
    /// this backend.  Exactly the canonical encodings produced by to_vec
    /// are accepted.
    pub fn try_from(network: Network, input: &[u8]) -> (r: Result<Keypair, Error>)
        requires
            input@.len() >= 1,
            spec_tag_from_byte(input@[0]) == Ok::<KeyTag, Error>(
                KeyTag { network, key_type: KeyType::Ed25519 },
            ),
        ensures
            r is Ok <==> input@.len() == 65 && sk_wf(input@.skip(1)),
            r matches Ok(kp) ==> kp.spec_network() == network && kp.spec_sk() == input@.skip(1)
                && kp.pk_linked(),
            r matches Err(e) ==> e == Error::InvalidKeyBytes,
    {
        if input.len() != 65 {
            return Err(Error::InvalidKeyBytes);
        }
        let seed = copy_range(input, 1, 33);
        let body = copy_range(input, 1, 65);
        proof {
            assert(input@.skip(1) =~= body@);
            assert(input@.skip(1).subrange(0, 32) =~= seed@);
        }
        match kp_from_seed(seed.as_slice()) {
            Some(sk) => {
                if bytes_eq(sk.as_slice(), body.as_slice()) {
                    Ok(Self::new_from_sk(network, sk))
                } else {
                    Err(Error::InvalidKeyBytes)
                }
            },
            None => Err(Error::InvalidKeyBytes),
        }
    }
}

impl PartialEq for Keypair {
    /// Equality of network and secret key bytes; the public half is a
    /// function of these.
    fn eq(&self, other: &Self) -> (r: bool) {
        self.network == other.network && bytes_eq(
            self.secret.as_slice(),
            other.secret.as_slice(),
        )
    }
}

impl vstd::std_specs::cmp::PartialEqSpecImpl for Keypair {
    open spec fn obeys_eq_spec() -> bool {
        true
    }

    open spec fn eq_spec(&self, other: &Self) -> bool {
        self.spec_network() == other.spec_network() && self.spec_sk() == other.spec_sk()
    }
}

} // verus!
