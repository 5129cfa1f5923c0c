//! The compact NIST P-256 software backend.
//!
//! A secret key is the 32-byte big-endian scalar; only scalars whose public
//! point admits the compact SEC1 encoding are accepted, so every public key
//! of this backend can be carried in compact form.  The curve arithmetic is
//! reached only through the trusted wrappers in this module.

use vstd::prelude::*;
use p256::ecdsa::signature::{Signer, Verifier};
use p256::elliptic_curve::sec1::{ToCompactEncodedPoint, ToEncodedPoint};
use crate::error::Error;
use crate::key_tag::{spec_tag_byte, spec_tag_from_byte, KeyTag, KeyType, Network};

verus! {

/// Whether the backend accepts 32 bytes as a secret key: the bytes encode
/// a nonzero scalar below the curve order whose public point is
/// compact-encodable.  Acceptance is a function of the bytes alone.
pub uninterp spec fn p256_sk_ok(sk: Seq<u8>) -> bool;

/// The compressed SEC1 encoding of the public key derived from a secret
/// key; derivation is deterministic.
pub uninterp spec fn p256_pk_of(sk: Seq<u8>) -> Seq<u8>;

/// The DER-encoded ECDSA signature the backend produces for a secret key
/// and a message; signing uses a deterministic nonce, so this is a
/// function of the two alone.
pub uninterp spec fn p256_sign_of(sk: Seq<u8>, msg: Seq<u8>) -> Seq<u8>;

/// Whether ECDSA verification accepts a DER signature for a public key and
/// a message.
pub uninterp spec fn p256_verify_ok(pk: Seq<u8>, msg: Seq<u8>, sig: Seq<u8>) -> bool;

/// The shared secret a Diffie-Hellman exchange derives from a secret key
/// and a peer public key.
pub uninterp spec fn p256_ecdh_of(sk: Seq<u8>, pk: Seq<u8>) -> Seq<u8>;

/// A well-formed secret key of this backend.
pub open spec fn sk_wf(sk: Seq<u8>) -> bool {
    sk.len() == 32 && p256_sk_ok(sk)
}

/// Relies on rand_core::RngCore::fill_bytes: draws 32-byte scalars from
/// the caller's secure generator until the backend accepts one, the same
/// rejection sampling the curve library uses for random scalars.  Nothing
/// else is assumed of the bytes; two calls may differ.
#[verifier::external_body]
fn random_scalar<R>(csprng: &mut R) -> (r: Vec<u8>)
    where
        R: rand_core::CryptoRng + rand_core::RngCore,
    ensures
        r@.len() == 32,
        p256_sk_ok(r@),
{
    loop {
        let mut buf = [0u8; 32];
        csprng.fill_bytes(&mut buf);
        if let Ok(secret) = p256::SecretKey::from_slice(&buf) {
            if bool::from(secret.public_key().as_affine().to_compact_encoded_point().is_some()) {
                return buf.to_vec();
            }
        }
    }
}

/// Relies on p256::SecretKey::from_slice and public_key, and on the
/// compact SEC1 check of the underlying curve library: 32 bytes are
/// accepted exactly when they encode a nonzero scalar below the curve
/// order whose public point is compact-encodable, and the returned bytes
/// are the deterministic compressed encoding of that public point.
#[verifier::external_body]
fn keypair_from_secret(sk: &[u8]) -> (r: Option<Vec<u8>>)
    requires
        sk@.len() == 32,
    ensures
        r is Some <==> p256_sk_ok(sk@),
        r matches Some(pk) ==> pk@ == p256_pk_of(sk@) && pk@.len() == 33,
{
    let secret = match p256::SecretKey::from_slice(sk) {
        Ok(s) => s,
        Err(_) => return None,
    };
    let public = secret.public_key();
    if !bool::from(public.as_affine().to_compact_encoded_point().is_some()) {
        return None;
    }
    Some(public.to_encoded_point(true).as_bytes().to_vec())
}

/// Relies on p256::ecdsa::SigningKey::sign: the DER signature is derived
/// with a deterministic nonce from the secret key and message, and
/// verifies under the corresponding public key.
#[verifier::external_body]
fn sign_der(sk: &[u8], msg: &[u8]) -> (r: Vec<u8>)
    requires
        sk_wf(sk@),
    ensures
        r@ == p256_sign_of(sk@, msg@),
        p256_verify_ok(p256_pk_of(sk@), msg@, r@),
{
    let signing = p256::ecdsa::SigningKey::from_slice(sk).unwrap();
    let signature: p256::ecdsa::Signature = signing.sign(msg);
    signature.to_der().as_bytes().to_vec()
}

/// Relies on p256::ecdsa::VerifyingKey::verify: deterministic acceptance
/// of a DER signature for a public key and a message; a malformed public
/// key or signature is rejected.
#[verifier::external_body]
fn verify_sig(pk: &[u8], msg: &[u8], sig: &[u8]) -> (r: bool)
    ensures
        r == p256_verify_ok(pk@, msg@, sig@),
{
    let vk = match p256::ecdsa::VerifyingKey::from_sec1_bytes(pk) {
        Ok(k) => k,
        Err(_) => return false,
    };
    let s = match p256::ecdsa::Signature::from_der(sig) {
        Ok(s) => s,
        Err(_) => return false,
    };
    vk.verify(msg, &s).is_ok()
}

/// Relies on elliptic_curve::ecdh::diffie_hellman: the shared secret is
/// the x-coordinate of the peer point multiplied by the own secret scalar,
/// so the two sides of an exchange derive the same bytes; a peer key that
/// is the encoding of some secret key's public point always decodes.
#[verifier::external_body]
fn ecdh_bytes(sk: &[u8], pk: &[u8]) -> (r: Option<Vec<u8>>)
    requires
        sk_wf(sk@),
    ensures
        r matches Some(s) ==> s@ == p256_ecdh_of(sk@, pk@) && s@.len() == 32,
        (exists|sk2: Seq<u8>| sk_wf(sk2) && pk@ == p256_pk_of(sk2)) ==> r is Some,
        r matches Some(s) ==> forall|sk2: Seq<u8>|
            pk@ == #[trigger] p256_pk_of(sk2) ==> s@ == p256_ecdh_of(sk2, p256_pk_of(sk@)),
{
    let secret = match p256::SecretKey::from_slice(sk) {
        Ok(s) => s,
        Err(_) => return None,
    };
    let public = match p256::PublicKey::from_sec1_bytes(pk) {
        Ok(p) => p,
        Err(_) => return None,
    };
    let shared = p256::elliptic_curve::ecdh::diffie_hellman(
        secret.to_nonzero_scalar(),
        public.as_affine(),
    );
    Some(shared.raw_secret_bytes().to_vec())
}

/// The public half of a compact P-256 keypair.
#[derive(Debug)]
pub struct PublicKey {
    network: Network,
    key: Vec<u8>,
}

impl PublicKey {
    #[verifier::type_invariant]
    spec fn inv(self) -> bool {
        &&& self.key@.len() == 33
        &&& exists|sk: Seq<u8>| sk_wf(sk) && self.key@ == #[trigger] p256_pk_of(sk)
    }

    /// The network this key belongs to.
    pub closed spec fn spec_network(&self) -> Network {
        self.network
    }

    /// The 33 compressed public-key bytes.
    pub closed spec fn spec_bytes(&self) -> Seq<u8> {
        self.key@
    }

    pub fn network(&self) -> (r: Network)
        ensures
            r == self.spec_network(),
    {
        self.network
    }

    /// Check a DER signature over a message against this public key.
    pub fn verify(&self, msg: &[u8], signature: &[u8]) -> (r: Result<(), Error>)
        ensures
            r is Ok <==> p256_verify_ok(self.spec_bytes(), msg@, signature@),
            r is Err ==> r == Err::<(), Error>(Error::InvalidSignature),
    {
        if verify_sig(self.key.as_slice(), msg, signature) {
            Ok(())
        } else {
            Err(Error::InvalidSignature)
        }
    }
}

/// A compact P-256 keypair: the network, the owned public half, and the
/// 32-byte secret scalar.
#[derive(Debug)]
pub struct Keypair {
    network: Network,
    public_key: crate::public_key::PublicKey,
    secret: Vec<u8>,
}

impl Keypair {
    #[verifier::type_invariant]
    spec fn inv(self) -> bool {
        &&& sk_wf(self.secret@)
        &&& self.public_key matches crate::public_key::PublicKey::EccCompact(p)
            && p.spec_network() == self.network && p.spec_bytes() == p256_pk_of(self.secret@)
    }

    /// The network this keypair belongs to.
    pub closed spec fn spec_network(&self) -> Network {
        self.network
    }

    /// The 32-byte secret scalar.
    pub closed spec fn spec_sk(&self) -> Seq<u8> {
        self.secret@
    }

    /// The owned public half.
    pub closed spec fn spec_public_key(&self) -> crate::public_key::PublicKey {
        self.public_key
    }

    /// How the owned public half relates to the secret key: it is the
    /// compact P-256 half with the same network, holding the compressed
    /// encoding of the secret key's public point.
    pub open spec fn pk_linked(self) -> bool {
        self.spec_public_key() matches crate::public_key::PublicKey::EccCompact(p)
            && p.spec_network() == self.spec_network() && p.spec_bytes() == p256_pk_of(
            self.spec_sk(),
        )
    }

    /// Build the keypair owning an accepted secret key and its public
    /// bytes.
    fn new_from_parts(network: Network, sk: Vec<u8>, pk: Vec<u8>) -> (r: Keypair)
        requires
            sk_wf(sk@),
            pk@ == p256_pk_of(sk@),
            pk@.len() == 33,
        ensures
            r.spec_network() == network,
            r.spec_sk() == sk@,
            sk_wf(r.spec_sk()),
            r.pk_linked(),
    {
        let public = crate::public_key::PublicKey::EccCompact(
            PublicKey { network, key: pk },
        );
        Keypair { network, public_key: public, secret: sk }
    }

    /// Generate a keypair from the caller's secure random source.
    pub fn generate<R>(network: Network, csprng: &mut R) -> (r: Keypair)
        where
            R: rand_core::CryptoRng + rand_core::RngCore,
        ensures
            r.spec_network() == network,
            sk_wf(r.spec_sk()),
            r.pk_linked(),
    {
        let sk = random_scalar(csprng);
        let pk = keypair_from_secret(sk.as_slice()).unwrap();
        Self::new_from_parts(network, sk, pk)
    }

    /// Derive a keypair deterministically from caller-supplied entropy.
    /// Exactly the 32-byte strings the backend accepts as a secret key are
    /// allowed; the entropy itself becomes the secret scalar.
    pub fn generate_from_entropy(network: Network, entropy: &[u8]) -> (r: Result<Keypair, Error>)
        ensures
            r is Ok <==> entropy@.len() == 32 && p256_sk_ok(entropy@),
            r matches Ok(kp) ==> kp.spec_network() == network && kp.spec_sk() == entropy@ && sk_wf(
                kp.spec_sk(),
            ) && kp.pk_linked(),
            r matches Err(e) ==> e == Error::InvalidEntropy,
    {
        if entropy.len() != 32 {
            return Err(Error::InvalidEntropy);
        }
        let sk = crate::bytes::copy_range(entropy, 0, 32);
        proof {
            assert(sk@ =~= entropy@);
        }
        match keypair_from_secret(sk.as_slice()) {
            Some(pk) => Ok(Self::new_from_parts(network, sk, pk)),
            None => Err(Error::InvalidEntropy),
        }
    }

    /// The tag this keypair serializes under.
    pub fn key_tag(&self) -> (r: KeyTag)
        ensures
            r == (KeyTag { network: self.spec_network(), key_type: KeyType::EccCompact }),
    {
        KeyTag { network: self.network, key_type: KeyType::EccCompact }
    }

    /// The public half; the keypair retains ownership.
    pub fn public_key(&self) -> (r: &crate::public_key::PublicKey)
        ensures
            *r == self.spec_public_key(),
            self.pk_linked(),
    {
        proof {
            use_type_invariant(&*self);
        }
        &self.public_key
    }

    /// Sign a message; the DER signature verifies under this keypair's
    /// public key.
    pub fn sign(&self, msg: &[u8]) -> (r: Result<Vec<u8>, Error>)
        ensures
            r matches Ok(sig) && sig@ == p256_sign_of(self.spec_sk(), msg@),
            r matches Ok(sig) ==> p256_verify_ok(p256_pk_of(self.spec_sk()), msg@, sig@),
            self.pk_linked(),
    {
        proof {
            use_type_invariant(&*self);
        }
        Ok(sign_der(self.secret.as_slice(), msg))
    }

    /// Exchange keys with a peer public half.  Only a compact P-256 peer
    /// is on the same curve; the shared bytes are the same both sides of
    /// the exchange would derive.
    pub fn ecdh(&self, peer: &crate::public_key::PublicKey) -> (r: Result<Vec<u8>, Error>)
        ensures
            peer matches crate::public_key::PublicKey::EccCompact(p) ==> {
                &&& r matches Ok(s)
                &&& r matches Ok(s) ==> s@ == p256_ecdh_of(self.spec_sk(), p.spec_bytes())
                    && s@.len() == 32 && forall|sk2: Seq<u8>|
                    p.spec_bytes() == #[trigger] p256_pk_of(sk2) ==> s@ == p256_ecdh_of(
                        sk2,
                        p256_pk_of(self.spec_sk()),
                    )
            },
            peer matches crate::public_key::PublicKey::Ed25519(_) ==> r == Err::<
                Vec<u8>,
                Error,
            >(Error::InvalidCurve),
    {
        proof {
            use_type_invariant(&*self);
        }
        match peer {
            crate::public_key::PublicKey::EccCompact(p) => {
                proof {
                    use_type_invariant(p);
                }
                match ecdh_bytes(self.secret.as_slice(), p.key.as_slice()) {
                    Some(s) => Ok(s),
                    None => {
                        proof {
                            assert(false);
                        }
                        Err(Error::InvalidCurve)
                    },
                }
            },
            crate::public_key::PublicKey::Ed25519(_) => Err(Error::InvalidCurve),
        }
    }

    /// Serialize as the tag byte followed by the 32 secret-scalar bytes.
    pub fn to_vec(&self) -> (r: Vec<u8>)
        ensures
            r@ == seq![
                spec_tag_byte(
                    KeyTag { network: self.spec_network(), key_type: KeyType::EccCompact },
                ),
            ] + self.spec_sk(),
            sk_wf(self.spec_sk()),
    {
        proof {
            use_type_invariant(&*self);
        }
        let tag = KeyTag { network: self.network, key_type: KeyType::EccCompact };
        let mut out: Vec<u8> = Vec::new();
        out.push(tag.to_byte());
        crate::bytes::push_all(&mut out, self.secret.as_slice());
        proof {
            assert(out@ =~= seq![
                spec_tag_byte(
                    KeyTag { network: self.spec_network(), key_type: KeyType::EccCompact },
                ),
            ] + self.spec_sk());
        }
        out
    }

    /// Serialize the secret material alone: the 32-byte scalar, from which
    /// generate_from_entropy rebuilds this keypair.
    pub fn secret_to_vec(&self) -> (r: Vec<u8>)
        ensures
            r@ == self.spec_sk(),
            sk_wf(self.spec_sk()),
    {
        proof {
            use_type_invariant(&*self);
        }
        let out = crate::bytes::copy_range(self.secret.as_slice(), 0, 32);
        proof {
            assert(out@ =~= self.spec_sk());
        }
        out
    }

    /// Decode a serialized key whose tag byte was already read and names
    /// this backend.  Exactly a tag byte followed by an accepted 32-byte
    /// secret key is taken; the public half is recomputed.
    pub fn try_from(network: Network, input: &[u8]) -> (r: Result<Keypair, Error>)
        requires
            input@.len() >= 1,
            spec_tag_from_byte(input@[0]) == Ok::<KeyTag, Error>(
                KeyTag { network, key_type: KeyType::EccCompact },
            ),
        ensures
            r is Ok <==> input@.len() == 33 && sk_wf(input@.skip(1)),
            r matches Ok(kp) ==> kp.spec_network() == network && kp.spec_sk() == input@.skip(1)
                && kp.pk_linked(),
            r matches Err(e) ==> e == Error::InvalidKeyBytes,
    {
        if input.len() != 33 {
            return Err(Error::InvalidKeyBytes);
        }
        let sk = crate::bytes::copy_range(input, 1, 33);
        proof {
            assert(sk@ =~= input@.skip(1));
        }
        match keypair_from_secret(sk.as_slice()) {
            Some(pk) => Ok(Self::new_from_parts(network, sk, pk)),
            None => Err(Error::InvalidKeyBytes),
        }
    }
}

impl PartialEq for Keypair {
    /// Equality of network and secret key bytes; the public half is a
    /// function of these.
    fn eq(&self, other: &Self) -> (r: bool) {
        self.network == other.network && crate::bytes::bytes_eq(
            self.secret.as_slice(),
            other.secret.as_slice(),
        )
    }
}

impl vstd::std_specs::cmp::PartialEqSpecImpl for Keypair {
    open spec fn obeys_eq_spec() -> bool {
        true
    }

    open spec fn eq_spec(&self, other: &Self) -> bool {
        self.spec_network() == other.spec_network() && self.spec_sk() == other.spec_sk()
    }
}

} // verus!
