//! The polymorphic keypair: one sum type dispatching over every supported
//! backend, with a tagged wire encoding that routes a serialized key back
//! to the backend that produced it.

use vstd::prelude::*;
use crate::bytes::bytes_eq;
use crate::ecc_compact;
use crate::ed25519;
use crate::error::Error;
use crate::key_tag::{
    lemma_tag_byte_roundtrip, spec_tag_byte, spec_tag_from_byte, KeyTag, KeyType, Network,
};
use crate::public_key::{spec_verify_ok, PublicKey};

verus! {

/// The mathematical model of a keypair: its backend, its network and its
/// secret key bytes.  The public half is a function of these.
pub enum KeyModel {
    Ed25519 { network: Network, sk: Seq<u8> },
    EccCompact { network: Network, sk: Seq<u8> },
}

impl KeyModel {
    /// The network of the modelled keypair.
    pub open spec fn network(self) -> Network {
        match self {
            KeyModel::Ed25519 { network, .. } => network,
            KeyModel::EccCompact { network, .. } => network,
        }
    }

    /// The secret key bytes of the modelled keypair.
    pub open spec fn sk(self) -> Seq<u8> {
        match self {
            KeyModel::Ed25519 { sk, .. } => sk,
            KeyModel::EccCompact { sk, .. } => sk,
        }
    }

    /// The tag the modelled keypair serializes under.
    pub open spec fn key_tag(self) -> KeyTag {
        match self {
            KeyModel::Ed25519 { network, .. } => KeyTag { network, key_type: KeyType::Ed25519 },
            KeyModel::EccCompact { network, .. } => KeyTag {
                network,
                key_type: KeyType::EccCompact,
            },
        }
    }

    /// A well-formed model: the secret key is one its backend accepts.
    pub open spec fn wf(self) -> bool {
        match self {
            KeyModel::Ed25519 { sk, .. } => ed25519::sk_wf(sk),
            KeyModel::EccCompact { sk, .. } => ecc_compact::sk_wf(sk),
        }
    }
}

/// The serialized form of a keypair: its tag byte followed by its secret
/// key bytes.
pub open spec fn spec_to_vec(m: KeyModel) -> Seq<u8> {
    seq![spec_tag_byte(m.key_tag())] + m.sk()
}

/// The secret-only serialized form: the entropy from which
/// generate_from_entropy rebuilds the keypair.
pub open spec fn spec_secret_to_vec(m: KeyModel) -> Seq<u8> {
    match m {
        KeyModel::Ed25519 { sk, .. } => sk.subrange(0, 32),
        KeyModel::EccCompact { sk, .. } => sk,
    }
}

/// Total decoding of serialized bytes back to a keypair model.  The tag
/// byte routes to a backend; the body must be a secret key that backend
/// accepts.
pub open spec fn spec_decode(input: Seq<u8>) -> Result<KeyModel, Error> {
    if input.len() == 0 {
        Err(Error::MissingKeyType)
    } else {
        match spec_tag_from_byte(input[0]) {
            Err(e) => Err(e),
            Ok(tag) => match tag.key_type {
                KeyType::Ed25519 => if input.len() == 65 && ed25519::sk_wf(input.skip(1)) {
                    Ok(KeyModel::Ed25519 { network: tag.network, sk: input.skip(1) })
                } else {
                    Err(Error::InvalidKeyBytes)
                },
                KeyType::EccCompact => if input.len() == 33 && ecc_compact::sk_wf(input.skip(1)) {
                    Ok(KeyModel::EccCompact { network: tag.network, sk: input.skip(1) })
                } else {
                    Err(Error::InvalidKeyBytes)
                },
            },
        }
    }
}

/// What generating from entropy yields: for each backend, exactly the
/// accepted 32-byte entropy strings produce a key, deterministically.
pub open spec fn spec_generate_from_entropy(key_tag: KeyTag, entropy: Seq<u8>) -> Result<
    KeyModel,
    Error,
> {
    match key_tag.key_type {
        KeyType::Ed25519 => if entropy.len() == 32 && ed25519::seed_usable(entropy) {
            Ok(
                KeyModel::Ed25519 {
                    network: key_tag.network,
                    sk: ed25519::ed25519_kp_of(entropy),
                },
            )
        } else {
            Err(Error::InvalidEntropy)
        },
        KeyType::EccCompact => if entropy.len() == 32 && ecc_compact::p256_sk_ok(entropy) {
            Ok(KeyModel::EccCompact { network: key_tag.network, sk: entropy })
        } else {
            Err(Error::InvalidEntropy)
        },
    }
}

/// The signature a keypair produces over a message; both backends sign
/// deterministically.
pub open spec fn spec_sign(m: KeyModel, msg: Seq<u8>) -> Seq<u8> {
    match m {
        KeyModel::Ed25519 { sk, .. } => ed25519::ed25519_sign_of(sk, msg),
        KeyModel::EccCompact { sk, .. } => ecc_compact::p256_sign_of(sk, msg),
    }
}

/// Law: serialization round-trips.  A well-formed keypair model decodes
/// back, unchanged, from its own serialized bytes; in particular the
/// decoded model carries the same tag.
pub proof fn lemma_encode_decode(m: KeyModel)
    requires
        m.wf(),
    ensures
        spec_decode(spec_to_vec(m)) == Ok::<KeyModel, Error>(m),
{
    let bytes = spec_to_vec(m);
    lemma_tag_byte_roundtrip(m.key_tag());
    assert(bytes.skip(1) =~= m.sk());
}

/// Law: the serialization is canonical.  Bytes that decode to a keypair
/// model are exactly that model's serialization, and the model is
/// well-formed; together with the encode-decode law, serialized keypairs
/// and their byte strings correspond one to one.
pub proof fn lemma_decode_encode(input: Seq<u8>)
    ensures
        spec_decode(input) matches Ok(m) ==> spec_to_vec(m) == input && m.wf(),
{
    if spec_decode(input) is Ok {
        crate::key_tag::lemma_byte_tag_roundtrip(input[0]);
        let m = spec_decode(input)->Ok_0;
        assert(spec_to_vec(m) =~= input);
    }
}

/// Law: the secret-only serialization rebuilds the keypair.  Feeding a
/// well-formed keypair's secret bytes back to entropy-based generation
/// under its own tag yields the same keypair model.
pub proof fn lemma_secret_rebuild(m: KeyModel)
    requires
        m.wf(),
    ensures
        spec_generate_from_entropy(m.key_tag(), spec_secret_to_vec(m)) == Ok::<KeyModel, Error>(m),
{
    match m {
        KeyModel::Ed25519 { sk, .. } => {
            assert(sk == ed25519::ed25519_kp_of(sk.subrange(0, 32)));
        },
        KeyModel::EccCompact { .. } => {},
    }
}

/// The signing capability: produce a variable-length signature over a
/// message.  Keypair implements it by dispatch, so call sites can depend
/// on the capability rather than on the concrete keypair type.
pub trait Sign {
    /// Sign the given message.
    fn sign(&self, msg: &[u8]) -> Result<Vec<u8>, Error>;
}

/// A keypair, one variant per backend.
#[derive(Debug)]
pub enum Keypair {
    Ed25519(ed25519::Keypair),
    EccCompact(ecc_compact::Keypair),
}

impl View for Keypair {
    type V = KeyModel;

    open spec fn view(&self) -> KeyModel {
        match self {
            Keypair::Ed25519(kp) => KeyModel::Ed25519 {
                network: kp.spec_network(),
                sk: kp.spec_sk(),
            },
            Keypair::EccCompact(kp) => KeyModel::EccCompact {
                network: kp.spec_network(),
                sk: kp.spec_sk(),
            },
        }
    }
}

/// The fixed-size byte output of a successful Diffie-Hellman exchange.
/// It exists only as the result of an exchange and is owned by the caller
/// that received it.
#[derive(Debug)]
pub struct SharedSecret(Vec<u8>);

impl View for SharedSecret {
    type V = Seq<u8>;

    closed spec fn view(&self) -> Seq<u8> {
        self.0@
    }
}

impl SharedSecret {
    /// The shared bytes.
    pub fn as_bytes(&self) -> (r: &[u8])
        ensures
            r@ == self@,
    {
        self.0.as_slice()
    }
}

impl Keypair {
    /// The owned public half.
    pub open spec fn spec_public_key(self) -> PublicKey {
        match self {
            Keypair::Ed25519(kp) => kp.spec_public_key(),
            Keypair::EccCompact(kp) => kp.spec_public_key(),
        }
    }

    /// How the owned public half relates to the secret key, per backend.
    pub open spec fn pk_linked(self) -> bool {
        match self {
            Keypair::Ed25519(kp) => kp.pk_linked(),
            Keypair::EccCompact(kp) => kp.pk_linked(),
        }
    }

    /// Generate a keypair for the given tag from the caller's secure
    /// random source, routed to the backend the tag names.
    pub fn generate<R>(key_tag: KeyTag, csprng: &mut R) -> (r: Keypair)
        where
            R: rand_core::CryptoRng + rand_core::RngCore,
        ensures
            r@.wf(),
            r@.key_tag() == key_tag,
            r.pk_linked(),
    {
        match key_tag.key_type {
            KeyType::EccCompact => Keypair::EccCompact(
                ecc_compact::Keypair::generate(key_tag.network, csprng),
            ),
            KeyType::Ed25519 => Keypair::Ed25519(
                ed25519::Keypair::generate(key_tag.network, csprng),
            ),
        }
    }

    /// Derive a keypair for the given tag deterministically from
    /// caller-supplied entropy; entropy the backend rejects is reported,
    /// never turned into a key.
    pub fn generate_from_entropy(key_tag: KeyTag, entropy: &[u8]) -> (r: Result<Keypair, Error>)
        ensures
            r matches Ok(kp) ==> spec_generate_from_entropy(key_tag, entropy@) == Ok::<
                KeyModel,
                Error,
            >(kp@) && kp@.wf() && kp@.key_tag() == key_tag && kp.pk_linked(),
            r matches Err(e) ==> spec_generate_from_entropy(key_tag, entropy@) == Err::<
                KeyModel,
                Error,
            >(e),
    {
        match key_tag.key_type {
            KeyType::EccCompact => match ecc_compact::Keypair::generate_from_entropy(
                key_tag.network,
                entropy,
            ) {
                Ok(kp) => Ok(Keypair::EccCompact(kp)),
                Err(e) => Err(e),
            },
            KeyType::Ed25519 => match ed25519::Keypair::generate_from_entropy(
                key_tag.network,
                entropy,
            ) {
                Ok(kp) => Ok(Keypair::Ed25519(kp)),
                Err(e) => Err(e),
            },
        }
    }

    /// The tag this keypair serializes under: a pure projection of the
    /// active variant.
    pub fn key_tag(&self) -> (r: KeyTag)
        ensures
            r == self@.key_tag(),
    {
        match self {
            Keypair::Ed25519(kp) => kp.key_tag(),
            Keypair::EccCompact(kp) => kp.key_tag(),
        }
    }

    /// The public half; the keypair retains ownership.
    pub fn public_key(&self) -> (r: &PublicKey)
        ensures
            *r == self.spec_public_key(),
            self.pk_linked(),
    {
        match self {
            Keypair::Ed25519(kp) => kp.public_key(),
            Keypair::EccCompact(kp) => kp.public_key(),
        }
    }

    /// Sign a message with the active backend.  The signature is a
    /// deterministic function of the keypair and message, and verifies
    /// under this keypair's public key.
    pub fn sign(&self, msg: &[u8]) -> (r: Result<Vec<u8>, Error>)
        ensures
            r matches Ok(sig) && sig@ == spec_sign(self@, msg@),
            r matches Ok(sig) ==> spec_verify_ok(self.spec_public_key(), msg@, sig@),
    {
        match self {
            Keypair::Ed25519(kp) => kp.sign(msg),
            Keypair::EccCompact(kp) => kp.sign(msg),
        }
    }

    /// Exchange keys with a peer public key.  Only Diffie-Hellman-capable
    /// backends may exchange, and only with a peer on the same curve; a
    /// capability mismatch is a synchronous, typed error.  On success the
    /// shared bytes equal what the peer would derive with its own secret
    /// key and this keypair's public key (exchange symmetry).
    pub fn ecdh(&self, public_key: &PublicKey) -> (r: Result<SharedSecret, Error>)
        ensures
            self@ is Ed25519 ==> (r matches Err(e) && e == Error::InvalidCurve),
            self@ is EccCompact && *public_key is Ed25519 ==> (r matches Err(e) && e
                == Error::InvalidCurve),
            self@ matches KeyModel::EccCompact { sk, .. } ==> (*public_key matches
                PublicKey::EccCompact(p) ==> {
                &&& r matches Ok(s)
                &&& r matches Ok(s) ==> s@ == ecc_compact::p256_ecdh_of(sk, p.spec_bytes())
                    && s@.len() == 32 && (forall|sk2: Seq<u8>|
                    p.spec_bytes() == #[trigger] ecc_compact::p256_pk_of(sk2) ==> s@
                        == ecc_compact::p256_ecdh_of(sk2, ecc_compact::p256_pk_of(sk)))
            }),
    {
        match self {
            Keypair::EccCompact(kp) => match kp.ecdh(public_key) {
                Ok(s) => Ok(SharedSecret(s)),
                Err(e) => Err(e),
            },
            Keypair::Ed25519(_) => Err(Error::InvalidCurve),
        }
    }

    /// Serialize as the tag byte followed by the backend's secret key
    /// bytes.  The bytes decode back to this very keypair.
    pub fn to_vec(&self) -> (r: Vec<u8>)
        ensures
            r@ == spec_to_vec(self@),
            spec_decode(r@) == Ok::<KeyModel, Error>(self@),
    {
        match self {
            Keypair::Ed25519(kp) => {
                let out = kp.to_vec();
                proof {
                    lemma_encode_decode(self@);
                }
                out
            },
            Keypair::EccCompact(kp) => {
                let out = kp.to_vec();
                proof {
                    lemma_encode_decode(self@);
                }
                out
            },
        }
    }

    /// Serialize the secret material alone: the entropy from which
    /// generate_from_entropy rebuilds this keypair under its own tag.
    pub fn secret_to_vec(&self) -> (r: Vec<u8>)
        ensures
            r@ == spec_secret_to_vec(self@),
            spec_generate_from_entropy(self@.key_tag(), r@) == Ok::<KeyModel, Error>(self@),
    {
        match self {
            Keypair::Ed25519(kp) => {
                let out = kp.secret_to_vec();
                proof {
                    lemma_secret_rebuild(self@);
                }
                out
            },
            Keypair::EccCompact(kp) => {
                let out = kp.secret_to_vec();
                proof {
                    lemma_secret_rebuild(self@);
                }
                out
            },
        }
    }

    /// Deserialize a keypair: the leading byte routes to a backend, which
    /// decodes the body.  An empty input, an unrecognized tag byte and a
    /// rejected body are each a distinct typed error.
    pub fn try_from(input: &[u8]) -> (r: Result<Keypair, Error>)
        ensures
            r matches Ok(kp) ==> spec_decode(input@) == Ok::<KeyModel, Error>(kp@) && kp@.wf()
                && kp.pk_linked(),
            r matches Err(e) ==> spec_decode(input@) == Err::<KeyModel, Error>(e),
    {
        if input.len() == 0 {
            return Err(Error::MissingKeyType);
        }
        let tag = match KeyTag::from_byte(input[0]) {
            Ok(t) => t,
            Err(e) => {
                return Err(e);
            },
        };
        match tag.key_type {
            KeyType::Ed25519 => match ed25519::Keypair::try_from(tag.network, input) {
                Ok(kp) => Ok(Keypair::Ed25519(kp)),
                Err(e) => Err(e),
            },
            KeyType::EccCompact => match ecc_compact::Keypair::try_from(tag.network, input) {
                Ok(kp) => Ok(Keypair::EccCompact(kp)),
                Err(e) => Err(e),
            },
        }
    }
}

/// Law: a signature a keypair produces is accepted when checked with the
/// keypair's own public key, for every keypair and every message.
pub fn sign_and_verify(keypair: &Keypair, msg: &[u8]) -> (r: Result<(), Error>)
    ensures
        r is Ok,
{
    let signature = match keypair.sign(msg) {
        Ok(s) => s,
        Err(e) => {
            return Err(e);
        },
    };
    keypair.public_key().verify(msg, signature.as_slice())
}

/// Law: exchange symmetry.  Both sides of a pair of Diffie-Hellman-capable
/// keypairs derive the same shared bytes; any other pairing is the
/// capability-mismatch error.
pub fn ecdh_pair(a: &Keypair, b: &Keypair) -> (r: Result<(SharedSecret, SharedSecret), Error>)
    ensures
        a@ is EccCompact && b@ is EccCompact ==> (r matches Ok(s) && s.0@ == s.1@),
        !(a@ is EccCompact && b@ is EccCompact) ==> (r matches Err(e) && e == Error::InvalidCurve),
{
    let first = match a.ecdh(b.public_key()) {
        Ok(s) => s,
        Err(e) => {
            return Err(e);
        },
    };
    let second = match b.ecdh(a.public_key()) {
        Ok(s) => s,
        Err(e) => {
            return Err(e);
        },
    };
    Ok((first, second))
}

impl Sign for Keypair {
    fn sign(&self, msg: &[u8]) -> Result<Vec<u8>, Error> {
        Keypair::sign(self, msg)
    }
}

impl From<ed25519::Keypair> for Keypair {
    fn from(keypair: ed25519::Keypair) -> (r: Self) {
        Keypair::Ed25519(keypair)
    }
}

impl vstd::std_specs::convert::FromSpecImpl<ed25519::Keypair> for Keypair {
    open spec fn obeys_from_spec() -> bool {
        true
    }

    open spec fn from_spec(t: ed25519::Keypair) -> Self {
        Keypair::Ed25519(t)
    }
}

impl From<ecc_compact::Keypair> for Keypair {
    fn from(keypair: ecc_compact::Keypair) -> (r: Self) {
        Keypair::EccCompact(keypair)
    }
}

impl vstd::std_specs::convert::FromSpecImpl<ecc_compact::Keypair> for Keypair {
    open spec fn obeys_from_spec() -> bool {
        true
    }

    open spec fn from_spec(t: ecc_compact::Keypair) -> Self {
        Keypair::EccCompact(t)
    }
}

impl PartialEq for Keypair {
    /// Two keypairs are equal when their models are: same backend, same
    /// network, same secret key bytes.
    fn eq(&self, other: &Self) -> (r: bool) {
        match (self, other) {
            (Keypair::Ed25519(a), Keypair::Ed25519(b)) => a == b,
            (Keypair::EccCompact(a), Keypair::EccCompact(b)) => a == b,
            _ => false,
        }
    }
}

impl vstd::std_specs::cmp::PartialEqSpecImpl for Keypair {
    open spec fn obeys_eq_spec() -> bool {
        true
    }

    open spec fn eq_spec(&self, other: &Self) -> bool {
        self@ == other@
    }
}

} // verus!
