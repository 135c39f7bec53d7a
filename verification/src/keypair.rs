//! Key pairs: a secret key and the public key that belongs to it.

use vstd::prelude::*;
use noah_algebra::prelude::{CryptoRng, RngCore};
use crate::bytes::{concat, copy_range, lemma_framed};
use crate::engine;
use crate::error::XfrError;
use crate::keycodec::{key_classify, key_to_internal, ED25519_KEY_LENGTH};
use crate::keytype::KeyType;
use crate::publickey::{
    public_key_decode,
    valid_public_key,
    NoahPublicKey,
    XfrPublicKey,
    NOAH_PUBLIC_KEY_LENGTH,
};
use crate::secretkey::{
    derived_public_key,
    secret_key_decode,
    secret_key_from_internal,
    secret_key_sign,
    valid_secret_key,
    NoahSecretKey,
    XfrSecretKey,
    NOAH_SECRET_KEY_LENGTH,
};
use crate::signature::XfrSignature;

verus! {

/// Length in bytes of the compact form of an Ed25519 key pair: the secret
/// key, then the public key.
pub const ED25519_KEY_PAIR_LENGTH: usize = 64;

/// Length in bytes of the compact form of a Secp256k1 key pair: the secret
/// container, then the public container.
pub const SECP256K1_KEY_PAIR_LENGTH: usize = 67;

/// What `bytes` decodes to as a key pair, secret key first: the two halves
/// are split by the length that the scheme fixes and decoded, the secret one
/// first. That the public key belongs to the secret key is not asked.
pub open spec fn key_pair_decode(bytes: Seq<u8>) -> Result<(Seq<u8>, Seq<u8>), XfrError> {
    if bytes.len() == ED25519_KEY_PAIR_LENGTH {
        key_pair_of_halves(
            secret_key_decode(bytes.subrange(0, ED25519_KEY_LENGTH as int)),
            public_key_decode(bytes.subrange(ED25519_KEY_LENGTH as int, bytes.len() as int)),
        )
    } else if bytes.len() == SECP256K1_KEY_PAIR_LENGTH {
        key_pair_of_halves(
            secret_key_decode(bytes.subrange(0, NOAH_SECRET_KEY_LENGTH as int)),
            public_key_decode(bytes.subrange(NOAH_SECRET_KEY_LENGTH as int, bytes.len() as int)),
        )
    } else {
        Err(XfrError::LengthError)
    }
}

/// The pair of two decoded halves, or the first error among them.
pub open spec fn key_pair_of_halves(
    secret: Result<Seq<u8>, XfrError>,
    public: Result<Seq<u8>, XfrError>,
) -> Result<(Seq<u8>, Seq<u8>), XfrError> {
    match secret {
        Err(e) => Err(e),
        Ok(s) => match public {
            Err(e) => Err(e),
            Ok(p) => Ok((s, p)),
        },
    }
}

/// What a key pair holds: the compact bytes of its two keys.
pub struct KeyPairView {
    /// The compact public key.
    pub pub_key: Seq<u8>,
    /// The compact secret key.
    pub sec_key: Seq<u8>,
}

/// A secret key and a public key.
#[derive(Debug)]
pub struct XfrKeyPair {
    /// The public key.
    pub pub_key: XfrPublicKey,
    pub(crate) sec_key: XfrSecretKey,
}

impl View for XfrKeyPair {
    type V = KeyPairView;

    closed spec fn view(&self) -> KeyPairView {
        KeyPairView { pub_key: self.pub_key@, sec_key: self.sec_key@ }
    }
}

impl Clone for XfrKeyPair {
    fn clone(&self) -> (copy: Self)
        ensures
            copy@ == self@,
    {
        XfrKeyPair { pub_key: self.pub_key.clone(), sec_key: self.sec_key.clone() }
    }
}

/// The engine's key pair, as the containers of its two keys.
#[derive(Debug, PartialEq, Eq)]
pub struct NoahKeyPair {
    /// The public key.
    pub pub_key: NoahPublicKey,
    /// The secret key.
    pub sec_key: NoahSecretKey,
}

impl Clone for NoahKeyPair {
    fn clone(&self) -> (copy: Self)
        ensures
            copy.pub_key@ == self.pub_key@,
            copy.sec_key@ == self.sec_key@,
    {
        NoahKeyPair { pub_key: self.pub_key.clone(), sec_key: self.sec_key.clone() }
    }
}

impl XfrKeyPair {
    /// The pair of two keys.
    pub(crate) fn from_parts(pub_key: XfrPublicKey, sec_key: XfrSecretKey) -> (pair: XfrKeyPair)
        ensures
            pair@ == (KeyPairView { pub_key: pub_key@, sec_key: sec_key@ }),
    {
        XfrKeyPair { pub_key, sec_key }
    }

    /// A fresh Ed25519 key pair from the randomness of `prng`.
    pub fn generate<R: CryptoRng + RngCore>(prng: &mut R) -> (pair: XfrKeyPair)
        ensures
            key_classify(pair@.sec_key, NOAH_SECRET_KEY_LENGTH as nat) == Ok::<_, XfrError>(
                KeyType::Ed25519,
            ),
            key_classify(pair@.pub_key, NOAH_PUBLIC_KEY_LENGTH as nat) == Ok::<_, XfrError>(
                KeyType::Ed25519,
            ),
            valid_secret_key(pair@.sec_key),
            valid_public_key(pair@.pub_key),
            pair@.pub_key == derived_public_key(pair@.sec_key),
    {
        let container = engine::sample_ed25519_secret(prng);
        let compact = copy_range(container.as_slice(), 1, 1 + ED25519_KEY_LENGTH);
        proof {
            lemma_framed(KeyType::Ed25519.tag(), compact@, 0);
            assert(key_to_internal(compact@, NOAH_SECRET_KEY_LENGTH as nat) =~= container@);
        }
        let secret = XfrSecretKey::from_valid(compact);
        secret.into_keypair()
    }

    /// A fresh Secp256k1 key pair from the randomness of `prng`.
    pub fn generate_secp256k1<R: CryptoRng + RngCore>(prng: &mut R) -> (pair: XfrKeyPair)
        ensures
            key_classify(pair@.sec_key, NOAH_SECRET_KEY_LENGTH as nat) == Ok::<_, XfrError>(
                KeyType::Secp256k1,
            ),
            key_classify(pair@.pub_key, NOAH_PUBLIC_KEY_LENGTH as nat) == Ok::<_, XfrError>(
                KeyType::Secp256k1,
            ),
            valid_secret_key(pair@.sec_key),
            valid_public_key(pair@.pub_key),
            pair@.pub_key == derived_public_key(pair@.sec_key),
    {
        let container = engine::sample_secp256k1_secret(prng);
        let secret = XfrSecretKey::from_valid(container);
        secret.into_keypair()
    }

    /// The engine's key pair: the container of the secret key, and the
    /// container of the public key that the engine derives from it. Never
    /// fails.
    pub fn into_noah(&self) -> (r: Result<NoahKeyPair, XfrError>)
        ensures
            r is Ok,
            r->Ok_0.sec_key@ == key_to_internal(self@.sec_key, NOAH_SECRET_KEY_LENGTH as nat),
            r->Ok_0.pub_key@ == key_to_internal(
                derived_public_key(self@.sec_key),
                NOAH_PUBLIC_KEY_LENGTH as nat,
            ),
    {
        let sec_key = match self.sec_key.into_noah() {
            Ok(key) => key,
            Err(e) => {
                return Err(e);
            },
        };
        let pair = self.sec_key.into_keypair();
        match pair.pub_key.into_noah() {
            Ok(pub_key) => Ok(NoahKeyPair { pub_key, sec_key }),
            Err(e) => Err(e),
        }
    }

    /// The key pair of the secret key of an engine's key pair, whose public
    /// key is derived anew. Fails where [`XfrSecretKey::from_noah`] fails on
    /// the secret key, with its error.
    pub fn from_noah(value: &NoahKeyPair) -> (r: Result<XfrKeyPair, XfrError>)
        ensures
            match r {
                Ok(pair) => secret_key_from_internal(value.sec_key@) == Ok::<_, XfrError>(
                    pair@.sec_key,
                ) && pair@.pub_key == derived_public_key(pair@.sec_key),
                Err(e) => secret_key_from_internal(value.sec_key@) == Err::<Seq<u8>, _>(e),
            },
    {
        match XfrSecretKey::from_noah(&value.sec_key) {
            Ok(key) => Ok(key.into_keypair()),
            Err(e) => Err(e),
        }
    }

    /// Signs `message` with the secret key: see [`XfrSecretKey::sign`].
    pub fn sign(&self, msg: &[u8]) -> (r: Result<XfrSignature, XfrError>)
        ensures
            match r {
                Ok(signature) => secret_key_sign(self@.sec_key, msg@) == Ok::<_, XfrError>(
                    signature@,
                ),
                Err(e) => secret_key_sign(self@.sec_key, msg@) == Err::<Seq<u8>, _>(e),
            },
            self@.sec_key.len() == ED25519_KEY_LENGTH ==> r is Ok,
    {
        self.sec_key.sign(msg)
    }

    /// A copy of the public key.
    pub fn get_pk(&self) -> (key: XfrPublicKey)
        ensures
            key@ == self@.pub_key,
    {
        self.pub_key.clone()
    }

    /// The public key.
    pub fn get_pk_ref(&self) -> (key: &XfrPublicKey)
        ensures
            key@ == self@.pub_key,
    {
        &self.pub_key
    }

    /// A copy of the secret key.
    pub fn get_sk(&self) -> (key: XfrSecretKey)
        ensures
            key@ == self@.sec_key,
    {
        self.sec_key.clone()
    }

    /// The secret key.
    pub fn get_sk_ref(&self) -> (key: &XfrSecretKey)
        ensures
            key@ == self@.sec_key,
    {
        &self.sec_key
    }

    /// The compact bytes of the secret key, then those of the public key.
    pub fn noah_to_bytes(&self) -> (bytes: Vec<u8>)
        ensures
            bytes@ == self@.sec_key + self@.pub_key,
    {
        let secret = self.sec_key.noah_to_bytes();
        let public = self.pub_key.noah_to_bytes();
        concat(secret.as_slice(), public.as_slice())
    }

    /// A key pair from its compact bytes. Fails with `LengthError` where
    /// `bytes` has the length of no key pair, and where one of its halves
    /// does not decode, with the error of the first that does not.
    pub fn noah_from_bytes(bytes: &[u8]) -> (r: Result<XfrKeyPair, XfrError>)
        ensures
            match r {
                Ok(pair) => key_pair_decode(bytes@) == Ok::<_, XfrError>(
                    (pair@.sec_key, pair@.pub_key),
                ),
                Err(e) => key_pair_decode(bytes@) == Err::<(Seq<u8>, Seq<u8>), _>(e),
            },
    {
        let split = if bytes.len() == ED25519_KEY_PAIR_LENGTH {
            ED25519_KEY_LENGTH
        } else if bytes.len() == SECP256K1_KEY_PAIR_LENGTH {
            NOAH_SECRET_KEY_LENGTH
        } else {
            return Err(XfrError::LengthError);
        };
        let secret = copy_range(bytes, 0, split);
        let public = copy_range(bytes, split, bytes.len());
        let sec_key = match XfrSecretKey::noah_from_bytes(secret.as_slice()) {
            Ok(key) => key,
            Err(e) => {
                return Err(e);
            },
        };
        match XfrPublicKey::noah_from_bytes(public.as_slice()) {
            Ok(pub_key) => Ok(XfrKeyPair { pub_key, sec_key }),
            Err(e) => Err(e),
        }
    }
}

/// Decoding the compact bytes of a pair of valid keys of one scheme, the
/// secret key first, gives the two keys again.
pub proof fn lemma_key_pair_decode_encode(secret: Seq<u8>, public: Seq<u8>)
    requires
        valid_secret_key(secret),
        valid_public_key(public),
        key_classify(secret, NOAH_SECRET_KEY_LENGTH as nat) == key_classify(
            public,
            NOAH_PUBLIC_KEY_LENGTH as nat,
        ),
    ensures
        key_pair_decode(secret + public) == Ok::<_, XfrError>((secret, public)),
{
    let bytes = secret + public;
    assert(bytes.subrange(0, secret.len() as int) =~= secret);
    assert(bytes.subrange(secret.len() as int, bytes.len() as int) =~= public);
}

/// What decodes as a key pair is two valid keys of one scheme, and their
/// compact bytes, the secret key's first, are the bytes that were decoded.
pub proof fn lemma_key_pair_encode_decode(bytes: Seq<u8>)
    requires
        key_pair_decode(bytes) is Ok,
    ensures
        ({
            let (secret, public) = key_pair_decode(bytes)->Ok_0;
            &&& secret + public == bytes
            &&& valid_secret_key(secret)
            &&& valid_public_key(public)
            &&& key_classify(secret, NOAH_SECRET_KEY_LENGTH as nat) == key_classify(
                public,
                NOAH_PUBLIC_KEY_LENGTH as nat,
            )
        }),
{
    let (secret, public) = key_pair_decode(bytes)->Ok_0;
    assert(secret + public =~= bytes);
}

} // verus!
