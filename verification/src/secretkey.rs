//! Secret keys: their compact form, and the engine's tagged container.

use std::cmp::Ordering;
use vstd::prelude::*;
use crate::order::{byte_order, compare, ByteOrder};
use crate::bytes::{copy_range, lemma_framed};
use crate::engine;
use crate::engine::{
    noah_accepts_secret_key,
    noah_public_key_of,
    noah_signature,
};
use crate::error::XfrError;
use crate::keycodec::{
    classify,
    from_internal,
    is_compact_key,
    key_classify,
    key_from_internal,
    key_to_internal,
    lemma_key_container,
    lemma_key_from_internal_is_compact,
    to_internal,
    ED25519_KEY_LENGTH,
};
use crate::keypair::XfrKeyPair;
use crate::keytype::KeyType;
use crate::publickey::{valid_public_key, XfrPublicKey, NOAH_PUBLIC_KEY_LENGTH};
use crate::signature::{signature_from_internal, NoahSignature, XfrSignature};

verus! {

/// Length in bytes of the engine's container of a secret key: a scheme tag
/// and 32 bytes.
pub const NOAH_SECRET_KEY_LENGTH: usize = 33;

/// A compact secret key is one with the layout of a compact key whose
/// container the engine accepts.
pub open spec fn valid_secret_key(compact: Seq<u8>) -> bool {
    is_compact_key(compact, NOAH_SECRET_KEY_LENGTH as nat) && noah_accepts_secret_key(
        key_to_internal(compact, NOAH_SECRET_KEY_LENGTH as nat),
    )
}

/// What `bytes` decodes to as a compact secret key: itself where it is one,
/// the layout's error where it has not the layout of one, and a format error
/// where the engine does not accept its container.
pub open spec fn secret_key_decode(bytes: Seq<u8>) -> Result<Seq<u8>, XfrError> {
    match key_classify(bytes, NOAH_SECRET_KEY_LENGTH as nat) {
        Err(e) => Err(e),
        Ok(_) => if noah_accepts_secret_key(key_to_internal(bytes, NOAH_SECRET_KEY_LENGTH as nat)) {
            Ok(bytes)
        } else {
            Err(XfrError::FormatError)
        },
    }
}

/// The compact secret key in the engine's container `internal`: what the
/// layout finds in it, decoded.
pub open spec fn secret_key_from_internal(internal: Seq<u8>) -> Result<Seq<u8>, XfrError> {
    match key_from_internal(internal, NOAH_SECRET_KEY_LENGTH as nat) {
        Err(e) => Err(e),
        Ok(compact) => secret_key_decode(compact),
    }
}

/// The compact public key found in the public container `public` that the
/// engine derived from a secret key of the scheme that `secret` has.
pub open spec fn public_from_derived(secret: Seq<u8>, public: Seq<u8>) -> Seq<u8> {
    if secret.len() == ED25519_KEY_LENGTH {
        public.subrange(1, 1 + ED25519_KEY_LENGTH as int)
    } else {
        public
    }
}

/// The compact public key that belongs to the compact secret key `secret`.
pub open spec fn derived_public_key(secret: Seq<u8>) -> Seq<u8> {
    public_from_derived(
        secret,
        noah_public_key_of(key_to_internal(secret, NOAH_SECRET_KEY_LENGTH as nat)),
    )
}

/// The compact signature in what the engine gave for a signature: without
/// one there is a signature error, and a container is converted.
pub open spec fn signature_from_engine(outcome: Option<Seq<u8>>) -> Result<Seq<u8>, XfrError> {
    match outcome {
        None => Err(XfrError::SignatureError),
        Some(container) => signature_from_internal(container),
    }
}

/// The compact signature of the compact secret key `secret` on `message`.
pub open spec fn secret_key_sign(secret: Seq<u8>, message: Seq<u8>) -> Result<Seq<u8>, XfrError> {
    signature_from_engine(
        noah_signature(key_to_internal(secret, NOAH_SECRET_KEY_LENGTH as nat), message),
    )
}

/// A secret key in its compact form.
#[derive(Debug, Eq, Ord, Hash)]
pub struct XfrSecretKey {
    pub(crate) bytes: Vec<u8>,
}

impl View for XfrSecretKey {
    type V = Seq<u8>;

    closed spec fn view(&self) -> Seq<u8> {
        self.bytes@
    }
}

impl PartialEq for XfrSecretKey {
    fn eq(&self, other: &Self) -> (r: bool) {
        let r = self.bytes == other.bytes;
        proof {
            if r {
                assert(self.bytes@ =~= other.bytes@);
            }
        }
        r
    }
}

impl vstd::std_specs::cmp::PartialEqSpecImpl for XfrSecretKey {
    open spec fn obeys_eq_spec() -> bool {
        true
    }

    open spec fn eq_spec(&self, other: &Self) -> bool {
        self@ == other@
    }
}

impl PartialOrd for XfrSecretKey {
    fn partial_cmp(&self, other: &Self) -> (r: Option<Ordering>) {
        match compare(self.bytes.as_slice(), other.bytes.as_slice()) {
            ByteOrder::Before => Some(Ordering::Less),
            ByteOrder::Same => Some(Ordering::Equal),
            ByteOrder::After => Some(Ordering::Greater),
        }
    }
}

impl vstd::std_specs::cmp::PartialOrdSpecImpl for XfrSecretKey {
    open spec fn obeys_partial_cmp_spec() -> bool {
        true
    }

    open spec fn partial_cmp_spec(&self, other: &Self) -> Option<Ordering> {
        match byte_order(self@, other@) {
            ByteOrder::Before => Some(Ordering::Less),
            ByteOrder::Same => Some(Ordering::Equal),
            ByteOrder::After => Some(Ordering::Greater),
        }
    }
}

impl Clone for XfrSecretKey {
    fn clone(&self) -> (copy: Self)
        ensures
            copy@ == self@,
    {
        proof {
            use_type_invariant(self);
        }
        XfrSecretKey { bytes: self.bytes.clone() }
    }
}

/// The engine's secret key, as the bytes of its container.
#[derive(Debug, PartialEq, Eq)]
pub struct NoahSecretKey {
    /// The container: a scheme tag and the key.
    pub bytes: Vec<u8>,
}

impl View for NoahSecretKey {
    type V = Seq<u8>;

    open spec fn view(&self) -> Seq<u8> {
        self.bytes@
    }
}

impl Clone for NoahSecretKey {
    fn clone(&self) -> (copy: Self)
        ensures
            copy@ == self@,
    {
        NoahSecretKey { bytes: self.bytes.clone() }
    }
}

impl XfrSecretKey {
    /// Every secret key that exists is a valid compact secret key.
    #[verifier::type_invariant]
    pub open spec fn inv(&self) -> bool {
        valid_secret_key(self@)
    }

    /// The key with the compact bytes `bytes`, which are known to be valid.
    pub(crate) fn from_valid(bytes: Vec<u8>) -> (key: XfrSecretKey)
        requires
            valid_secret_key(bytes@),
        ensures
            key@ == bytes@,
    {
        XfrSecretKey { bytes }
    }

    /// The scheme of this key.
    pub fn key_type(&self) -> (key_type: KeyType)
        ensures
            key_classify(self@, NOAH_SECRET_KEY_LENGTH as nat) == Ok::<_, XfrError>(key_type),
    {
        proof {
            use_type_invariant(self);
        }
        if self.bytes.len() == ED25519_KEY_LENGTH {
            KeyType::Ed25519
        } else {
            KeyType::Secp256k1
        }
    }

    /// Signs `message`. An Ed25519 key always gives a signature. Fails with
    /// `SignatureError` where the engine gives none, and with the error of
    /// [`XfrSignature::from_noah`] where what it gives has no compact form,
    /// as the signature of a Secp256k1 key has none.
    pub fn sign(&self, message: &[u8]) -> (r: Result<XfrSignature, XfrError>)
        ensures
            match r {
                Ok(signature) => secret_key_sign(self@, message@) == Ok::<_, XfrError>(
                    signature@,
                ),
                Err(e) => secret_key_sign(self@, message@) == Err::<Seq<u8>, _>(e),
            },
            self@.len() == ED25519_KEY_LENGTH ==> r is Ok,
    {
        proof {
            use_type_invariant(self);
            lemma_secret_container_tag(self@);
        }
        let key = to_internal(self.bytes.as_slice(), NOAH_SECRET_KEY_LENGTH);
        Self::signature_from_engine(engine::sign(key.as_slice(), message))
    }

    /// The compact signature in what the engine gave for a signature. Fails
    /// with `SignatureError` where it gave none, and with the error of
    /// [`XfrSignature::from_noah`] where its container does not convert.
    pub fn signature_from_engine(outcome: Option<Vec<u8>>) -> (r: Result<XfrSignature, XfrError>)
        ensures
            match r {
                Ok(signature) => outcome is Some && signature_from_engine(Some(outcome->Some_0@))
                    == Ok::<_, XfrError>(signature@),
                Err(e) => signature_from_engine(
                    match outcome {
                        Some(container) => Some(container@),
                        None => None,
                    },
                ) == Err::<Seq<u8>, _>(e),
            },
    {
        match outcome {
            None => Err(XfrError::SignatureError),
            Some(container) => XfrSignature::from_noah(&NoahSignature { bytes: container }),
        }
    }

    /// This key with the public key that belongs to it.
    pub fn into_keypair(&self) -> (pair: XfrKeyPair)
        ensures
            pair@.sec_key == self@,
            pair@.pub_key == derived_public_key(self@),
            valid_secret_key(self@),
            valid_public_key(pair@.pub_key),
            key_classify(pair@.pub_key, NOAH_PUBLIC_KEY_LENGTH as nat) == key_classify(
                self@,
                NOAH_SECRET_KEY_LENGTH as nat,
            ),
    {
        proof {
            use_type_invariant(self);
            lemma_secret_container_tag(self@);
        }
        let key = to_internal(self.bytes.as_slice(), NOAH_SECRET_KEY_LENGTH);
        let public = engine::derive_public_key(key.as_slice());
        let compact = if self.bytes.len() == ED25519_KEY_LENGTH {
            let inner = copy_range(public.as_slice(), 1, 1 + ED25519_KEY_LENGTH);
            proof {
                lemma_framed(KeyType::Ed25519.tag(), inner@, 1);
                assert(key_to_internal(inner@, NOAH_PUBLIC_KEY_LENGTH as nat) =~= public@);
            }
            inner
        } else {
            public
        };
        XfrKeyPair::from_parts(XfrPublicKey::from_valid(compact), self.clone())
    }

    /// The engine's container for this key. Never fails.
    pub fn into_noah(&self) -> (r: Result<NoahSecretKey, XfrError>)
        ensures
            r is Ok,
            r->Ok_0@ == key_to_internal(self@, NOAH_SECRET_KEY_LENGTH as nat),
            r->Ok_0@.len() == NOAH_SECRET_KEY_LENGTH,
            valid_secret_key(self@),
    {
        proof {
            use_type_invariant(self);
        }
        Ok(NoahSecretKey { bytes: to_internal(self.bytes.as_slice(), NOAH_SECRET_KEY_LENGTH) })
    }

    /// The compact key in an engine's container. Fails with `FormatError`
    /// where the container has not the engine's length or the engine does
    /// not accept the key, and with `UnsupportedScheme` where the container
    /// is tagged as an Ethereum address.
    pub fn from_noah(value: &NoahSecretKey) -> (r: Result<XfrSecretKey, XfrError>)
        ensures
            match r {
                Ok(key) => secret_key_from_internal(value@) == Ok::<_, XfrError>(key@)
                    && valid_secret_key(key@),
                Err(e) => secret_key_from_internal(value@) == Err::<Seq<u8>, _>(e),
            },
    {
        match from_internal(value.bytes.as_slice(), NOAH_SECRET_KEY_LENGTH) {
            Ok(compact) => Self::noah_from_bytes(compact.as_slice()),
            Err(e) => Err(e),
        }
    }

    /// The compact bytes of this key: 32 for an Ed25519 key, without a tag.
    pub fn noah_to_bytes(&self) -> (bytes: Vec<u8>)
        ensures
            bytes@ == self@,
            valid_secret_key(bytes@),
            key_from_internal(
                key_to_internal(self@, NOAH_SECRET_KEY_LENGTH as nat),
                NOAH_SECRET_KEY_LENGTH as nat,
            ) == Ok::<_, XfrError>(bytes@),
    {
        proof {
            use_type_invariant(self);
            lemma_key_container(self@, NOAH_SECRET_KEY_LENGTH as nat);
        }
        self.bytes.clone()
    }

    /// A key from its compact bytes. Fails with `LengthError` where `bytes`
    /// is neither 32 bytes nor a Secp256k1 container, with
    /// `UnsupportedScheme` where it is a container tagged as an Ethereum
    /// address, and with `FormatError` where the engine does not accept the
    /// key.
    pub fn noah_from_bytes(bytes: &[u8]) -> (r: Result<XfrSecretKey, XfrError>)
        ensures
            match r {
                Ok(key) => secret_key_decode(bytes@) == Ok::<_, XfrError>(key@) && key@ == bytes@
                    && valid_secret_key(key@),
                Err(e) => secret_key_decode(bytes@) == Err::<Seq<u8>, _>(e),
            },
    {
        match classify(bytes, NOAH_SECRET_KEY_LENGTH) {
            Ok(_) => {},
            Err(e) => {
                return Err(e);
            },
        }
        let container = to_internal(bytes, NOAH_SECRET_KEY_LENGTH);
        if engine::accepts_secret_key(container.as_slice()) {
            assert(bytes@.subrange(0, bytes@.len() as int) =~= bytes@);
            Ok(XfrSecretKey { bytes: copy_range(bytes, 0, bytes.len()) })
        } else {
            Err(XfrError::FormatError)
        }
    }
}

/// The container of a compact secret key begins with the tag byte of the
/// key's scheme: 0 for Ed25519, 1 for Secp256k1.
pub proof fn lemma_secret_container_tag(key: Seq<u8>)
    requires
        is_compact_key(key, NOAH_SECRET_KEY_LENGTH as nat),
    ensures
        key_to_internal(key, NOAH_SECRET_KEY_LENGTH as nat).len() == NOAH_SECRET_KEY_LENGTH,
        key_to_internal(key, NOAH_SECRET_KEY_LENGTH as nat)[0] == (if key.len()
            == ED25519_KEY_LENGTH {
            0u8
        } else {
            1u8
        }),
{
    if key.len() == ED25519_KEY_LENGTH {
        lemma_framed(KeyType::Ed25519.tag(), key, 0);
    }
}

/// Decoding the compact bytes of a valid key gives that key.
pub proof fn lemma_secret_key_decode_encode(key: Seq<u8>)
    requires
        valid_secret_key(key),
    ensures
        secret_key_decode(key) == Ok::<_, XfrError>(key),
{
}

/// What decodes is a valid key, and its compact bytes are the bytes that were
/// decoded.
pub proof fn lemma_secret_key_encode_decode(bytes: Seq<u8>)
    requires
        secret_key_decode(bytes) is Ok,
    ensures
        secret_key_decode(bytes)->Ok_0 == bytes,
        valid_secret_key(bytes),
{
}

/// Converting a valid key to the engine's container and back gives the key
/// again.
pub proof fn lemma_secret_key_round_trip(key: Seq<u8>)
    requires
        valid_secret_key(key),
    ensures
        secret_key_from_internal(key_to_internal(key, NOAH_SECRET_KEY_LENGTH as nat)) == Ok::<
            _,
            XfrError,
        >(key),
{
    lemma_key_container(key, NOAH_SECRET_KEY_LENGTH as nat);
}

/// What is found in a container is a valid key.
pub proof fn lemma_secret_key_from_internal_valid(internal: Seq<u8>)
    requires
        secret_key_from_internal(internal) is Ok,
    ensures
        valid_secret_key(secret_key_from_internal(internal)->Ok_0),
{
    lemma_key_from_internal_is_compact(internal, NOAH_SECRET_KEY_LENGTH as nat);
}

} // verus!
