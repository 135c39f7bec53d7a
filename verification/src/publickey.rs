//! Public keys: their compact form, and the engine's tagged container.

use std::cmp::Ordering;
use vstd::prelude::*;
use crate::order::{byte_order, compare, ByteOrder};
use crate::engine;
use crate::engine::{noah_accepts_public_key, noah_verifies};
use crate::error::XfrError;
use crate::keycodec::{
    classify,
    from_internal,
    is_compact_key,
    key_classify,
    key_from_internal,
    key_to_internal,
    lemma_key_container,
    lemma_key_from_internal_is_compact,
    to_internal,
    ED25519_KEY_LENGTH,
};
use crate::keytype::KeyType;
use crate::signature::{signature_to_internal, XfrSignature};

verus! {

/// Length in bytes of the engine's container of a public key: a scheme tag
/// and 33 bytes, of which an Ed25519 key fills 32.
pub const NOAH_PUBLIC_KEY_LENGTH: usize = 34;

/// A compact public key is one with the layout of a compact key whose
/// container the engine accepts.
pub open spec fn valid_public_key(compact: Seq<u8>) -> bool {
    is_compact_key(compact, NOAH_PUBLIC_KEY_LENGTH as nat) && noah_accepts_public_key(
        key_to_internal(compact, NOAH_PUBLIC_KEY_LENGTH as nat),
    )
}

/// What `bytes` decodes to as a compact public key: itself where it is one,
/// the layout's error where it has not the layout of one, and a format error
/// where the engine does not accept its container.
pub open spec fn public_key_decode(bytes: Seq<u8>) -> Result<Seq<u8>, XfrError> {
    match key_classify(bytes, NOAH_PUBLIC_KEY_LENGTH as nat) {
        Err(e) => Err(e),
        Ok(_) => if noah_accepts_public_key(key_to_internal(bytes, NOAH_PUBLIC_KEY_LENGTH as nat)) {
            Ok(bytes)
        } else {
            Err(XfrError::FormatError)
        },
    }
}

/// The compact public key in the engine's container `internal`: what the
/// layout finds in it, decoded.
pub open spec fn public_key_from_internal(internal: Seq<u8>) -> Result<Seq<u8>, XfrError> {
    match key_from_internal(internal, NOAH_PUBLIC_KEY_LENGTH as nat) {
        Err(e) => Err(e),
        Ok(compact) => public_key_decode(compact),
    }
}

/// What verifying `signature` on `message` under the compact public key
/// `public` gives: only an Ed25519 key matches the scheme of a compact
/// signature, and then the engine decides.
pub open spec fn public_key_verify(public: Seq<u8>, message: Seq<u8>, signature: Seq<u8>)
    -> Result<(), XfrError> {
    if public.len() != ED25519_KEY_LENGTH {
        Err(XfrError::SchemeMismatch)
    } else {
        verdict(
            noah_verifies(
                key_to_internal(public, NOAH_PUBLIC_KEY_LENGTH as nat),
                message,
                signature_to_internal(signature),
            ),
        )
    }
}

/// The result of a verification that the engine has decided.
pub open spec fn verdict(accepted: bool) -> Result<(), XfrError> {
    if accepted {
        Ok(())
    } else {
        Err(XfrError::SignatureError)
    }
}

/// A public key in its compact form. Keys are equal, ordered and hashed by
/// their compact bytes.
#[derive(Debug, Eq, Ord, Hash)]
pub struct XfrPublicKey {
    pub(crate) bytes: Vec<u8>,
}

impl View for XfrPublicKey {
    type V = Seq<u8>;

    closed spec fn view(&self) -> Seq<u8> {
        self.bytes@
    }
}

impl PartialEq for XfrPublicKey {
    fn eq(&self, other: &Self) -> (r: bool) {
        let r = self.bytes == other.bytes;
        proof {
            if r {
                assert(self.bytes@ =~= other.bytes@);
            }
        }
        r
    }
}

impl vstd::std_specs::cmp::PartialEqSpecImpl for XfrPublicKey {
    open spec fn obeys_eq_spec() -> bool {
        true
    }

    open spec fn eq_spec(&self, other: &Self) -> bool {
        self@ == other@
    }
}

impl PartialOrd for XfrPublicKey {
    fn partial_cmp(&self, other: &Self) -> (r: Option<Ordering>) {
        match compare(self.bytes.as_slice(), other.bytes.as_slice()) {
            ByteOrder::Before => Some(Ordering::Less),
            ByteOrder::Same => Some(Ordering::Equal),
            ByteOrder::After => Some(Ordering::Greater),
        }
    }
}

impl vstd::std_specs::cmp::PartialOrdSpecImpl for XfrPublicKey {
    open spec fn obeys_partial_cmp_spec() -> bool {
        true
    }

    open spec fn partial_cmp_spec(&self, other: &Self) -> Option<Ordering> {
        match byte_order(self@, other@) {
            ByteOrder::Before => Some(Ordering::Less),
            ByteOrder::Same => Some(Ordering::Equal),
            ByteOrder::After => Some(Ordering::Greater),
        }
    }
}

impl Clone for XfrPublicKey {
    fn clone(&self) -> (copy: Self)
        ensures
            copy@ == self@,
    {
        proof {
            use_type_invariant(self);
        }
        XfrPublicKey { bytes: self.bytes.clone() }
    }
}

/// The engine's public key, as the bytes of its container.
#[derive(Debug, PartialEq, Eq)]
pub struct NoahPublicKey {
    /// The container: a scheme tag, the key, and padding.
    pub bytes: Vec<u8>,
}

impl View for NoahPublicKey {
    type V = Seq<u8>;

    open spec fn view(&self) -> Seq<u8> {
        self.bytes@
    }
}

impl Clone for NoahPublicKey {
    fn clone(&self) -> (copy: Self)
        ensures
            copy@ == self@,
    {
        NoahPublicKey { bytes: self.bytes.clone() }
    }
}

impl XfrPublicKey {
    /// Every public key that exists is a valid compact public key.
    #[verifier::type_invariant]
    pub open spec fn inv(&self) -> bool {
        valid_public_key(self@)
    }

    /// The key with the compact bytes `bytes`, which are known to be valid.
    pub(crate) fn from_valid(bytes: Vec<u8>) -> (key: XfrPublicKey)
        requires
            valid_public_key(bytes@),
        ensures
            key@ == bytes@,
    {
        XfrPublicKey { bytes }
    }

    /// The scheme of this key.
    pub fn key_type(&self) -> (key_type: KeyType)
        ensures
            key_classify(self@, NOAH_PUBLIC_KEY_LENGTH as nat) == Ok::<_, XfrError>(key_type),
    {
        proof {
            use_type_invariant(self);
        }
        if self.bytes.len() == ED25519_KEY_LENGTH {
            KeyType::Ed25519
        } else {
            KeyType::Secp256k1
        }
    }

    /// Verifies `signature` on `message`. Fails with `SchemeMismatch` where
    /// this is not an Ed25519 key, and with `SignatureError` where the engine
    /// does not verify the signature.
    pub fn verify(&self, message: &[u8], signature: &XfrSignature) -> (r: Result<(), XfrError>)
        ensures
            r == public_key_verify(self@, message@, signature@),
    {
        proof {
            use_type_invariant(self);
        }
        if self.bytes.len() != ED25519_KEY_LENGTH {
            return Err(XfrError::SchemeMismatch);
        }
        let key = to_internal(self.bytes.as_slice(), NOAH_PUBLIC_KEY_LENGTH);
        let container = match signature.into_noah() {
            Ok(container) => container,
            Err(e) => {
                return Err(e);
            },
        };
        Self::verdict(engine::verify(key.as_slice(), message, container.bytes.as_slice()))
    }

    /// The result of a verification that the engine has decided: success
    /// where it accepted, `SignatureError` where it did not.
    pub fn verdict(accepted: bool) -> (r: Result<(), XfrError>)
        ensures
            r == verdict(accepted),
    {
        if accepted {
            Ok(())
        } else {
            Err(XfrError::SignatureError)
        }
    }

    /// The engine's container for this key. Never fails.
    pub fn into_noah(&self) -> (r: Result<NoahPublicKey, XfrError>)
        ensures
            r is Ok,
            r->Ok_0@ == key_to_internal(self@, NOAH_PUBLIC_KEY_LENGTH as nat),
            r->Ok_0@.len() == NOAH_PUBLIC_KEY_LENGTH,
            valid_public_key(self@),
    {
        proof {
            use_type_invariant(self);
        }
        Ok(NoahPublicKey { bytes: to_internal(self.bytes.as_slice(), NOAH_PUBLIC_KEY_LENGTH) })
    }

    /// The compact key in an engine's container. Fails with `FormatError`
    /// where the container has not the engine's length or the engine does
    /// not accept the key, and with `UnsupportedScheme` where the container
    /// holds an Ethereum address.
    pub fn from_noah(value: &NoahPublicKey) -> (r: Result<XfrPublicKey, XfrError>)
        ensures
            match r {
                Ok(key) => public_key_from_internal(value@) == Ok::<_, XfrError>(key@)
                    && valid_public_key(key@),
                Err(e) => public_key_from_internal(value@) == Err::<Seq<u8>, _>(e),
            },
    {
        match from_internal(value.bytes.as_slice(), NOAH_PUBLIC_KEY_LENGTH) {
            Ok(compact) => Self::noah_from_bytes(compact.as_slice()),
            Err(e) => Err(e),
        }
    }

    /// The compact bytes of this key: 32 for an Ed25519 key.
    pub fn noah_to_bytes(&self) -> (bytes: Vec<u8>)
        ensures
            bytes@ == self@,
            valid_public_key(bytes@),
            key_from_internal(
                key_to_internal(self@, NOAH_PUBLIC_KEY_LENGTH as nat),
                NOAH_PUBLIC_KEY_LENGTH as nat,
            ) == Ok::<_, XfrError>(bytes@),
    {
        proof {
            use_type_invariant(self);
            lemma_key_container(self@, NOAH_PUBLIC_KEY_LENGTH as nat);
        }
        self.bytes.clone()
    }

    /// A key from its compact bytes. Fails with `LengthError` where `bytes`
    /// is neither 32 bytes nor a Secp256k1 container, with
    /// `UnsupportedScheme` where it is the container of an Ethereum address,
    /// and with `FormatError` where the engine does not accept the key.
    pub fn noah_from_bytes(bytes: &[u8]) -> (r: Result<XfrPublicKey, XfrError>)
        ensures
            match r {
                Ok(key) => public_key_decode(bytes@) == Ok::<_, XfrError>(key@) && key@ == bytes@
                    && valid_public_key(key@),
                Err(e) => public_key_decode(bytes@) == Err::<Seq<u8>, _>(e),
            },
    {
        match classify(bytes, NOAH_PUBLIC_KEY_LENGTH) {
            Ok(_) => {},
            Err(e) => {
                return Err(e);
            },
        }
        let container = to_internal(bytes, NOAH_PUBLIC_KEY_LENGTH);
        if engine::accepts_public_key(container.as_slice()) {
            assert(bytes@.subrange(0, bytes@.len() as int) =~= bytes@);
            Ok(XfrPublicKey { bytes: crate::bytes::copy_range(bytes, 0, bytes.len()) })
        } else {
            Err(XfrError::FormatError)
        }
    }
}

/// Decoding the compact bytes of a valid key gives that key.
pub proof fn lemma_public_key_decode_encode(key: Seq<u8>)
    requires
        valid_public_key(key),
    ensures
        public_key_decode(key) == Ok::<_, XfrError>(key),
{
}

/// What decodes is a valid key, and its compact bytes are the bytes that were
/// decoded.
pub proof fn lemma_public_key_encode_decode(bytes: Seq<u8>)
    requires
        public_key_decode(bytes) is Ok,
    ensures
        public_key_decode(bytes)->Ok_0 == bytes,
        valid_public_key(bytes),
{
}

/// Converting a valid key to the engine's container and back gives the key
/// again.
pub proof fn lemma_public_key_round_trip(key: Seq<u8>)
    requires
        valid_public_key(key),
    ensures
        public_key_from_internal(key_to_internal(key, NOAH_PUBLIC_KEY_LENGTH as nat)) == Ok::<
            _,
            XfrError,
        >(key),
{
    lemma_key_container(key, NOAH_PUBLIC_KEY_LENGTH as nat);
}

/// What is found in a container is a valid key.
pub proof fn lemma_public_key_from_internal_valid(internal: Seq<u8>)
    requires
        public_key_from_internal(internal) is Ok,
    ensures
        valid_public_key(public_key_from_internal(internal)->Ok_0),
{
    lemma_key_from_internal_is_compact(internal, NOAH_PUBLIC_KEY_LENGTH as nat);
}

} // verus!
