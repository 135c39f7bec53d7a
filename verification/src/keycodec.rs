//! The layout of keys: which lengths a compact key may have under each
//! scheme, and where the engine's tagged container carries the tag.
//!
//! An Ed25519 key is compact as its 32 bytes of key material, without a tag.
//! A Secp256k1 key has no shorter form than the engine's container, tag
//! included, so its compact form is that container. The engine's container
//! has a fixed length for public keys and another for secret keys; the
//! functions here take that length as `container`.

use vstd::prelude::*;
use crate::bytes::{copy_range, frame, framed, lemma_framed};
use crate::error::XfrError;
use crate::keytype::KeyType;

verus! {

/// Length in bytes of the key material of an Ed25519 key, public or secret.
pub const ED25519_KEY_LENGTH: usize = 32;

/// The least length of a container: a tag and the material of one key.
pub const MIN_CONTAINER_LENGTH: usize = 33;

/// The scheme of the compact key `bytes`, or why it is not a compact key:
/// 32 bytes are an Ed25519 key; a container tagged Secp256k1 is a Secp256k1
/// key; a container tagged Ed25519 has the wrong length for its scheme; an
/// Ethereum address has no compact form.
pub open spec fn key_classify(bytes: Seq<u8>, container: nat) -> Result<KeyType, XfrError> {
    if bytes.len() == ED25519_KEY_LENGTH {
        Ok(KeyType::Ed25519)
    } else if bytes.len() == container {
        match KeyType::of_tag(bytes[0]) {
            KeyType::Secp256k1 => Ok(KeyType::Secp256k1),
            KeyType::Ed25519 => Err(XfrError::LengthError),
            KeyType::EthAddress => Err(XfrError::UnsupportedScheme),
        }
    } else {
        Err(XfrError::LengthError)
    }
}

/// Whether `bytes` has the layout of a compact key.
pub open spec fn is_compact_key(bytes: Seq<u8>, container: nat) -> bool {
    key_classify(bytes, container) is Ok
}

/// The engine's container for the compact key `compact`: an Ed25519 key gets
/// its tag in front and zero bytes behind, up to the container's length; a
/// Secp256k1 key is its container.
pub open spec fn key_to_internal(compact: Seq<u8>, container: nat) -> Seq<u8> {
    if compact.len() == ED25519_KEY_LENGTH {
        framed(KeyType::Ed25519.tag(), compact, (container - MIN_CONTAINER_LENGTH) as nat)
    } else {
        compact
    }
}

/// The compact key in the engine's container `internal`. A container of
/// another length is a format error; from an Ed25519 container the tag and
/// the padding are stripped; a Secp256k1 container is kept whole; an
/// Ethereum address has no compact form.
pub open spec fn key_from_internal(internal: Seq<u8>, container: nat) -> Result<
    Seq<u8>,
    XfrError,
> {
    if internal.len() != container {
        Err(XfrError::FormatError)
    } else {
        match KeyType::of_tag(internal[0]) {
            KeyType::Ed25519 => Ok(internal.subrange(1, 1 + ED25519_KEY_LENGTH as int)),
            KeyType::Secp256k1 => Ok(internal),
            KeyType::EthAddress => Err(XfrError::UnsupportedScheme),
        }
    }
}

/// The scheme of a compact key, or why `bytes` is not one.
pub(crate) fn classify(bytes: &[u8], container: usize) -> (r: Result<KeyType, XfrError>)
    requires
        container >= MIN_CONTAINER_LENGTH,
    ensures
        r == key_classify(bytes@, container as nat),
{
    if bytes.len() == ED25519_KEY_LENGTH {
        Ok(KeyType::Ed25519)
    } else if bytes.len() == container {
        match KeyType::from_byte(bytes[0]) {
            KeyType::Secp256k1 => Ok(KeyType::Secp256k1),
            KeyType::Ed25519 => Err(XfrError::LengthError),
            KeyType::EthAddress => Err(XfrError::UnsupportedScheme),
        }
    } else {
        Err(XfrError::LengthError)
    }
}

/// The engine's container for a compact key.
pub(crate) fn to_internal(compact: &[u8], container: usize) -> (internal: Vec<u8>)
    requires
        container >= MIN_CONTAINER_LENGTH,
        is_compact_key(compact@, container as nat),
    ensures
        internal@ == key_to_internal(compact@, container as nat),
        internal@.len() == container,
{
    if compact.len() == ED25519_KEY_LENGTH {
        proof {
            lemma_framed(
                KeyType::Ed25519.tag(),
                compact@,
                (container - MIN_CONTAINER_LENGTH) as nat,
            );
        }
        frame(KeyType::Ed25519.to_byte(), compact, container - MIN_CONTAINER_LENGTH)
    } else {
        assert(compact@.subrange(0, compact@.len() as int) =~= compact@);
        copy_range(compact, 0, compact.len())
    }
}

/// The compact key in an engine's container, or why it has none.
pub(crate) fn from_internal(internal: &[u8], container: usize) -> (r: Result<Vec<u8>, XfrError>)
    requires
        container >= MIN_CONTAINER_LENGTH,
    ensures
        match r {
            Ok(compact) => key_from_internal(internal@, container as nat) == Ok::<_, XfrError>(
                compact@,
            ) && is_compact_key(compact@, container as nat),
            Err(e) => key_from_internal(internal@, container as nat) == Err::<Seq<u8>, _>(e),
        },
{
    if internal.len() != container {
        return Err(XfrError::FormatError);
    }
    match KeyType::from_byte(internal[0]) {
        KeyType::Ed25519 => Ok(copy_range(internal, 1, 1 + ED25519_KEY_LENGTH)),
        KeyType::Secp256k1 => {
            assert(internal@.subrange(0, internal@.len() as int) =~= internal@);
            Ok(copy_range(internal, 0, internal.len()))
        },
        KeyType::EthAddress => Err(XfrError::UnsupportedScheme),
    }
}

/// The container of a compact key has the container's length and the tag of
/// the key's scheme, and the compact key is found in it again.
pub proof fn lemma_key_container(compact: Seq<u8>, container: nat)
    requires
        container >= MIN_CONTAINER_LENGTH,
        is_compact_key(compact, container),
    ensures
        key_to_internal(compact, container).len() == container,
        KeyType::of_tag(key_to_internal(compact, container)[0]) == key_classify(
            compact,
            container,
        )->Ok_0,
        key_from_internal(key_to_internal(compact, container), container) == Ok::<_, XfrError>(
            compact,
        ),
{
    if compact.len() == ED25519_KEY_LENGTH {
        lemma_framed(KeyType::Ed25519.tag(), compact, (container - MIN_CONTAINER_LENGTH) as nat);
    }
}

/// What is found in a container is a compact key, of the scheme that the
/// container's tag reads as.
pub proof fn lemma_key_from_internal_is_compact(internal: Seq<u8>, container: nat)
    requires
        container >= MIN_CONTAINER_LENGTH,
        key_from_internal(internal, container) is Ok,
    ensures
        key_classify(key_from_internal(internal, container)->Ok_0, container) == Ok::<
            _,
            XfrError,
        >(KeyType::of_tag(internal[0])),
{
}

/// Compact keys with the same container are the same key: the container
/// tells the schemes apart.
pub proof fn lemma_key_to_internal_injective(a: Seq<u8>, b: Seq<u8>, container: nat)
    requires
        container >= MIN_CONTAINER_LENGTH,
        is_compact_key(a, container),
        is_compact_key(b, container),
        key_to_internal(a, container) == key_to_internal(b, container),
    ensures
        a == b,
{
    lemma_key_container(a, container);
    lemma_key_container(b, container);
}

} // verus!
