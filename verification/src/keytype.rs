use vstd::prelude::*;
use crate::engine;

verus! {

/// The signature schemes that the engine tags its values with.
#[derive(Clone, Copy, Debug, PartialEq, Eq, Structural)]
pub enum KeyType {
    /// Ed25519, the scheme whose compact forms carry no tag.
    Ed25519,
    /// Secp256k1.
    Secp256k1,
    /// An address derived from a Secp256k1 key.
    EthAddress,
}

impl KeyType {
    /// The tag byte that the engine writes for a scheme.
    pub open spec fn tag(self) -> u8 {
        match self {
            KeyType::Ed25519 => 0u8,
            KeyType::Secp256k1 => 1u8,
            KeyType::EthAddress => 2u8,
        }
    }

    /// The scheme that the engine reads from a tag byte. Every byte that is
    /// not the tag of another scheme reads as Ed25519.
    pub open spec fn of_tag(byte: u8) -> KeyType {
        if byte == 1u8 {
            KeyType::Secp256k1
        } else if byte == 2u8 {
            KeyType::EthAddress
        } else {
            KeyType::Ed25519
        }
    }

    /// The engine's tag byte for this scheme.
    pub fn to_byte(&self) -> (byte: u8)
        ensures
            byte == self.tag(),
    {
        engine::key_type_to_byte(*self)
    }

    /// The scheme that the engine reads from `byte`.
    pub fn from_byte(byte: u8) -> (key_type: KeyType)
        ensures
            key_type == KeyType::of_tag(byte),
    {
        engine::key_type_from_byte(byte)
    }
}

/// Reading back a written tag gives the scheme that wrote it.
pub proof fn lemma_tag_round_trip(key_type: KeyType)
    ensures
        KeyType::of_tag(key_type.tag()) == key_type,
{
}

} // verus!
