//! The calls into the Noah engine. Everything that the rest of the library
//! knows about the engine is what the contracts in this file say.

use vstd::prelude::*;
use noah_algebra::prelude::{CryptoRng, RngCore};
use noah_algebra::serialization::NoahFromToBytes;
use noah_api::xfr::asset_record::AssetRecordType as NoahAssetRecordType;
use crate::blindassetrecord::AssetRecordType;
use crate::keytype::KeyType;

verus! {

/// The proofs of a transfer, which this library carries and never reads.
#[verifier::external_type_specification]
#[verifier::external_body]
pub struct ExXfrProofs(noah_api::xfr::structs::XfrProofs);

/// A memo for an asset tracer, which this library carries and never reads.
#[verifier::external_type_specification]
#[verifier::external_body]
pub struct ExTracerMemo(noah_api::xfr::structs::TracerMemo);

/// Whether `PublicKey::noah_from_bytes` accepts `bytes`.
pub uninterp spec fn noah_accepts_public_key(bytes: Seq<u8>) -> bool;

/// Whether `SecretKey::noah_from_bytes` accepts `bytes`.
pub uninterp spec fn noah_accepts_secret_key(bytes: Seq<u8>) -> bool;

/// The engine's bytes of the public key that belongs to the secret key that
/// the engine reads from `secret`.
pub uninterp spec fn noah_public_key_of(secret: Seq<u8>) -> Seq<u8>;

/// The engine's bytes of the signature that the secret key read from
/// `secret` gives on `message`, where it gives one.
pub uninterp spec fn noah_signature(secret: Seq<u8>, message: Seq<u8>) -> Option<Seq<u8>>;

/// Whether the engine reads a signature from `signature` and the public key
/// read from `public` verifies it on `message`.
pub uninterp spec fn noah_verifies(public: Seq<u8>, message: Seq<u8>, signature: Seq<u8>) -> bool;

/// `noah_api::keys::KeyType::to_byte`: 0 for Ed25519, 1 for Secp256k1, 2 for
/// an Ethereum address.
#[verifier::external_body]
pub(crate) fn key_type_to_byte(key_type: KeyType) -> (byte: u8)
    ensures
        byte == key_type.tag(),
{
    match key_type {
        KeyType::Ed25519 => noah_api::keys::KeyType::Ed25519.to_byte(),
        KeyType::Secp256k1 => noah_api::keys::KeyType::Secp256k1.to_byte(),
        KeyType::EthAddress => noah_api::keys::KeyType::EthAddress.to_byte(),
    }
}

/// `noah_api::keys::KeyType::from_byte`: 1 reads as Secp256k1, 2 as an
/// Ethereum address, and every other byte as Ed25519.
#[verifier::external_body]
pub(crate) fn key_type_from_byte(byte: u8) -> (key_type: KeyType)
    ensures
        key_type == KeyType::of_tag(byte),
{
    match noah_api::keys::KeyType::from_byte(byte) {
        noah_api::keys::KeyType::Ed25519 => KeyType::Ed25519,
        noah_api::keys::KeyType::Secp256k1 => KeyType::Secp256k1,
        noah_api::keys::KeyType::EthAddress => KeyType::EthAddress,
    }
}

/// `noah_api::xfr::asset_record::AssetRecordType::from_flags`: the type named
/// after whether the amount, and whether the asset type, is confidential.
#[verifier::external_body]
pub(crate) fn record_type_from_flags(conf_amt: bool, conf_type: bool) -> (record_type:
    AssetRecordType)
    ensures
        record_type == AssetRecordType::of_flags(conf_amt, conf_type),
{
    match NoahAssetRecordType::from_flags(conf_amt, conf_type) {
        NoahAssetRecordType::NonConfidentialAmount_ConfidentialAssetType => {
            AssetRecordType::NonConfidentialAmount_ConfidentialAssetType
        },
        NoahAssetRecordType::ConfidentialAmount_NonConfidentialAssetType => {
            AssetRecordType::ConfidentialAmount_NonConfidentialAssetType
        },
        NoahAssetRecordType::ConfidentialAmount_ConfidentialAssetType => {
            AssetRecordType::ConfidentialAmount_ConfidentialAssetType
        },
        NoahAssetRecordType::NonConfidentialAmount_NonConfidentialAssetType => {
            AssetRecordType::NonConfidentialAmount_NonConfidentialAssetType
        },
    }
}

/// `PublicKey::noah_from_bytes`, asked only whether it accepts `bytes`. It
/// returns an error for what it does not accept and never panics.
#[verifier::external_body]
pub(crate) fn accepts_public_key(bytes: &[u8]) -> (ok: bool)
    ensures
        ok == noah_accepts_public_key(bytes@),
{
    noah_api::keys::PublicKey::noah_from_bytes(bytes).is_ok()
}

/// `SecretKey::noah_from_bytes`, asked only whether it accepts `bytes`. It
/// returns an error for what it does not accept and never panics.
#[verifier::external_body]
pub(crate) fn accepts_secret_key(bytes: &[u8]) -> (ok: bool)
    ensures
        ok == noah_accepts_secret_key(bytes@),
{
    noah_api::keys::SecretKey::noah_from_bytes(bytes).is_ok()
}

/// `SecretKey::into_keypair` on the key read from the tagged bytes `secret`,
/// and `PublicKey::noah_to_bytes` on its public half. The engine writes 34
/// bytes: the tag of the secret key's scheme, the key, and for Ed25519 one
/// zero byte; and it reads back the public keys that it writes.
#[verifier::external_body]
pub(crate) fn derive_public_key(secret: &[u8]) -> (public: Vec<u8>)
    requires
        noah_accepts_secret_key(secret@),
        secret@.len() == 33,
        secret@[0] == 0 || secret@[0] == 1,
    ensures
        public@ == noah_public_key_of(secret@),
        public@.len() == 34,
        public@[0] == secret@[0],
        secret@[0] == 0 ==> public@[33] == 0,
        noah_accepts_public_key(public@),
{
    let key = noah_api::keys::SecretKey::noah_from_bytes(secret).unwrap();
    key.into_keypair().get_pk().noah_to_bytes()
}

/// `SecretKey::sign` on the key read from the tagged bytes `secret`, and
/// `Signature::noah_to_bytes` on what it gives. An Ed25519 key always signs,
/// and its signature is written as 66 bytes that begin with the Ed25519 tag.
#[verifier::external_body]
pub(crate) fn sign(secret: &[u8], message: &[u8]) -> (signature: Option<Vec<u8>>)
    requires
        noah_accepts_secret_key(secret@),
        secret@.len() == 33,
    ensures
        match signature {
            Some(s) => noah_signature(secret@, message@) == Some(s@),
            None => noah_signature(secret@, message@).is_none(),
        },
        secret@[0] == 0 ==> signature.is_some() && signature.unwrap()@.len() == 66
            && signature.unwrap()@[0] == 0,
{
    let key = noah_api::keys::SecretKey::noah_from_bytes(secret).unwrap();
    match key.sign(message) {
        Ok(s) => Some(s.noah_to_bytes()),
        Err(_) => None,
    }
}

/// `Signature::noah_from_bytes` on `signature`, then `PublicKey::verify` on
/// the key read from `public`. A signature that the engine cannot read
/// counts as not verified.
#[verifier::external_body]
pub(crate) fn verify(public: &[u8], message: &[u8], signature: &[u8]) -> (ok: bool)
    requires
        noah_accepts_public_key(public@),
    ensures
        ok == noah_verifies(public@, message@, signature@),
{
    let key = noah_api::keys::PublicKey::noah_from_bytes(public).unwrap();
    match noah_api::keys::Signature::noah_from_bytes(signature) {
        Ok(s) => key.verify(message, &s).is_ok(),
        Err(_) => false,
    }
}

/// `KeyPair::generate_ed25519`, of which the secret key is kept, written by
/// `SecretKey::noah_to_bytes`: the Ed25519 tag and 32 bytes, which the engine
/// reads back.
#[verifier::external_body]
pub(crate) fn sample_ed25519_secret<R: CryptoRng + RngCore>(prng: &mut R) -> (secret: Vec<u8>)
    ensures
        secret@.len() == 33,
        secret@[0] == 0,
        noah_accepts_secret_key(secret@),
{
    noah_api::keys::KeyPair::generate_ed25519(prng).get_sk().noah_to_bytes()
}

/// `KeyPair::generate_secp256k1`, of which the secret key is kept, written by
/// `SecretKey::noah_to_bytes`: the Secp256k1 tag and 32 bytes, which the
/// engine reads back.
#[verifier::external_body]
pub(crate) fn sample_secp256k1_secret<R: CryptoRng + RngCore>(prng: &mut R) -> (secret: Vec<u8>)
    ensures
        secret@.len() == 33,
        secret@[0] == 1,
        noah_accepts_secret_key(secret@),
{
    noah_api::keys::KeyPair::generate_secp256k1(prng).get_sk().noah_to_bytes()
}

/// `XPublicKey::noah_from_bytes`, and `noah_to_bytes` on what it gives. The
/// engine takes exactly 32 bytes, keeps them as they are, and gives them
/// back.
#[verifier::external_body]
pub(crate) fn x_public_key_bytes(bytes: &[u8]) -> (key: Option<Vec<u8>>)
    ensures
        key.is_some() == (bytes@.len() == 32),
        key.is_some() ==> key.unwrap()@ == bytes@,
{
    match noah_crypto::basic::hybrid_encryption::XPublicKey::noah_from_bytes(bytes) {
        Ok(k) => Some(k.noah_to_bytes()),
        Err(_) => None,
    }
}

/// `Ctext::noah_from_bytes`, and `noah_to_bytes` on what it gives. The engine
/// takes any bytes, keeps them as they are, and gives them back.
#[verifier::external_body]
pub(crate) fn ctext_bytes(bytes: &[u8]) -> (ctext: Option<Vec<u8>>)
    ensures
        ctext.is_some(),
        ctext.unwrap()@ == bytes@,
{
    match noah_crypto::basic::hybrid_encryption::Ctext::noah_from_bytes(bytes) {
        Ok(c) => Some(c.noah_to_bytes()),
        Err(_) => None,
    }
}

/// `CompressedEdwardsY::from_slice`, and `to_bytes` on what it gives. The
/// engine copies 32 bytes, without decompressing them, and panics on any
/// other length.
#[verifier::external_body]
pub(crate) fn compressed_edwards_y_bytes(bytes: &[u8]) -> (point: Vec<u8>)
    requires
        bytes@.len() == 32,
    ensures
        point@ == bytes@,
{
    noah_algebra::ristretto::CompressedEdwardsY::from_slice(bytes).to_bytes().to_vec()
}

/// `XfrProofs::clone`, which the engine derives: a copy equal to the proofs
/// that were cloned.
#[verifier::external_body]
pub(crate) fn clone_proofs(proofs: &noah_api::xfr::structs::XfrProofs) -> (copy:
    noah_api::xfr::structs::XfrProofs)
    ensures
        copy == *proofs,
{
    proofs.clone()
}

/// `TracerMemo::clone`, which the engine derives, on each memo of each list:
/// lists of the same lengths, with equal memos at each place.
#[verifier::external_body]
pub(crate) fn clone_tracer_memos(memos: &Vec<Vec<noah_api::xfr::structs::TracerMemo>>) -> (copy:
    Vec<Vec<noah_api::xfr::structs::TracerMemo>>)
    ensures
        copy@.len() == memos@.len(),
        forall|i: int| 0 <= i < memos@.len() ==> (#[trigger] copy@[i])@ == memos@[i]@,
{
    memos.clone()
}

} // verus!
