//! Canonical wire encodings for the keys, signatures, owner memos, blinded
//! asset records and transfer bodies of a confidential-transfer ledger, and
//! exact conversions between those compact forms and the tagged
//! representation that the Noah engine works with.
//!
//! The compact form of an Ed25519 key or signature is its bare bytes; the
//! engine's form carries a scheme tag in front and, for public keys and
//! signatures, padding behind. This library shapes bytes and never does
//! curve arithmetic: whether bytes are a key, what a key signs and what a
//! signature verifies is asked of the engine, in `engine`.

pub mod error;
pub mod keytype;
pub mod engine;
pub mod bytes;
pub mod order;
pub mod ownermemo;
pub mod signature;
pub mod keycodec;
pub mod publickey;
pub mod secretkey;
pub mod keypair;
pub mod blindassetrecord;
pub mod xfrbody;

pub use blindassetrecord::{
    AssetRecordType,
    BlindAssetRecord,
    NoahBlindAssetRecord,
    XfrAmount,
    XfrAssetType,
};
pub use error::XfrError;
pub use keypair::{NoahKeyPair, XfrKeyPair};
pub use keytype::KeyType;
pub use ownermemo::{CompressedEdwardsY, NoahOwnerMemo, OwnerMemo, ZeiHybridCipher};
pub use publickey::{NoahPublicKey, XfrPublicKey};
pub use secretkey::{NoahSecretKey, XfrSecretKey};
pub use signature::{NoahSignature, XfrSignature};
pub use xfrbody::{NoahXfrBody, XfrBody};
