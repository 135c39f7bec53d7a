//! Blinded asset records: an amount and an asset type, each in the clear or
//! behind a commitment, and the owner's public key.

use vstd::prelude::*;
use crate::engine;
use crate::error::XfrError;
use crate::keycodec::key_to_internal;
use crate::publickey::{
    lemma_public_key_round_trip,
    public_key_from_internal,
    valid_public_key,
    NoahPublicKey,
    XfrPublicKey,
    NOAH_PUBLIC_KEY_LENGTH,
};

verus! {

/// Which of the amount and the asset type of a record are confidential.
#[allow(non_camel_case_types)]
#[derive(Clone, Copy, Debug, PartialEq, Eq, Structural)]
pub enum AssetRecordType {
    /// The amount in the clear, the asset type behind a commitment.
    NonConfidentialAmount_ConfidentialAssetType,
    /// The amount behind commitments, the asset type in the clear.
    ConfidentialAmount_NonConfidentialAssetType,
    /// Both behind commitments.
    ConfidentialAmount_ConfidentialAssetType,
    /// Both in the clear.
    NonConfidentialAmount_NonConfidentialAssetType,
}

impl AssetRecordType {
    /// The type of a record whose amount is confidential or not, and whose
    /// asset type is confidential or not.
    pub open spec fn of_flags(conf_amt: bool, conf_type: bool) -> AssetRecordType {
        if conf_amt {
            if conf_type {
                AssetRecordType::ConfidentialAmount_ConfidentialAssetType
            } else {
                AssetRecordType::ConfidentialAmount_NonConfidentialAssetType
            }
        } else {
            if conf_type {
                AssetRecordType::NonConfidentialAmount_ConfidentialAssetType
            } else {
                AssetRecordType::NonConfidentialAmount_NonConfidentialAssetType
            }
        }
    }

    /// The type of a record from its two flags.
    pub fn from_flags(conf_amt: bool, conf_type: bool) -> (record_type: AssetRecordType)
        ensures
            record_type == AssetRecordType::of_flags(conf_amt, conf_type),
    {
        engine::record_type_from_flags(conf_amt, conf_type)
    }
}

/// The amount of a record.
#[derive(Clone, Copy, Debug, PartialEq, Eq)]
pub enum XfrAmount {
    /// Commitments to the low and to the high 32 bits of the amount.
    Confidential(([u8; 32], [u8; 32])),
    /// The amount in the clear.
    NonConfidential(u64),
}

/// The asset type of a record.
#[derive(Clone, Copy, Debug, PartialEq, Eq)]
pub enum XfrAssetType {
    /// A commitment to the asset type.
    Confidential([u8; 32]),
    /// The asset type in the clear.
    NonConfidential([u8; 32]),
}

impl XfrAmount {
    /// Whether the amount is behind commitments.
    pub fn is_confidential(&self) -> (b: bool)
        ensures
            b == (*self is Confidential),
    {
        match self {
            XfrAmount::Confidential(_) => true,
            XfrAmount::NonConfidential(_) => false,
        }
    }
}

impl XfrAssetType {
    /// Whether the asset type is behind a commitment.
    pub fn is_confidential(&self) -> (b: bool)
        ensures
            b == (*self is Confidential),
    {
        match self {
            XfrAssetType::Confidential(_) => true,
            XfrAssetType::NonConfidential(_) => false,
        }
    }
}

/// What a record holds.
pub struct RecordView {
    /// The amount.
    pub amount: XfrAmount,
    /// The asset type.
    pub asset_type: XfrAssetType,
    /// The owner's compact public key.
    pub public_key: Seq<u8>,
}

/// What the engine's record holds.
pub struct NoahRecordView {
    /// The amount.
    pub amount: XfrAmount,
    /// The asset type.
    pub asset_type: XfrAssetType,
    /// The container of the owner's public key.
    pub public_key: Seq<u8>,
}

impl RecordView {
    /// The owner's key is a valid compact public key.
    pub open spec fn wf(self) -> bool {
        valid_public_key(self.public_key)
    }

    /// The type of the record, from what its amount and asset type are now.
    pub open spec fn record_type(self) -> AssetRecordType {
        AssetRecordType::of_flags(self.amount is Confidential, self.asset_type is Confidential)
    }

    /// Whether nothing in the record is confidential.
    pub open spec fn is_public(self) -> bool {
        self.record_type() == AssetRecordType::NonConfidentialAmount_NonConfidentialAssetType
    }

    /// The engine's record for this record: the amount and the asset type as
    /// they are, and the container of the owner's key.
    pub open spec fn into_noah(self) -> NoahRecordView {
        NoahRecordView {
            amount: self.amount,
            asset_type: self.asset_type,
            public_key: key_to_internal(self.public_key, NOAH_PUBLIC_KEY_LENGTH as nat),
        }
    }

    /// The record for an engine's record: the amount and the asset type as
    /// they are, and the compact key found in the container. Whatever keeps
    /// the key from converting is a key format error.
    pub open spec fn from_noah(value: NoahRecordView) -> Result<RecordView, XfrError> {
        match public_key_from_internal(value.public_key) {
            Ok(key) => Ok(
                RecordView { amount: value.amount, asset_type: value.asset_type, public_key: key },
            ),
            Err(_) => Err(XfrError::KeyFormatError),
        }
    }
}

/// A transfer input or output record as it is seen in the ledger.
#[derive(Debug, PartialEq, Eq)]
pub struct BlindAssetRecord {
    /// The amount being transferred.
    pub amount: XfrAmount,
    /// The asset type being transferred.
    pub asset_type: XfrAssetType,
    /// The owner's address.
    pub public_key: XfrPublicKey,
}

impl View for BlindAssetRecord {
    type V = RecordView;

    open spec fn view(&self) -> RecordView {
        RecordView {
            amount: self.amount,
            asset_type: self.asset_type,
            public_key: self.public_key@,
        }
    }
}

impl Clone for BlindAssetRecord {
    fn clone(&self) -> (copy: Self)
        ensures
            copy@ == self@,
    {
        BlindAssetRecord {
            amount: self.amount,
            asset_type: self.asset_type,
            public_key: self.public_key.clone(),
        }
    }
}

/// The engine's record, as the plain values that it holds.
#[derive(Debug, PartialEq, Eq)]
pub struct NoahBlindAssetRecord {
    /// The amount.
    pub amount: XfrAmount,
    /// The asset type.
    pub asset_type: XfrAssetType,
    /// The owner's public key.
    pub public_key: NoahPublicKey,
}

impl View for NoahBlindAssetRecord {
    type V = NoahRecordView;

    open spec fn view(&self) -> NoahRecordView {
        NoahRecordView {
            amount: self.amount,
            asset_type: self.asset_type,
            public_key: self.public_key@,
        }
    }
}

impl Clone for NoahBlindAssetRecord {
    fn clone(&self) -> (copy: Self)
        ensures
            copy@ == self@,
    {
        NoahBlindAssetRecord {
            amount: self.amount,
            asset_type: self.asset_type,
            public_key: self.public_key.clone(),
        }
    }
}

impl BlindAssetRecord {
    /// The type of this record, computed from its amount and asset type.
    pub fn get_record_type(&self) -> (record_type: AssetRecordType)
        ensures
            record_type == self@.record_type(),
    {
        AssetRecordType::from_flags(
            self.amount.is_confidential(),
            self.asset_type.is_confidential(),
        )
    }

    /// Whether neither the amount nor the asset type is confidential.
    pub fn is_public(&self) -> (b: bool)
        ensures
            b == self@.is_public(),
            b == (self@.amount is NonConfidential && self@.asset_type is NonConfidential),
    {
        match self.get_record_type() {
            AssetRecordType::NonConfidentialAmount_NonConfidentialAssetType => true,
            _ => false,
        }
    }

    /// The engine's record for this record. Never fails.
    pub fn into_noah(&self) -> (r: Result<NoahBlindAssetRecord, XfrError>)
        ensures
            r is Ok,
            r->Ok_0@ == self@.into_noah(),
            self@.wf(),
    {
        match self.public_key.into_noah() {
            Ok(public_key) => Ok(
                NoahBlindAssetRecord {
                    amount: self.amount,
                    asset_type: self.asset_type,
                    public_key,
                },
            ),
            Err(e) => Err(e),
        }
    }

    /// The record for an engine's record. Fails with `KeyFormatError` where
    /// [`XfrPublicKey::from_noah`] fails on the owner's key, and on nothing
    /// else.
    pub fn from_noah(value: &NoahBlindAssetRecord) -> (r: Result<BlindAssetRecord, XfrError>)
        ensures
            match r {
                Ok(record) => RecordView::from_noah(value@) == Ok::<_, XfrError>(record@)
                    && record@.wf(),
                Err(e) => RecordView::from_noah(value@) == Err::<RecordView, _>(e),
            },
    {
        match XfrPublicKey::from_noah(&value.public_key) {
            Ok(public_key) => Ok(
                BlindAssetRecord {
                    amount: value.amount,
                    asset_type: value.asset_type,
                    public_key,
                },
            ),
            Err(_) => Err(XfrError::KeyFormatError),
        }
    }
}

/// A record is public where its amount and its asset type are both in the
/// clear, and in no other case.
pub proof fn lemma_record_is_public(record: RecordView)
    ensures
        record.is_public() <==> (record.amount is NonConfidential
            && record.asset_type is NonConfidential),
{
}

/// Converting a well-formed record to the engine's record and back gives the
/// record again.
pub proof fn lemma_record_round_trip(record: RecordView)
    requires
        record.wf(),
    ensures
        RecordView::from_noah(record.into_noah()) == Ok::<_, XfrError>(record),
{
    lemma_public_key_round_trip(record.public_key);
}

} // verus!
