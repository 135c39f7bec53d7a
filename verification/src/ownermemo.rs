//! Owner memos: a blinding share and a hybrid ciphertext, addressed to the
//! holder of a record's secret key.

use vstd::prelude::*;
use crate::blindassetrecord::AssetRecordType;
use crate::bytes::{concat, copy_range};
use crate::engine;
use crate::error::XfrError;
use crate::keytype::KeyType;

verus! {

/// Length in bytes of the ephemeral public key that leads a hybrid
/// ciphertext.
pub const EPHEMERAL_KEY_LENGTH: usize = 32;

/// Length in bytes of a compressed Edwards point.
pub const COMPRESSED_POINT_LENGTH: usize = 32;

/// Length in bytes of the ciphertext of an amount.
pub const LOCKED_AMOUNT_LENGTH: usize = 8;

/// Length in bytes of the ciphertext of an asset type.
pub const LOCKED_ASSET_TYPE_LENGTH: usize = 32;

/// The length that the lock of a memo for a record of the type
/// `record_type` is expected to have: the ephemeral key, then 8 bytes where
/// the amount is confidential and 32 bytes where the asset type is. A record
/// with nothing confidential has no memo. No conversion asks for this
/// length.
pub open spec fn expected_lock_length(record_type: AssetRecordType) -> Option<nat> {
    match record_type {
        AssetRecordType::NonConfidentialAmount_NonConfidentialAssetType => None,
        AssetRecordType::ConfidentialAmount_NonConfidentialAssetType => Some(
            (EPHEMERAL_KEY_LENGTH + LOCKED_AMOUNT_LENGTH) as nat,
        ),
        AssetRecordType::NonConfidentialAmount_ConfidentialAssetType => Some(
            (EPHEMERAL_KEY_LENGTH + LOCKED_ASSET_TYPE_LENGTH) as nat,
        ),
        AssetRecordType::ConfidentialAmount_ConfidentialAssetType => Some(
            (EPHEMERAL_KEY_LENGTH + LOCKED_AMOUNT_LENGTH + LOCKED_ASSET_TYPE_LENGTH) as nat,
        ),
    }
}

/// What a hybrid ciphertext holds.
pub struct HybridCipherView {
    /// The ephemeral public key.
    pub ephemeral_public_key: Seq<u8>,
    /// The symmetric ciphertext, possibly empty.
    pub ciphertext: Seq<u8>,
}

impl HybridCipherView {
    /// The ephemeral key has its fixed length.
    pub open spec fn wf(self) -> bool {
        self.ephemeral_public_key.len() == EPHEMERAL_KEY_LENGTH
    }

    /// The flat encoding: the ephemeral key first, then the ciphertext.
    pub open spec fn encode(self) -> Seq<u8> {
        self.ephemeral_public_key + self.ciphertext
    }

    /// What the flat encoding `bytes` decodes to: it is split after the
    /// ephemeral key, and is too short if it cannot hold one.
    pub open spec fn decode(bytes: Seq<u8>) -> Result<HybridCipherView, XfrError> {
        if bytes.len() < EPHEMERAL_KEY_LENGTH {
            Err(XfrError::LengthError)
        } else {
            Ok(
                HybridCipherView {
                    ephemeral_public_key: bytes.subrange(0, EPHEMERAL_KEY_LENGTH as int),
                    ciphertext: bytes.subrange(EPHEMERAL_KEY_LENGTH as int, bytes.len() as int),
                },
            )
        }
    }
}

/// A hybrid ciphertext: an ephemeral public key and a symmetric ciphertext.
#[derive(Debug, PartialEq, Eq)]
pub struct ZeiHybridCipher {
    pub(crate) ciphertext: Vec<u8>,
    pub(crate) ephemeral_public_key: Vec<u8>,
}

impl View for ZeiHybridCipher {
    type V = HybridCipherView;

    closed spec fn view(&self) -> HybridCipherView {
        HybridCipherView {
            ephemeral_public_key: self.ephemeral_public_key@,
            ciphertext: self.ciphertext@,
        }
    }
}

impl Clone for ZeiHybridCipher {
    fn clone(&self) -> (copy: Self)
        ensures
            copy@ == self@,
    {
        proof {
            use_type_invariant(self);
        }
        ZeiHybridCipher {
            ciphertext: self.ciphertext.clone(),
            ephemeral_public_key: self.ephemeral_public_key.clone(),
        }
    }
}

impl ZeiHybridCipher {
    /// Every ciphertext that exists is well formed.
    #[verifier::type_invariant]
    pub open spec fn inv(&self) -> bool {
        self@.wf()
    }

    /// The flat encoding of this ciphertext.
    pub fn noah_to_bytes(&self) -> (bytes: Vec<u8>)
        ensures
            bytes@ == self@.encode(),
            bytes@.len() == EPHEMERAL_KEY_LENGTH + self@.ciphertext.len(),
    {
        proof {
            use_type_invariant(self);
        }
        concat(self.ephemeral_public_key.as_slice(), self.ciphertext.as_slice())
    }

    /// Decodes a flat encoding. Fails with `LengthError` where `bytes` cannot
    /// hold an ephemeral key, and on nothing else.
    pub fn noah_from_bytes(bytes: &[u8]) -> (r: Result<ZeiHybridCipher, XfrError>)
        ensures
            match r {
                Ok(cipher) => HybridCipherView::decode(bytes@) == Ok::<_, XfrError>(cipher@),
                Err(e) => HybridCipherView::decode(bytes@) == Err::<HybridCipherView, _>(e),
            },
            r is Ok ==> r->Ok_0@.wf(),
            bytes@.len() < EPHEMERAL_KEY_LENGTH ==> r is Err && r->Err_0 == XfrError::LengthError,
            bytes@.len() >= EPHEMERAL_KEY_LENGTH ==> r is Ok,
    {
        if bytes.len() < EPHEMERAL_KEY_LENGTH {
            return Err(XfrError::LengthError);
        }
        let head = copy_range(bytes, 0, EPHEMERAL_KEY_LENGTH);
        let tail = copy_range(bytes, EPHEMERAL_KEY_LENGTH, bytes.len());
        Self::from_parsed(
            engine::x_public_key_bytes(head.as_slice()),
            engine::ctext_bytes(tail.as_slice()),
        )
    }

    /// Assembles a ciphertext from what the engine made of its two halves.
    /// Fails with `FormatError` where the engine refused a half or gave an
    /// ephemeral key of another length.
    pub fn from_parsed(
        ephemeral_public_key: Option<Vec<u8>>,
        ciphertext: Option<Vec<u8>>,
    ) -> (r: Result<ZeiHybridCipher, XfrError>)
        ensures
            match r {
                Ok(cipher) => ephemeral_public_key is Some && ciphertext is Some && cipher@
                    == (HybridCipherView {
                    ephemeral_public_key: ephemeral_public_key->Some_0@,
                    ciphertext: ciphertext->Some_0@,
                }) && cipher@.wf(),
                Err(e) => e == XfrError::FormatError && (ephemeral_public_key is None
                    || ciphertext is None || ephemeral_public_key->Some_0@.len()
                    != EPHEMERAL_KEY_LENGTH),
            },
    {
        match (ephemeral_public_key, ciphertext) {
            (Some(key), Some(text)) => {
                if key.len() != EPHEMERAL_KEY_LENGTH {
                    Err(XfrError::FormatError)
                } else {
                    Ok(ZeiHybridCipher { ciphertext: text, ephemeral_public_key: key })
                }
            },
            _ => Err(XfrError::FormatError),
        }
    }
}

/// Decoding the encoding of a well-formed ciphertext gives it back, and the
/// encoding is as long as the ephemeral key and the ciphertext together.
pub proof fn lemma_hybrid_cipher_decode_encode(cipher: HybridCipherView)
    requires
        cipher.wf(),
    ensures
        HybridCipherView::decode(cipher.encode()) == Ok::<_, XfrError>(cipher),
        cipher.encode().len() == EPHEMERAL_KEY_LENGTH + cipher.ciphertext.len(),
{
    let bytes = cipher.encode();
    assert(bytes.subrange(0, EPHEMERAL_KEY_LENGTH as int) =~= cipher.ephemeral_public_key);
    assert(bytes.subrange(EPHEMERAL_KEY_LENGTH as int, bytes.len() as int) =~= cipher.ciphertext);
}

/// Encoding what a flat encoding decodes to gives the same bytes back.
pub proof fn lemma_hybrid_cipher_encode_decode(bytes: Seq<u8>)
    requires
        bytes.len() >= EPHEMERAL_KEY_LENGTH,
    ensures
        HybridCipherView::decode(bytes) is Ok,
        HybridCipherView::decode(bytes)->Ok_0.wf(),
        HybridCipherView::decode(bytes)->Ok_0.encode() == bytes,
{
    assert(HybridCipherView::decode(bytes)->Ok_0.encode() =~= bytes);
}

/// Every encoding that is shorter than an ephemeral key is refused for its
/// length.
pub proof fn lemma_hybrid_cipher_too_short(bytes: Seq<u8>)
    requires
        bytes.len() < EPHEMERAL_KEY_LENGTH,
    ensures
        HybridCipherView::decode(bytes) == Err::<HybridCipherView, _>(XfrError::LengthError),
{
}

/// A compressed Edwards point: 32 bytes, kept as they were given and never
/// decompressed here.
#[derive(Debug, PartialEq, Eq)]
pub struct CompressedEdwardsY {
    pub(crate) bytes: Vec<u8>,
}

impl View for CompressedEdwardsY {
    type V = Seq<u8>;

    closed spec fn view(&self) -> Seq<u8> {
        self.bytes@
    }
}

impl Clone for CompressedEdwardsY {
    fn clone(&self) -> (copy: Self)
        ensures
            copy@ == self@,
    {
        proof {
            use_type_invariant(self);
        }
        CompressedEdwardsY { bytes: self.bytes.clone() }
    }
}

impl CompressedEdwardsY {
    /// Every point that exists has the fixed length.
    #[verifier::type_invariant]
    pub open spec fn inv(&self) -> bool {
        self@.len() == COMPRESSED_POINT_LENGTH
    }

    /// A point from its 32 bytes. Fails with `LengthError` on any other
    /// length.
    pub fn from_slice(bytes: &[u8]) -> (r: Result<CompressedEdwardsY, XfrError>)
        ensures
            match r {
                Ok(point) => bytes@.len() == COMPRESSED_POINT_LENGTH && point@ == bytes@,
                Err(e) => bytes@.len() != COMPRESSED_POINT_LENGTH && e == XfrError::LengthError,
            },
    {
        if bytes.len() != COMPRESSED_POINT_LENGTH {
            return Err(XfrError::LengthError);
        }
        Ok(CompressedEdwardsY { bytes: engine::compressed_edwards_y_bytes(bytes) })
    }

    /// The 32 bytes of the point.
    pub fn to_bytes(&self) -> (bytes: Vec<u8>)
        ensures
            bytes@ == self@,
            bytes@.len() == COMPRESSED_POINT_LENGTH,
    {
        proof {
            use_type_invariant(self);
        }
        self.bytes.clone()
    }
}

/// What an owner memo holds.
pub struct OwnerMemoView {
    /// The blinding share, a compressed point.
    pub blind_share: Seq<u8>,
    /// The ciphertext locked to the owner's key.
    pub lock: HybridCipherView,
}

/// What the engine's owner memo holds.
pub struct NoahOwnerMemoView {
    /// The scheme of the key that the memo was made for.
    pub key_type: KeyType,
    /// The bytes of the blinding share.
    pub blind_share_bytes: Seq<u8>,
    /// The flat encoding of the ciphertext.
    pub lock_bytes: Seq<u8>,
}

impl OwnerMemoView {
    /// The share is a compressed point and the lock is well formed.
    pub open spec fn wf(self) -> bool {
        self.blind_share.len() == COMPRESSED_POINT_LENGTH && self.lock.wf()
    }

    /// The engine's memo for this memo: the scheme is Ed25519, the share is
    /// copied and the lock is encoded.
    pub open spec fn into_noah(self) -> NoahOwnerMemoView {
        NoahOwnerMemoView {
            key_type: KeyType::Ed25519,
            blind_share_bytes: self.blind_share,
            lock_bytes: self.lock.encode(),
        }
    }

    /// The memo for an engine's memo, whose scheme is not read: a share of
    /// another length than a compressed point, or a lock that does not
    /// decode, is a format error.
    pub open spec fn from_noah(value: NoahOwnerMemoView) -> Result<OwnerMemoView, XfrError> {
        if value.blind_share_bytes.len() != COMPRESSED_POINT_LENGTH {
            Err(XfrError::FormatError)
        } else {
            match HybridCipherView::decode(value.lock_bytes) {
                Ok(lock) => Ok(OwnerMemoView { blind_share: value.blind_share_bytes, lock }),
                Err(_) => Err(XfrError::FormatError),
            }
        }
    }
}

/// Information directed to the holder of the secret key of a record.
#[derive(Debug, PartialEq, Eq)]
pub struct OwnerMemo {
    /// The blinding share.
    pub blind_share: CompressedEdwardsY,
    /// The ciphertext locked to the owner's key.
    pub lock: ZeiHybridCipher,
}

impl View for OwnerMemo {
    type V = OwnerMemoView;

    open spec fn view(&self) -> OwnerMemoView {
        OwnerMemoView { blind_share: self.blind_share@, lock: self.lock@ }
    }
}

/// The engine's owner memo, as the plain values that it holds.
#[derive(Debug, PartialEq, Eq)]
pub struct NoahOwnerMemo {
    /// The scheme of the key that the memo was made for.
    pub key_type: KeyType,
    /// The bytes of the blinding share.
    pub blind_share_bytes: Vec<u8>,
    /// The flat encoding of the ciphertext.
    pub lock_bytes: Vec<u8>,
}

impl View for NoahOwnerMemo {
    type V = NoahOwnerMemoView;

    open spec fn view(&self) -> NoahOwnerMemoView {
        NoahOwnerMemoView {
            key_type: self.key_type,
            blind_share_bytes: self.blind_share_bytes@,
            lock_bytes: self.lock_bytes@,
        }
    }
}

impl Clone for OwnerMemo {
    fn clone(&self) -> (copy: Self)
        ensures
            copy@ == self@,
    {
        OwnerMemo { blind_share: self.blind_share.clone(), lock: self.lock.clone() }
    }
}

impl Clone for NoahOwnerMemo {
    fn clone(&self) -> (copy: Self)
        ensures
            copy@ == self@,
    {
        NoahOwnerMemo {
            key_type: self.key_type,
            blind_share_bytes: self.blind_share_bytes.clone(),
            lock_bytes: self.lock_bytes.clone(),
        }
    }
}

impl OwnerMemo {
    /// The engine's memo for this memo.
    pub fn into_noah(&self) -> (value: NoahOwnerMemo)
        ensures
            value@ == self@.into_noah(),
            self@.wf(),
            value@.lock_bytes.len() == EPHEMERAL_KEY_LENGTH + self@.lock.ciphertext.len(),
    {
        proof {
            use_type_invariant(&self.blind_share);
            use_type_invariant(&self.lock);
        }
        NoahOwnerMemo {
            key_type: KeyType::Ed25519,
            blind_share_bytes: self.blind_share.to_bytes(),
            lock_bytes: self.lock.noah_to_bytes(),
        }
    }

    /// Whether the lock of this memo has the length that is expected for a
    /// record of the type `record_type`. A check for callers: the conversions
    /// accept a lock of any length that decodes.
    pub fn has_expected_lock_length(&self, record_type: AssetRecordType) -> (b: bool)
        ensures
            b == (expected_lock_length(record_type) == Some(self@.lock.encode().len())),
    {
        let length = self.lock.noah_to_bytes().len();
        match record_type {
            AssetRecordType::NonConfidentialAmount_NonConfidentialAssetType => false,
            AssetRecordType::ConfidentialAmount_NonConfidentialAssetType => {
                length == EPHEMERAL_KEY_LENGTH + LOCKED_AMOUNT_LENGTH
            },
            AssetRecordType::NonConfidentialAmount_ConfidentialAssetType => {
                length == EPHEMERAL_KEY_LENGTH + LOCKED_ASSET_TYPE_LENGTH
            },
            AssetRecordType::ConfidentialAmount_ConfidentialAssetType => {
                length == EPHEMERAL_KEY_LENGTH + LOCKED_AMOUNT_LENGTH + LOCKED_ASSET_TYPE_LENGTH
            },
        }
    }

    /// The memo for an engine's memo. Fails with `FormatError` where the
    /// share is not as long as a compressed point or the lock is too short to
    /// decode, and on nothing else.
    pub fn from_noah(value: &NoahOwnerMemo) -> (r: Result<OwnerMemo, XfrError>)
        ensures
            match r {
                Ok(memo) => OwnerMemoView::from_noah(value@) == Ok::<_, XfrError>(memo@)
                    && memo@.wf(),
                Err(e) => OwnerMemoView::from_noah(value@) == Err::<OwnerMemoView, _>(e),
            },
            r is Ok <==> value@.blind_share_bytes.len() == COMPRESSED_POINT_LENGTH
                && value@.lock_bytes.len() >= EPHEMERAL_KEY_LENGTH,
    {
        let blind_share = match CompressedEdwardsY::from_slice(value.blind_share_bytes.as_slice()) {
            Ok(point) => point,
            Err(_) => {
                return Err(XfrError::FormatError);
            },
        };
        match ZeiHybridCipher::noah_from_bytes(value.lock_bytes.as_slice()) {
            Ok(lock) => Ok(OwnerMemo { blind_share, lock }),
            Err(_) => Err(XfrError::FormatError),
        }
    }
}

/// Converting a well-formed memo to the engine's memo and back gives the memo
/// again, and the engine's lock is as long as the ephemeral key and the
/// ciphertext together.
pub proof fn lemma_owner_memo_round_trip(memo: OwnerMemoView)
    requires
        memo.wf(),
    ensures
        OwnerMemoView::from_noah(memo.into_noah()) == Ok::<_, XfrError>(memo),
        memo.into_noah().lock_bytes.len() == EPHEMERAL_KEY_LENGTH + memo.lock.ciphertext.len(),
{
    lemma_hybrid_cipher_decode_encode(memo.lock);
}

/// An engine's memo that converts and is marked Ed25519 is what its memo
/// converts back to.
pub proof fn lemma_owner_memo_noah_round_trip(value: NoahOwnerMemoView)
    requires
        OwnerMemoView::from_noah(value) is Ok,
        value.key_type == KeyType::Ed25519,
    ensures
        OwnerMemoView::from_noah(value)->Ok_0.into_noah() == value,
{
    lemma_hybrid_cipher_encode_decode(value.lock_bytes);
}

} // verus!
