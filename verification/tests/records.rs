use noah_api::xfr::structs::{AssetTracingProofs, AssetTypeAndAmountProof, XfrProofs};
use xfr_codec::{
    AssetRecordType, BlindAssetRecord, CompressedEdwardsY, KeyType, NoahBlindAssetRecord,
    NoahOwnerMemo, NoahPublicKey, NoahXfrBody, OwnerMemo, XfrAmount, XfrAssetType, XfrBody,
    XfrError, XfrPublicKey, ZeiHybridCipher,
};

fn key(first: u8) -> XfrPublicKey {
    let mut bytes = [0u8; 32];
    bytes[0] = first;
    XfrPublicKey::noah_from_bytes(&bytes).unwrap()
}

fn record(amount: XfrAmount, asset_type: XfrAssetType, first: u8) -> BlindAssetRecord {
    BlindAssetRecord { amount, asset_type, public_key: key(first) }
}

fn clear_amount() -> XfrAmount {
    XfrAmount::NonConfidential(100)
}

fn hidden_amount() -> XfrAmount {
    XfrAmount::Confidential(([1u8; 32], [2u8; 32]))
}

fn clear_type() -> XfrAssetType {
    XfrAssetType::NonConfidential([3u8; 32])
}

fn hidden_type() -> XfrAssetType {
    XfrAssetType::Confidential([4u8; 32])
}

fn memo(fill: u8) -> OwnerMemo {
    OwnerMemo {
        blind_share: CompressedEdwardsY::from_slice(&[fill; 32]).unwrap(),
        lock: ZeiHybridCipher::noah_from_bytes(&[fill; 40]).unwrap(),
    }
}

fn no_proofs() -> XfrProofs {
    XfrProofs {
        asset_type_and_amount_proof: AssetTypeAndAmountProof::NoProof,
        asset_tracing_proof: AssetTracingProofs::default(),
    }
}

fn body() -> XfrBody {
    XfrBody {
        inputs: vec![record(clear_amount(), clear_type(), 0)],
        outputs: vec![
            record(hidden_amount(), clear_type(), 1),
            record(clear_amount(), clear_type(), 3),
        ],
        proofs: no_proofs(),
        asset_tracing_memos: vec![vec![], vec![], vec![]],
        owners_memos: vec![Some(memo(9)), None],
    }
}

#[test]
fn record_types() {
    assert_eq!(
        record(clear_amount(), clear_type(), 0).get_record_type(),
        AssetRecordType::NonConfidentialAmount_NonConfidentialAssetType
    );
    assert_eq!(
        record(hidden_amount(), clear_type(), 0).get_record_type(),
        AssetRecordType::ConfidentialAmount_NonConfidentialAssetType
    );
    assert_eq!(
        record(clear_amount(), hidden_type(), 0).get_record_type(),
        AssetRecordType::NonConfidentialAmount_ConfidentialAssetType
    );
    assert_eq!(
        record(hidden_amount(), hidden_type(), 0).get_record_type(),
        AssetRecordType::ConfidentialAmount_ConfidentialAssetType
    );
    assert_eq!(
        AssetRecordType::from_flags(true, false),
        AssetRecordType::ConfidentialAmount_NonConfidentialAssetType
    );
}

#[test]
fn only_a_record_in_the_clear_is_public() {
    assert!(record(clear_amount(), clear_type(), 0).is_public());
    assert!(!record(hidden_amount(), clear_type(), 0).is_public());
    assert!(!record(clear_amount(), hidden_type(), 0).is_public());
    assert!(!record(hidden_amount(), hidden_type(), 0).is_public());
}

#[test]
fn record_type_follows_the_fields() {
    let mut r = record(clear_amount(), clear_type(), 0);
    assert!(r.is_public());
    r.amount = hidden_amount();
    assert!(!r.is_public());
    assert!(r.amount.is_confidential());
    assert!(!r.asset_type.is_confidential());
}

#[test]
fn record_round_trips() {
    let r = record(hidden_amount(), clear_type(), 1);
    let value = r.into_noah().unwrap();
    assert_eq!(value.amount, hidden_amount());
    assert_eq!(value.asset_type, clear_type());
    assert_eq!(value.public_key, r.public_key.into_noah().unwrap());
    assert_eq!(value.public_key.bytes.len(), 34);
    assert_eq!(BlindAssetRecord::from_noah(&value).unwrap(), r);
}

#[test]
fn record_with_a_bad_key_is_a_key_format_error() {
    let mut bytes = vec![0u8; 34];
    bytes[1] = 2;
    let value = NoahBlindAssetRecord {
        amount: clear_amount(),
        asset_type: clear_type(),
        public_key: NoahPublicKey { bytes },
    };
    assert_eq!(BlindAssetRecord::from_noah(&value), Err(XfrError::KeyFormatError));
    let value = NoahBlindAssetRecord {
        amount: clear_amount(),
        asset_type: clear_type(),
        public_key: NoahPublicKey { bytes: vec![0u8; 10] },
    };
    assert_eq!(BlindAssetRecord::from_noah(&value), Err(XfrError::KeyFormatError));
    let mut address = vec![0u8; 34];
    address[0] = 2;
    let value = NoahBlindAssetRecord {
        amount: clear_amount(),
        asset_type: clear_type(),
        public_key: NoahPublicKey { bytes: address },
    };
    assert_eq!(BlindAssetRecord::from_noah(&value), Err(XfrError::KeyFormatError));
}

#[test]
fn body_round_trips() {
    let b = body();
    let value = b.into_noah().unwrap();
    assert_eq!(value.inputs.len(), 1);
    assert_eq!(value.outputs.len(), 2);
    assert_eq!(value.owners_memos.len(), 2);
    assert_eq!(value.asset_tracing_memos.len(), 3);
    assert_eq!(value.proofs, no_proofs());
    assert_eq!(value.inputs[0], b.inputs[0].into_noah().unwrap());
    assert_eq!(value.outputs[0], b.outputs[0].into_noah().unwrap());
    assert_eq!(value.outputs[1], b.outputs[1].into_noah().unwrap());
    assert_eq!(value.owners_memos[0], Some(memo(9).into_noah()));
    assert_eq!(value.owners_memos[1], None);
    let back = XfrBody::from_noah(&value).unwrap();
    assert_eq!(back, b);
    assert_eq!(back.outputs.len(), back.owners_memos.len());
}

#[test]
fn empty_body_round_trips() {
    let b = XfrBody {
        inputs: vec![],
        outputs: vec![],
        proofs: no_proofs(),
        asset_tracing_memos: vec![],
        owners_memos: vec![],
    };
    let value = b.into_noah().unwrap();
    assert_eq!(XfrBody::from_noah(&value).unwrap(), b);
}

#[test]
fn body_without_a_place_for_each_memo_is_refused() {
    let mut b = body();
    b.owners_memos.pop();
    assert_eq!(b.into_noah(), Err(XfrError::LengthError));

    let mut value = body().into_noah().unwrap();
    value.owners_memos.push(None);
    assert_eq!(XfrBody::from_noah(&value), Err(XfrError::LengthError));
    let mut value = body().into_noah().unwrap();
    value.owners_memos.clear();
    assert_eq!(XfrBody::from_noah(&value), Err(XfrError::LengthError));
}

#[test]
fn body_with_a_bad_record_is_refused() {
    let mut value: NoahXfrBody = body().into_noah().unwrap();
    value.outputs[1].public_key.bytes[1] = 2;
    assert_eq!(XfrBody::from_noah(&value), Err(XfrError::KeyFormatError));
    let mut value = body().into_noah().unwrap();
    value.inputs[0].public_key.bytes.pop();
    assert_eq!(XfrBody::from_noah(&value), Err(XfrError::KeyFormatError));
}

#[test]
fn body_with_a_bad_memo_is_refused() {
    let mut value = body().into_noah().unwrap();
    value.owners_memos[1] = Some(NoahOwnerMemo {
        key_type: KeyType::Ed25519,
        blind_share_bytes: vec![0u8; 32],
        lock_bytes: vec![0u8; 3],
    });
    assert_eq!(XfrBody::from_noah(&value), Err(XfrError::FormatError));
}

#[test]
fn body_reports_the_first_failure() {
    // A bad input record and a bad memo: the record comes first.
    let mut value = body().into_noah().unwrap();
    value.inputs[0].public_key.bytes[1] = 2;
    value.owners_memos[0] = Some(NoahOwnerMemo {
        key_type: KeyType::Ed25519,
        blind_share_bytes: vec![],
        lock_bytes: vec![],
    });
    assert_eq!(XfrBody::from_noah(&value), Err(XfrError::KeyFormatError));
}

#[test]
fn memos_follow_the_outputs() {
    let b = body();
    assert!(b.memos_follow_outputs());

    // A memo for an output that has nothing confidential.
    let mut extra = body();
    extra.owners_memos[1] = Some(memo(5));
    assert!(!extra.memos_follow_outputs());
    // The conversions ask only for the places.
    assert!(extra.into_noah().is_ok());

    // No memo for an output with a confidential amount.
    let mut missing = body();
    missing.owners_memos[0] = None;
    assert!(!missing.memos_follow_outputs());

    let mut short = body();
    short.owners_memos.pop();
    assert!(!short.memos_follow_outputs());
}

#[test]
fn body_clone_is_equal() {
    let b = body();
    assert_eq!(b.clone(), b);
    let value = b.into_noah().unwrap();
    assert_eq!(value.clone(), value);
}
