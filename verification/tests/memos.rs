use xfr_codec::{
    AssetRecordType, CompressedEdwardsY, KeyType, NoahOwnerMemo, OwnerMemo, XfrError,
    ZeiHybridCipher,
};

fn forty_bytes() -> Vec<u8> {
    (0u8..40).collect()
}

#[test]
fn hybrid_cipher_round_trips() {
    let bytes = forty_bytes();
    let cipher = ZeiHybridCipher::noah_from_bytes(&bytes).unwrap();
    let encoded = cipher.noah_to_bytes();
    assert_eq!(encoded, bytes);
    assert_eq!(encoded.len(), 32 + 8);
    let again = ZeiHybridCipher::noah_from_bytes(&encoded).unwrap();
    assert_eq!(again, cipher);
    assert_eq!(again.clone(), cipher);
}

#[test]
fn hybrid_cipher_puts_the_ephemeral_key_first() {
    let mut bytes = vec![1u8; 32];
    bytes.extend_from_slice(&[2u8; 5]);
    let cipher = ZeiHybridCipher::noah_from_bytes(&bytes).unwrap();
    let encoded = cipher.noah_to_bytes();
    assert_eq!(&encoded[..32], &[1u8; 32][..]);
    assert_eq!(&encoded[32..], &[2u8; 5][..]);
}

#[test]
fn hybrid_cipher_shorter_than_a_key_is_refused() {
    assert_eq!(ZeiHybridCipher::noah_from_bytes(&[7u8; 31]), Err(XfrError::LengthError));
    assert_eq!(ZeiHybridCipher::noah_from_bytes(&[7u8; 1]), Err(XfrError::LengthError));
    assert_eq!(ZeiHybridCipher::noah_from_bytes(&[]), Err(XfrError::LengthError));
}

#[test]
fn hybrid_cipher_with_empty_ciphertext() {
    let bytes = vec![9u8; 32];
    let cipher = ZeiHybridCipher::noah_from_bytes(&bytes).unwrap();
    assert_eq!(cipher.noah_to_bytes(), bytes);
}

#[test]
fn hybrid_cipher_from_what_the_engine_made() {
    let cipher = ZeiHybridCipher::from_parsed(Some(vec![3u8; 32]), Some(vec![4u8; 2])).unwrap();
    let mut expected = vec![3u8; 32];
    expected.extend_from_slice(&[4u8; 2]);
    assert_eq!(cipher.noah_to_bytes(), expected);
    assert_eq!(
        ZeiHybridCipher::from_parsed(None, Some(vec![4u8; 2])),
        Err(XfrError::FormatError)
    );
    assert_eq!(
        ZeiHybridCipher::from_parsed(Some(vec![3u8; 32]), None),
        Err(XfrError::FormatError)
    );
    assert_eq!(
        ZeiHybridCipher::from_parsed(Some(vec![3u8; 31]), Some(vec![])),
        Err(XfrError::FormatError)
    );
}

#[test]
fn compressed_point_is_thirty_two_bytes() {
    let bytes: Vec<u8> = (100u8..132).collect();
    let point = CompressedEdwardsY::from_slice(&bytes).unwrap();
    assert_eq!(point.to_bytes(), bytes);
    assert_eq!(CompressedEdwardsY::from_slice(&bytes[..31]), Err(XfrError::LengthError));
    assert_eq!(CompressedEdwardsY::from_slice(&[0u8; 33]), Err(XfrError::LengthError));
}

#[test]
fn owner_memo_round_trips() {
    let share: Vec<u8> = (50u8..82).collect();
    let memo = OwnerMemo {
        blind_share: CompressedEdwardsY::from_slice(&share).unwrap(),
        lock: ZeiHybridCipher::noah_from_bytes(&forty_bytes()).unwrap(),
    };
    let value = memo.into_noah();
    assert_eq!(value.key_type, KeyType::Ed25519);
    assert_eq!(value.blind_share_bytes, share);
    assert_eq!(value.lock_bytes.len(), 40);
    assert_eq!(value.lock_bytes, forty_bytes());
    let back = OwnerMemo::from_noah(&value).unwrap();
    assert_eq!(back, memo);
    assert_eq!(back.into_noah(), value);
}

#[test]
fn owner_memo_with_a_bad_share_is_a_format_error() {
    let value = NoahOwnerMemo {
        key_type: KeyType::Ed25519,
        blind_share_bytes: vec![0u8; 33],
        lock_bytes: forty_bytes(),
    };
    assert_eq!(OwnerMemo::from_noah(&value), Err(XfrError::FormatError));
    let value = NoahOwnerMemo {
        key_type: KeyType::Ed25519,
        blind_share_bytes: vec![],
        lock_bytes: forty_bytes(),
    };
    assert_eq!(OwnerMemo::from_noah(&value), Err(XfrError::FormatError));
}

#[test]
fn owner_memo_with_a_short_lock_is_a_format_error() {
    let value = NoahOwnerMemo {
        key_type: KeyType::Ed25519,
        blind_share_bytes: vec![0u8; 32],
        lock_bytes: vec![1u8; 31],
    };
    assert_eq!(OwnerMemo::from_noah(&value), Err(XfrError::FormatError));
}

#[test]
fn owner_memo_does_not_read_the_scheme() {
    let value = NoahOwnerMemo {
        key_type: KeyType::Secp256k1,
        blind_share_bytes: vec![0u8; 32],
        lock_bytes: vec![1u8; 32],
    };
    let memo = OwnerMemo::from_noah(&value).unwrap();
    assert_eq!(memo.into_noah().key_type, KeyType::Ed25519);
}

#[test]
fn expected_lock_lengths() {
    let with = |n: usize| OwnerMemo {
        blind_share: CompressedEdwardsY::from_slice(&[0u8; 32]).unwrap(),
        lock: ZeiHybridCipher::noah_from_bytes(&vec![1u8; n]).unwrap(),
    };
    assert!(with(40)
        .has_expected_lock_length(AssetRecordType::ConfidentialAmount_NonConfidentialAssetType));
    assert!(with(64)
        .has_expected_lock_length(AssetRecordType::NonConfidentialAmount_ConfidentialAssetType));
    assert!(with(72)
        .has_expected_lock_length(AssetRecordType::ConfidentialAmount_ConfidentialAssetType));
    assert!(!with(40)
        .has_expected_lock_length(AssetRecordType::ConfidentialAmount_ConfidentialAssetType));
    assert!(!with(72)
        .has_expected_lock_length(AssetRecordType::ConfidentialAmount_NonConfidentialAssetType));
    assert!(!with(32)
        .has_expected_lock_length(AssetRecordType::NonConfidentialAmount_NonConfidentialAssetType));
}
