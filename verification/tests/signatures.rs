use rand_chacha::rand_core::SeedableRng;
use rand_chacha::ChaChaRng;
use xfr_codec::{NoahSignature, XfrError, XfrKeyPair, XfrPublicKey, XfrSignature};

fn one_to_sixty_four() -> Vec<u8> {
    (1u8..=64).collect()
}

#[test]
fn signature_container_layout() {
    let compact = one_to_sixty_four();
    let signature = XfrSignature::noah_from_bytes(&compact).unwrap();
    let value = signature.into_noah().unwrap();
    assert_eq!(value.bytes.len(), 66);
    assert_eq!(value.bytes[0], 0);
    assert_eq!(&value.bytes[1..65], &compact[..]);
    assert_eq!(value.bytes[65], 0);
    let back = XfrSignature::from_noah(&value).unwrap();
    assert_eq!(back.noah_to_bytes(), compact);
    assert_eq!(back, signature);
}

#[test]
fn signature_of_wrong_length_is_refused() {
    assert_eq!(XfrSignature::noah_from_bytes(&[0u8; 63]), Err(XfrError::LengthError));
    assert_eq!(XfrSignature::noah_from_bytes(&[0u8; 65]), Err(XfrError::LengthError));
    assert_eq!(XfrSignature::noah_from_bytes(&[0u8; 66]), Err(XfrError::LengthError));
    assert_eq!(XfrSignature::noah_from_bytes(&[]), Err(XfrError::LengthError));
}

#[test]
fn signature_container_of_wrong_length_is_a_format_error() {
    let value = NoahSignature { bytes: vec![0u8; 64] };
    assert_eq!(XfrSignature::from_noah(&value), Err(XfrError::FormatError));
    let value = NoahSignature { bytes: vec![0u8; 67] };
    assert_eq!(XfrSignature::from_noah(&value), Err(XfrError::FormatError));
}

#[test]
fn signature_container_of_another_scheme_has_no_compact_form() {
    let mut bytes = vec![5u8; 66];
    bytes[0] = 1;
    assert_eq!(
        XfrSignature::from_noah(&NoahSignature { bytes: bytes.clone() }),
        Err(XfrError::UnsupportedScheme)
    );
    bytes[0] = 2;
    assert_eq!(
        XfrSignature::from_noah(&NoahSignature { bytes: bytes.clone() }),
        Err(XfrError::UnsupportedScheme)
    );
    // A tag that is no scheme's reads as Ed25519; the framing byte is dropped.
    bytes[0] = 200;
    let signature = XfrSignature::from_noah(&NoahSignature { bytes }).unwrap();
    assert_eq!(signature.noah_to_bytes(), vec![5u8; 64]);
}

#[test]
fn ed25519_sign_and_verify() {
    let mut prng = ChaChaRng::seed_from_u64(11);
    let pair = XfrKeyPair::generate(&mut prng);
    let message = b"a transfer";
    let signature = pair.sign(message).unwrap();
    assert_eq!(signature.noah_to_bytes().len(), 64);
    assert_eq!(pair.get_pk().verify(message, &signature), Ok(()));
    assert_eq!(pair.get_sk().sign(message).unwrap(), signature);
    assert_eq!(
        pair.get_pk().verify(b"another transfer", &signature),
        Err(XfrError::SignatureError)
    );

    let other = XfrKeyPair::generate(&mut prng);
    assert_eq!(other.get_pk().verify(message, &signature), Err(XfrError::SignatureError));
}

#[test]
fn signature_survives_the_wire_and_the_engine_form() {
    let mut prng = ChaChaRng::seed_from_u64(12);
    let pair = XfrKeyPair::generate(&mut prng);
    let signature = pair.sign(b"msg").unwrap();
    let decoded = XfrSignature::noah_from_bytes(&signature.noah_to_bytes()).unwrap();
    assert_eq!(decoded, signature);
    let back = XfrSignature::from_noah(&signature.into_noah().unwrap()).unwrap();
    assert_eq!(pair.get_pk().verify(b"msg", &back), Ok(()));
}

#[test]
fn bytes_that_the_engine_cannot_read_do_not_verify() {
    let mut prng = ChaChaRng::seed_from_u64(13);
    let pair = XfrKeyPair::generate(&mut prng);
    let signature = XfrSignature::noah_from_bytes(&one_to_sixty_four()).unwrap();
    assert_eq!(pair.get_pk().verify(b"msg", &signature), Err(XfrError::SignatureError));
}

#[test]
fn secp256k1_signature_has_no_compact_form() {
    let mut prng = ChaChaRng::seed_from_u64(14);
    let pair = XfrKeyPair::generate_secp256k1(&mut prng);
    assert_eq!(pair.sign(b"msg"), Err(XfrError::UnsupportedScheme));
}

#[test]
fn secp256k1_key_does_not_match_a_compact_signature() {
    let mut prng = ChaChaRng::seed_from_u64(15);
    let signer = XfrKeyPair::generate(&mut prng);
    let signature = signer.sign(b"msg").unwrap();
    let pair = XfrKeyPair::generate_secp256k1(&mut prng);
    assert_eq!(pair.get_pk().verify(b"msg", &signature), Err(XfrError::SchemeMismatch));
}

#[test]
fn verdict_of_the_engine() {
    assert_eq!(XfrPublicKey::verdict(true), Ok(()));
    assert_eq!(XfrPublicKey::verdict(false), Err(XfrError::SignatureError));
}

#[test]
fn error_messages() {
    assert_eq!(XfrError::LengthError.to_string(), "wrong length");
    assert_eq!(XfrError::FormatError.to_string(), "malformed encoding");
    assert_eq!(XfrError::SchemeMismatch.to_string(), "scheme mismatch");
    assert_eq!(XfrError::UnsupportedScheme.to_string(), "unsupported scheme");
    assert_eq!(XfrError::KeyFormatError.to_string(), "malformed owner key");
    assert_eq!(XfrError::SignatureError.to_string(), "signature error");
}
