use noah_ed25519_dalek::{PublicKey, SecretKey};
use std::collections::hash_map::DefaultHasher;
use std::hash::{Hash, Hasher};
use rand_chacha::rand_core::SeedableRng;
use rand_chacha::ChaChaRng;
use xfr_codec::{
    KeyType, NoahKeyPair, NoahPublicKey, NoahSecretKey, XfrError, XfrKeyPair, XfrPublicKey,
    XfrSecretKey,
};

#[test]
fn publickey_test_ed25519_keys() {
    let mut prng = ChaChaRng::seed_from_u64(123);
    let s = SecretKey::generate(&mut prng);
    let p: PublicKey = (&s).into();

    p.to_bytes();
    let xpk = XfrPublicKey::noah_from_bytes(&p.to_bytes()).unwrap();

    assert_eq!(p.to_bytes().to_vec(), xpk.noah_to_bytes())
}

#[test]
fn secretkey_test_ed25519_keys() {
    let mut prng = ChaChaRng::seed_from_u64(123);
    let s = SecretKey::generate(&mut prng);

    let xsk = XfrSecretKey::noah_from_bytes(&s.to_bytes()).unwrap();

    assert_eq!(s.to_bytes().to_vec(), xsk.noah_to_bytes())
}

#[test]
fn all_zero_public_key_round_trips() {
    let zeros = vec![0u8; 32];
    let key = XfrPublicKey::noah_from_bytes(&zeros).unwrap();
    let encoded = key.noah_to_bytes();
    assert_eq!(encoded, zeros);
    let again = XfrPublicKey::noah_from_bytes(&encoded).unwrap();
    assert_eq!(again, key);
    assert_eq!(again.noah_to_bytes(), zeros);
}

#[test]
fn public_key_decode_then_encode_is_identity() {
    let mut prng = ChaChaRng::seed_from_u64(7);
    let pair = XfrKeyPair::generate(&mut prng);
    let bytes = pair.get_pk().noah_to_bytes();
    assert_eq!(bytes.len(), 32);
    let key = XfrPublicKey::noah_from_bytes(&bytes).unwrap();
    assert_eq!(key, pair.get_pk());
    assert_eq!(key.noah_to_bytes(), bytes);
}

#[test]
fn secret_key_decode_then_encode_is_identity() {
    let mut prng = ChaChaRng::seed_from_u64(8);
    let pair = XfrKeyPair::generate(&mut prng);
    let bytes = pair.get_sk().noah_to_bytes();
    assert_eq!(bytes.len(), 32);
    let key = XfrSecretKey::noah_from_bytes(&bytes).unwrap();
    assert_eq!(key, pair.get_sk());
}

#[test]
fn public_key_of_wrong_length_is_refused() {
    assert_eq!(XfrPublicKey::noah_from_bytes(&[0u8; 31]), Err(XfrError::LengthError));
    assert_eq!(XfrPublicKey::noah_from_bytes(&[0u8; 33]), Err(XfrError::LengthError));
    assert_eq!(XfrPublicKey::noah_from_bytes(&[]), Err(XfrError::LengthError));
    assert_eq!(XfrPublicKey::noah_from_bytes(&[0u8; 64]), Err(XfrError::LengthError));
}

#[test]
fn ed25519_key_in_a_container_has_the_wrong_length() {
    // 34 bytes whose tag reads as Ed25519: the compact form of such a key is
    // 32 bytes.
    assert_eq!(XfrPublicKey::noah_from_bytes(&[0u8; 34]), Err(XfrError::LengthError));
    let mut other_tag = [0u8; 34];
    other_tag[0] = 9;
    assert_eq!(XfrPublicKey::noah_from_bytes(&other_tag), Err(XfrError::LengthError));
    assert_eq!(XfrSecretKey::noah_from_bytes(&[0u8; 33]), Err(XfrError::LengthError));
}

#[test]
fn bytes_that_are_no_point_are_a_format_error() {
    let mut bytes = [0u8; 32];
    bytes[0] = 2;
    assert_eq!(XfrPublicKey::noah_from_bytes(&bytes), Err(XfrError::FormatError));
}

#[test]
fn secp256k1_container_that_is_no_point_is_a_format_error() {
    let mut bytes = [0u8; 34];
    bytes[0] = 1;
    bytes[1] = 2;
    assert_eq!(XfrPublicKey::noah_from_bytes(&bytes), Err(XfrError::FormatError));
    bytes[33] = 1;
    let key = XfrPublicKey::noah_from_bytes(&bytes).unwrap();
    assert_eq!(key.key_type(), KeyType::Secp256k1);
    assert_eq!(key.noah_to_bytes(), bytes.to_vec());
}

#[test]
fn ethereum_address_has_no_compact_form() {
    let mut bytes = [0u8; 34];
    bytes[0] = 2;
    assert_eq!(XfrPublicKey::noah_from_bytes(&bytes), Err(XfrError::UnsupportedScheme));
    let mut secret = [1u8; 33];
    secret[0] = 2;
    assert_eq!(XfrSecretKey::noah_from_bytes(&secret), Err(XfrError::UnsupportedScheme));
    let value = NoahPublicKey { bytes: bytes.to_vec() };
    assert_eq!(XfrPublicKey::from_noah(&value), Err(XfrError::UnsupportedScheme));
}

#[test]
fn public_key_container_is_tag_key_padding() {
    let zeros = vec![0u8; 32];
    let mut material = zeros.clone();
    material[0] = 1;
    let key = XfrPublicKey::noah_from_bytes(&material).unwrap();
    let value = key.into_noah().unwrap();
    assert_eq!(value.bytes.len(), 34);
    assert_eq!(value.bytes[0], 0);
    assert_eq!(&value.bytes[1..33], &material[..]);
    assert_eq!(value.bytes[33], 0);
    assert_eq!(XfrPublicKey::from_noah(&value).unwrap(), key);
}

#[test]
fn secret_key_container_is_tag_key() {
    let material: Vec<u8> = (1u8..=32).collect();
    let key = XfrSecretKey::noah_from_bytes(&material).unwrap();
    let value = key.into_noah().unwrap();
    assert_eq!(value.bytes.len(), 33);
    assert_eq!(value.bytes[0], 0);
    assert_eq!(&value.bytes[1..], &material[..]);
    assert_eq!(XfrSecretKey::from_noah(&value).unwrap(), key);
}

#[test]
fn container_of_wrong_length_is_a_format_error() {
    let value = NoahPublicKey { bytes: vec![0u8; 32] };
    assert_eq!(XfrPublicKey::from_noah(&value), Err(XfrError::FormatError));
    let value = NoahSecretKey { bytes: vec![0u8; 32] };
    assert_eq!(XfrSecretKey::from_noah(&value), Err(XfrError::FormatError));
}

#[test]
fn container_with_an_invalid_key_is_a_format_error() {
    let mut bytes = vec![0u8; 34];
    bytes[1] = 2;
    let value = NoahPublicKey { bytes };
    assert_eq!(XfrPublicKey::from_noah(&value), Err(XfrError::FormatError));
}

#[test]
fn key_type_tags() {
    assert_eq!(KeyType::Ed25519.to_byte(), 0);
    assert_eq!(KeyType::Secp256k1.to_byte(), 1);
    assert_eq!(KeyType::EthAddress.to_byte(), 2);
    assert_eq!(KeyType::from_byte(0), KeyType::Ed25519);
    assert_eq!(KeyType::from_byte(1), KeyType::Secp256k1);
    assert_eq!(KeyType::from_byte(2), KeyType::EthAddress);
    assert_eq!(KeyType::from_byte(3), KeyType::Ed25519);
    assert_eq!(KeyType::from_byte(255), KeyType::Ed25519);
}

#[test]
fn generated_ed25519_pair() {
    let mut prng = ChaChaRng::seed_from_u64(1);
    let pair = XfrKeyPair::generate(&mut prng);
    assert_eq!(pair.get_sk_ref().key_type(), KeyType::Ed25519);
    assert_eq!(pair.get_pk_ref().key_type(), KeyType::Ed25519);
    assert_eq!(pair.get_pk(), pair.pub_key);
    assert_eq!(pair.get_sk().into_keypair().get_pk(), pair.get_pk());

    // The public key is the one that the signature library derives.
    let secret = SecretKey::from_bytes(&pair.get_sk().noah_to_bytes()).unwrap();
    let public: PublicKey = (&secret).into();
    assert_eq!(pair.get_pk().noah_to_bytes(), public.to_bytes().to_vec());

    let bytes = pair.noah_to_bytes();
    assert_eq!(bytes.len(), 64);
    assert_eq!(&bytes[..32], &pair.get_sk().noah_to_bytes()[..]);
    assert_eq!(&bytes[32..], &pair.get_pk().noah_to_bytes()[..]);
    let again = XfrKeyPair::noah_from_bytes(&bytes).unwrap();
    assert_eq!(again.get_pk(), pair.get_pk());
    assert_eq!(again.get_sk(), pair.get_sk());
}

#[test]
fn generated_secp256k1_pair() {
    let mut prng = ChaChaRng::seed_from_u64(2);
    let pair = XfrKeyPair::generate_secp256k1(&mut prng);
    assert_eq!(pair.get_sk_ref().key_type(), KeyType::Secp256k1);
    assert_eq!(pair.get_pk_ref().key_type(), KeyType::Secp256k1);
    let secret = pair.get_sk().noah_to_bytes();
    let public = pair.get_pk().noah_to_bytes();
    assert_eq!(secret.len(), 33);
    assert_eq!(secret[0], 1);
    assert_eq!(public.len(), 34);
    assert_eq!(public[0], 1);
    assert_eq!(XfrSecretKey::noah_from_bytes(&secret).unwrap(), pair.get_sk());
    assert_eq!(XfrPublicKey::noah_from_bytes(&public).unwrap(), pair.get_pk());
    assert_eq!(pair.get_pk().into_noah().unwrap().bytes, public);
    assert_eq!(pair.get_sk().into_noah().unwrap().bytes, secret);

    let bytes = pair.noah_to_bytes();
    assert_eq!(bytes.len(), 67);
    let again = XfrKeyPair::noah_from_bytes(&bytes).unwrap();
    assert_eq!(again.get_pk(), pair.get_pk());
    assert_eq!(again.get_sk(), pair.get_sk());
}

#[test]
fn key_pair_of_wrong_length_is_refused() {
    assert!(matches!(XfrKeyPair::noah_from_bytes(&[0u8; 63]), Err(XfrError::LengthError)));
    assert!(matches!(XfrKeyPair::noah_from_bytes(&[0u8; 65]), Err(XfrError::LengthError)));
    assert!(matches!(XfrKeyPair::noah_from_bytes(&[]), Err(XfrError::LengthError)));
}

#[test]
fn key_pair_with_a_bad_half_gives_that_error() {
    // A valid secret half and a public half that is no point.
    let mut bytes = vec![0u8; 64];
    bytes[32] = 2;
    assert!(matches!(XfrKeyPair::noah_from_bytes(&bytes), Err(XfrError::FormatError)));
    // 67 bytes whose secret half is tagged Ed25519.
    assert!(matches!(XfrKeyPair::noah_from_bytes(&[0u8; 67]), Err(XfrError::LengthError)));
}

#[test]
fn key_pair_through_the_engine_form() {
    let mut prng = ChaChaRng::seed_from_u64(3);
    let pair = XfrKeyPair::generate(&mut prng);
    let value: NoahKeyPair = pair.into_noah().unwrap();
    assert_eq!(value.sec_key, pair.get_sk().into_noah().unwrap());
    assert_eq!(value.pub_key, pair.get_pk().into_noah().unwrap());
    let again = XfrKeyPair::from_noah(&value).unwrap();
    assert_eq!(again.get_pk(), pair.get_pk());
    assert_eq!(again.get_sk(), pair.get_sk());
}

#[test]
fn keys_are_ordered_by_their_compact_bytes() {
    let low = XfrPublicKey::noah_from_bytes(&[0u8; 32]).unwrap();
    let mut bytes = [0u8; 32];
    bytes[0] = 1;
    let high = XfrPublicKey::noah_from_bytes(&bytes).unwrap();
    assert!(low < high);
    assert_ne!(low, high);
    assert_eq!(low.clone(), low);
}

#[test]
fn secret_key_that_the_engine_refuses_is_a_format_error() {
    // The zero scalar is no Secp256k1 secret key.
    let mut bytes = [0u8; 33];
    bytes[0] = 1;
    assert_eq!(XfrSecretKey::noah_from_bytes(&bytes), Err(XfrError::FormatError));
    let value = NoahSecretKey { bytes: bytes.to_vec() };
    assert_eq!(XfrSecretKey::from_noah(&value), Err(XfrError::FormatError));
}

#[test]
fn keys_compare_as_their_compact_bytes() {
    let mut prng = ChaChaRng::seed_from_u64(21);
    let a = XfrKeyPair::generate(&mut prng);
    let b = XfrKeyPair::generate(&mut prng);
    let c = XfrKeyPair::generate_secp256k1(&mut prng);
    let keys = [a.get_pk(), b.get_pk(), c.get_pk()];
    for x in keys.iter() {
        for y in keys.iter() {
            assert_eq!(x.partial_cmp(y), x.noah_to_bytes().partial_cmp(&y.noah_to_bytes()));
            assert_eq!(x.cmp(y), x.noah_to_bytes().cmp(&y.noah_to_bytes()));
            assert_eq!(x == y, x.noah_to_bytes() == y.noah_to_bytes());
        }
    }
    let secrets = [a.get_sk(), b.get_sk(), c.get_sk()];
    for x in secrets.iter() {
        for y in secrets.iter() {
            assert_eq!(x.partial_cmp(y), x.noah_to_bytes().partial_cmp(&y.noah_to_bytes()));
            assert_eq!(x == y, x.noah_to_bytes() == y.noah_to_bytes());
        }
    }
}

#[test]
fn a_prefix_comes_first() {
    // 32 zero bytes against a Secp256k1 container: the first byte decides.
    let low = XfrPublicKey::noah_from_bytes(&[0u8; 32]).unwrap();
    let mut bytes = [0u8; 34];
    bytes[0] = 1;
    bytes[1] = 2;
    bytes[33] = 1;
    let high = XfrPublicKey::noah_from_bytes(&bytes).unwrap();
    assert!(low < high);
    assert!(high > low);
    assert!(low <= low.clone());
}

fn hash_of<T: Hash>(value: &T) -> u64 {
    let mut hasher = DefaultHasher::new();
    value.hash(&mut hasher);
    hasher.finish()
}

#[test]
fn keys_are_hashed_by_their_compact_bytes() {
    let mut prng = ChaChaRng::seed_from_u64(31);
    let pair = XfrKeyPair::generate(&mut prng);
    assert_eq!(hash_of(&pair.get_pk()), hash_of(&pair.get_pk().noah_to_bytes()));
    assert_eq!(hash_of(&pair.get_sk()), hash_of(&pair.get_sk().noah_to_bytes()));
    let decoded = XfrPublicKey::noah_from_bytes(&pair.get_pk().noah_to_bytes()).unwrap();
    assert_eq!(hash_of(&decoded), hash_of(&pair.get_pk()));
}

#[test]
fn key_pair_clone_keeps_both_keys() {
    let mut prng = ChaChaRng::seed_from_u64(32);
    let pair = XfrKeyPair::generate(&mut prng);
    let copy = pair.clone();
    assert_eq!(copy.get_pk(), pair.get_pk());
    assert_eq!(copy.get_sk(), pair.get_sk());
    assert_eq!(copy.noah_to_bytes(), pair.noah_to_bytes());
}
