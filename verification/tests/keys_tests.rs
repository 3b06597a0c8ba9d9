use tx_generator::bytes_to_hex;
use tx_generator::derive_child_key;
use tx_generator::derive_seed;
use tx_generator::GenError;

const TEST_MNEMONIC: &str =
    "abandon abandon abandon abandon abandon abandon abandon abandon abandon abandon abandon about";

#[test]
fn seed_matches_reference_vector() {
    let seed = derive_seed(TEST_MNEMONIC).expect("valid mnemonic");
    assert_eq!(seed.len(), 64);
    let expected = "5eb00bbddcf069084889a8ab9155568165f5c453ccb85e70811aaed6f6da5fc1\
9a5ac40b389cd370d086206dec8aa6c43daea6690f20ad3d8d48b2d2ce9e38e4";
    assert_eq!(bytes_to_hex(&seed), expected.as_bytes().to_vec());
}

#[test]
fn invalid_mnemonic_is_rejected() {
    let r = derive_seed("definitely not a valid mnemonic phrase at all really no");
    assert_eq!(r.unwrap_err(), GenError::InvalidMnemonic);
}

#[test]
fn bad_checksum_is_rejected() {
    let r = derive_seed(
        "abandon abandon abandon abandon abandon abandon abandon abandon abandon abandon abandon abandon",
    );
    assert_eq!(r.unwrap_err(), GenError::InvalidMnemonic);
}

#[test]
fn child_key_matches_reference_vector() {
    let seed = derive_seed(TEST_MNEMONIC).expect("valid mnemonic");
    let key = derive_child_key(&seed, 0).expect("derivable");
    let sk = secp256k1::SecretKey::from_secret_bytes(key).expect("valid scalar");
    let pk = secp256k1::PublicKey::from_secret_key(&sk);
    let uncompressed = pk.serialize_uncompressed();
    let hash = web3::signing::keccak256(&uncompressed[1..]);
    let expected = "9858effd232b4033e47d90003d41ec34ecaeda94";
    assert_eq!(bytes_to_hex(&hash[12..]), expected.as_bytes().to_vec());
}

#[test]
fn index_with_hardened_bit_gives_derivation_error() {
    let seed = derive_seed(TEST_MNEMONIC).expect("valid mnemonic");
    let r = derive_child_key(&seed, 0x8000_0000);
    assert_eq!(r.unwrap_err(), GenError::DerivationError);
}

#[test]
fn derivation_is_deterministic() {
    let seed = derive_seed(TEST_MNEMONIC).expect("valid mnemonic");
    for index in [0u32, 1, 2, 17] {
        let a = derive_child_key(&seed, index).expect("derivable");
        let b = derive_child_key(&seed, index).expect("derivable");
        assert_eq!(a, b);
    }
}

#[test]
fn distinct_indices_give_distinct_keys() {
    let seed = derive_seed(TEST_MNEMONIC).expect("valid mnemonic");
    let k0 = derive_child_key(&seed, 0).expect("derivable");
    let k1 = derive_child_key(&seed, 1).expect("derivable");
    let k2 = derive_child_key(&seed, 2).expect("derivable");
    assert_ne!(k0, k1);
    assert_ne!(k1, k2);
    assert_ne!(k0, k2);
}
