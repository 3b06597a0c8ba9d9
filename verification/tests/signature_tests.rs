use tx_generator::create_signature;
use tx_generator::GenError;

fn verify_against_derived_public_key(key: &[u8; 32], nullifier: &[u8], signature: &[u8]) {
    let mut preimage = b"\x19Ethereum Signed Message:\n".to_vec();
    preimage.extend_from_slice(nullifier.len().to_string().as_bytes());
    preimage.extend_from_slice(nullifier);
    let digest = web3::signing::keccak256(&preimage);

    let sk = secp256k1::SecretKey::from_secret_bytes(*key).expect("valid scalar");
    let pk = secp256k1::PublicKey::from_secret_key(&sk);
    let msg = secp256k1::Message::from_digest(digest);
    let sig = secp256k1::ecdsa::Signature::from_compact(signature).expect("64 bytes");
    sig.verify(msg, &pk).expect("signature binds to key and nullifier");
}

#[test]
fn signature_verifies_against_prefixed_keccak_digest() {
    let key = [0x01u8; 32];
    let nullifier = [0x2au8; 32];
    let sig = create_signature(&key, &nullifier).expect("valid scalar");
    assert_eq!(sig.len(), 64);
    verify_against_derived_public_key(&key, &nullifier, &sig);
}

#[test]
fn signature_is_deterministic() {
    let key = [0x07u8; 32];
    let nullifier = [0x55u8; 32];
    let a = create_signature(&key, &nullifier).expect("valid scalar");
    let b = create_signature(&key, &nullifier).expect("valid scalar");
    assert_eq!(a, b);
}

#[test]
fn distinct_nullifiers_give_distinct_signatures() {
    let key = [0x07u8; 32];
    let a = create_signature(&key, &[0x01u8; 32]).expect("valid scalar");
    let b = create_signature(&key, &[0x02u8; 32]).expect("valid scalar");
    assert_ne!(a, b);
}

#[test]
fn zero_scalar_is_rejected() {
    let r = create_signature(&[0u8; 32], &[0x2au8; 32]);
    assert_eq!(r.unwrap_err(), GenError::SigningError);
}

#[test]
fn scalar_at_or_above_group_order_is_rejected() {
    let r = create_signature(&[0xffu8; 32], &[0x2au8; 32]);
    assert_eq!(r.unwrap_err(), GenError::SigningError);
}
