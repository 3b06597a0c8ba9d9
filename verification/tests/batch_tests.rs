use tx_generator::assemble_record;
use tx_generator::build_deposit_tx;
use tx_generator::create_signature;
use tx_generator::derive_child_key;
use tx_generator::derive_seed;
use tx_generator::parse_parameters;
use tx_generator::to_wire;
use tx_generator::GenError;

const TEST_MNEMONIC: &str =
    "abandon abandon abandon abandon abandon abandon abandon abandon abandon abandon abandon about";

#[test]
fn corrupt_parameter_blob_is_rejected() {
    match parse_parameters(b"this is not a parameter set") {
        Err(e) => assert_eq!(e, GenError::BadParameters),
        Ok(_) => panic!("a corrupt blob was accepted"),
    }
}

#[test]
fn empty_parameter_blob_is_rejected() {
    match parse_parameters(&[]) {
        Err(e) => assert_eq!(e, GenError::BadParameters),
        Ok(_) => panic!("an empty blob was accepted"),
    }
}

#[test]
fn three_deposit_records_at_indices_zero_one_two() {
    let seed = derive_seed(TEST_MNEMONIC).expect("valid mnemonic");
    let mut records = Vec::new();
    for index in 0u32..3 {
        let key = derive_child_key(&seed, index).expect("derivable");
        let tx = build_deposit_tx().expect("pool layer accepts a deposit");
        assert_eq!(tx.nullifier_be.len(), 32);
        assert!(!tx.memo.is_empty());
        let sig = create_signature(&key, &tx.nullifier_be).expect("valid scalar");
        let rec = assemble_record(tx, sig, b"{}".to_vec(), b"[]".to_vec());
        records.push(rec);
    }
    assert_eq!(records.len(), 3);

    let wire = to_wire(&records);
    let parsed: serde_json::Value = serde_json::from_slice(&wire).expect("valid JSON");
    let arr = parsed.as_array().expect("array");
    assert_eq!(arr.len(), 3);
    for (i, entry) in arr.iter().enumerate() {
        assert_eq!(entry["txType"].as_str().unwrap(), "0000");
        let extra = entry["extraData"].as_str().unwrap();
        assert_eq!(extra.len(), 128);
        assert!(extra.bytes().all(|b| b.is_ascii_hexdigit()));
        let memo = entry["memo"].as_str().unwrap();
        assert!(!memo.is_empty());
        let expected_memo: String =
            records[i].memo.iter().map(|b| format!("{b:02x}")).collect();
        assert_eq!(memo, expected_memo);
    }
}

#[test]
fn records_keep_the_order_they_were_assembled_in() {
    let seed = derive_seed(TEST_MNEMONIC).expect("valid mnemonic");
    let mut records = Vec::new();
    for index in 0u32..4 {
        let key = derive_child_key(&seed, index).expect("derivable");
        let nullifier = vec![index as u8; 32];
        let sig = create_signature(&key, &nullifier).expect("valid scalar");
        let rec = tx_generator::TxDataRequest {
            proof: tx_generator::ProofWithInputs {
                proof_json: b"{}".to_vec(),
                inputs_json: b"[]".to_vec(),
            },
            memo: vec![index as u8 + 1],
            extra_data: sig,
            nullifier_be: nullifier,
        };
        records.push(rec);
    }
    let wire = to_wire(&records);
    let parsed: serde_json::Value = serde_json::from_slice(&wire).expect("valid JSON");
    let arr = parsed.as_array().expect("array");
    assert_eq!(arr.len(), 4);
    for (i, entry) in arr.iter().enumerate() {
        let expected_memo = format!("{:02x}", i + 1);
        assert_eq!(entry["memo"].as_str().unwrap(), expected_memo);
    }
}
