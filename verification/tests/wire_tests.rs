use tx_generator::to_wire;
use tx_generator::ProofWithInputs;
use tx_generator::TxDataRequest;

fn sample_record(memo: Vec<u8>, extra_data: Vec<u8>) -> TxDataRequest {
    TxDataRequest {
        proof: ProofWithInputs {
            proof_json: br#"{"a":["1","2"],"b":[["3","4"],["5","6"]],"c":["7","8"]}"#.to_vec(),
            inputs_json: br#"["9","10"]"#.to_vec(),
        },
        memo,
        extra_data,
        nullifier_be: vec![0u8; 32],
    }
}

#[test]
fn empty_batch_serializes_to_empty_array() {
    assert_eq!(to_wire(&vec![]), b"[]".to_vec());
}

#[test]
fn one_record_serializes_exactly() {
    let rec = sample_record(vec![0xab], vec![0xcd, 0x01]);
    let wire = to_wire(&vec![rec]);
    let expected = br#"[{"txType":"0000","proof":{"proof":{"a":["1","2"],"b":[["3","4"],["5","6"]],"c":["7","8"]},"inputs":["9","10"]},"memo":"ab","extraData":"cd01"}]"#;
    assert_eq!(wire, expected.to_vec());
}

#[test]
fn wire_round_trips_through_a_json_parser() {
    let records = vec![
        sample_record(vec![0x01, 0x02], vec![0x11; 64]),
        sample_record(vec![0x03], vec![0x22; 64]),
    ];
    let wire = to_wire(&records);
    let parsed: serde_json::Value = serde_json::from_slice(&wire).expect("valid JSON");
    let arr = parsed.as_array().expect("array");
    assert_eq!(arr.len(), 2);
    assert_eq!(arr[0]["memo"].as_str().unwrap(), "0102");
    assert_eq!(arr[1]["memo"].as_str().unwrap(), "03");
    assert_eq!(arr[0]["extraData"].as_str().unwrap(), "11".repeat(64));
    assert_eq!(arr[1]["extraData"].as_str().unwrap(), "22".repeat(64));
    assert_eq!(arr[0]["txType"].as_str().unwrap(), "0000");
    assert_eq!(arr[0]["proof"]["inputs"][1].as_str().unwrap(), "10");
}
