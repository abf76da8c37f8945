use l1x_signer::TXSignPayload;
use l1x_signer::TXSignPayloadV2;
use l1x_signer::TransactionTypeV2SignPayload;
use l1x_signer::transaction::AccessType;
use l1x_signer::transaction::ContractType;
use l1x_signer::transaction::TransactionType;
use l1x_signer::transaction::TransactionTypeV2;

#[test]
fn v1_native_token_transfer_exact_text() {
    let payload = TXSignPayload {
        nonce: 1,
        transaction_type: TransactionType::NativeTokenTransfer([7u8; 20], 1000),
        fee_limit: 5,
    };
    let sevens = ["7"; 20].join(",");
    let expected = format!(
        "{{\"nonce\":1,\"transaction_type\":{{\"NativeTokenTransfer\":[[{}],1000]}},\"fee_limit\":5}}",
        sevens
    );
    assert_eq!(payload.to_canonical_json(), expected);
}

#[test]
fn v1_deployment_exact_text() {
    let payload = TXSignPayload {
        nonce: 9,
        transaction_type: TransactionType::SmartContractDeployment {
            access_type: AccessType::PRIVATE,
            contract_type: ContractType::L1XVM,
            contract_code: vec![0, 255],
            value: 12,
            salt: vec![],
        },
        fee_limit: 0,
    };
    let expected = "{\"nonce\":9,\"transaction_type\":{\"SmartContractDeployment\":{\"access_type\":\"PRIVATE\",\"contract_type\":\"L1XVM\",\"contract_code\":[0,255],\"value\":12,\"salt\":[]}},\"fee_limit\":0}";
    assert_eq!(payload.to_canonical_json(), expected);
}

#[test]
fn v1_staking_pool_absent_fields_render_null() {
    let payload = TXSignPayload {
        nonce: 0,
        transaction_type: TransactionType::CreateStakingPool {
            contract_instance_address: None,
            min_stake: Some(4),
            max_stake: None,
            min_pool_balance: None,
            max_pool_balance: None,
            staking_period: None,
        },
        fee_limit: 2,
    };
    let expected = "{\"nonce\":0,\"transaction_type\":{\"CreateStakingPool\":{\"contract_instance_address\":null,\"min_stake\":4,\"max_stake\":null,\"min_pool_balance\":null,\"max_pool_balance\":null,\"staking_period\":null}},\"fee_limit\":2}";
    assert_eq!(payload.to_canonical_json(), expected);
}

#[test]
fn v2_deployment_exact_text() {
    let payload = TXSignPayloadV2 {
        nonce: "9".to_string(),
        transaction_type: TransactionTypeV2SignPayload::SmartContractDeployment {
            access_type: AccessType::PUBLIC,
            contract_type: ContractType::EVM,
            contract_code: vec![1, 2, 3],
            deposit: "77".to_string(),
            salt: vec![],
        },
        fee_limit: "100".to_string(),
    };
    let expected = "{\"nonce\":\"9\",\"transaction_type\":{\"SmartContractDeployment\":{\"access_type\":\"PUBLIC\",\"contract_type\":\"EVM\",\"contract_code\":[1,2,3],\"deposit\":\"77\",\"salt\":[]}},\"fee_limit\":\"100\"}";
    assert_eq!(payload.to_canonical_json(), expected);
}

#[test]
fn v2_sign_variant_from_domain_stringifies_amounts() {
    let t = TransactionTypeV2::NativeTokenTransfer([1u8; 20], u128::MAX);
    match TransactionTypeV2SignPayload::from(t) {
        TransactionTypeV2SignPayload::NativeTokenTransfer(a, s) => {
            assert_eq!(a, [1u8; 20]);
            assert_eq!(s, "340282366920938463463374607431768211455");
        },
        other => panic!("unexpected variant: {:?}", other),
    }
}

#[test]
fn v2_stake_amount_is_a_decimal_string() {
    let payload = TXSignPayloadV2 {
        nonce: "1".to_string(),
        transaction_type: TransactionTypeV2SignPayload::Stake {
            pool_address: [2u8; 20],
            amount: "31".to_string(),
        },
        fee_limit: "6".to_string(),
    };
    let twos = ["2"; 20].join(",");
    let expected = format!(
        "{{\"nonce\":\"1\",\"transaction_type\":{{\"Stake\":{{\"pool_address\":[{}],\"amount\":\"31\"}}}},\"fee_limit\":\"6\"}}",
        twos
    );
    assert_eq!(payload.to_canonical_json(), expected);
}

#[test]
fn v2_staking_pool_amounts_are_decimal_strings() {
    let payload = TXSignPayloadV2 {
        nonce: "2".to_string(),
        transaction_type: TransactionTypeV2SignPayload::CreateStakingPool {
            contract_instance_address: None,
            min_stake: Some("4".to_string()),
            max_stake: None,
            min_pool_balance: None,
            max_pool_balance: None,
            staking_period: Some("10".to_string()),
        },
        fee_limit: "3".to_string(),
    };
    let expected = "{\"nonce\":\"2\",\"transaction_type\":{\"CreateStakingPool\":{\"contract_instance_address\":null,\"min_stake\":\"4\",\"max_stake\":null,\"min_pool_balance\":null,\"max_pool_balance\":null,\"staking_period\":\"10\"}},\"fee_limit\":\"3\"}";
    assert_eq!(payload.to_canonical_json(), expected);
}

#[test]
fn v2_sign_variant_from_domain_stringifies_stake_amounts() {
    let t = TransactionTypeV2::Stake { pool_address: [5u8; 20], amount: 77 };
    match TransactionTypeV2SignPayload::from(t) {
        TransactionTypeV2SignPayload::Stake { pool_address, amount } => {
            assert_eq!(pool_address, [5u8; 20]);
            assert_eq!(amount, "77");
        },
        other => panic!("unexpected variant: {:?}", other),
    }
    let c = TransactionTypeV2::CreateStakingPool {
        contract_instance_address: None,
        min_stake: Some(6),
        max_stake: None,
        min_pool_balance: None,
        max_pool_balance: None,
        staking_period: None,
    };
    match TransactionTypeV2SignPayload::from(c) {
        TransactionTypeV2SignPayload::CreateStakingPool { min_stake, max_stake, .. } => {
            assert_eq!(min_stake, Some("6".to_string()));
            assert_eq!(max_stake, None);
        },
        other => panic!("unexpected variant: {:?}", other),
    }
}

#[test]
fn v2_upgrade_exact_text() {
    let payload = TXSignPayloadV2 {
        nonce: "3".to_string(),
        transaction_type: TransactionTypeV2SignPayload::Upgrade {
            instance_address: [0u8; 20],
            new_code_address: [0u8; 20],
            init_upgrade_args: vec![5],
            migrate_args: vec![],
        },
        fee_limit: "4".to_string(),
    };
    let zeros = ["0"; 20].join(",");
    let expected = format!(
        "{{\"nonce\":\"3\",\"transaction_type\":{{\"Upgrade\":{{\"instance_address\":[{z}],\"new_code_address\":[{z}],\"init_upgrade_args\":[5],\"migrate_args\":[]}}}},\"fee_limit\":\"4\"}}",
        z = zeros
    );
    assert_eq!(payload.to_canonical_json(), expected);
}

#[test]
fn canonicalization_is_deterministic() {
    let payload = TXSignPayload {
        nonce: 11,
        transaction_type: TransactionType::Stake { pool_address: [3u8; 20], amount: 500 },
        fee_limit: 1,
    };
    assert_eq!(payload.to_canonical_json(), payload.to_canonical_json());

    let payload2 = TXSignPayloadV2 {
        nonce: "11".to_string(),
        transaction_type: TransactionTypeV2SignPayload::UnStake {
            pool_address: [3u8; 20],
            amount: "500".to_string(),
        },
        fee_limit: "1".to_string(),
    };
    assert_eq!(payload2.to_canonical_json(), payload2.to_canonical_json());
}

#[test]
fn canonical_text_is_valid_json() {
    let payload = TXSignPayloadV2 {
        nonce: "8".to_string(),
        transaction_type: TransactionTypeV2SignPayload::SmartContractFunctionCall {
            contract_instance_address: [9u8; 20],
            function: b"f".to_vec(),
            arguments: vec![1, 2],
            deposit: "0".to_string(),
        },
        fee_limit: "55".to_string(),
    };
    let text = payload.to_canonical_json();
    let parsed: serde_json::Value = serde_json::from_str(&text).expect("canonical text parses");
    assert_eq!(parsed["nonce"], serde_json::Value::String("8".to_string()));
    assert_eq!(
        parsed["transaction_type"]["SmartContractFunctionCall"]["deposit"],
        serde_json::Value::String("0".to_string())
    );
}
