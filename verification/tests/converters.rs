use l1x_signer::errors::CoreError;
use l1x_signer::rpc_model::CreateStakingPool;
use l1x_signer::rpc_model::NativeTokenTransfer;
use l1x_signer::rpc_model::SmartContractDeployment;
use l1x_signer::rpc_model::SmartContractDeploymentV2;
use l1x_signer::rpc_model::SmartContractFunctionCallV2;
use l1x_signer::rpc_model::Stake;
use l1x_signer::rpc_model::UnStake;
use l1x_signer::rpc_model::Upgrade;
use l1x_signer::rpc_model::estimate_fee_request;
use l1x_signer::rpc_model::submit_transaction_request;
use l1x_signer::rpc_model::submit_transaction_request_v2;
use l1x_signer::transaction::AccessType;
use l1x_signer::transaction::ContractType;
use l1x_signer::transaction::TransactionType;
use l1x_signer::transaction::TransactionTypeV2;
use l1x_signer::transaction::address_from_wire;
use l1x_signer::transaction::address_to_wire;

fn addr_bytes() -> Vec<u8> {
    (1u8..=20).collect()
}

#[test]
fn address_wire_round_trip() {
    let a: [u8; 20] = [
        9, 8, 7, 6, 5, 4, 3, 2, 1, 0, 10, 11, 12, 13, 14, 15, 16, 17, 18, 19,
    ];
    let wire = address_to_wire(&a);
    assert_eq!(wire.len(), 20);
    assert_eq!(address_from_wire(&wire), Ok(a));
}

#[test]
fn address_wrong_length_rejected() {
    assert_eq!(
        address_from_wire(&vec![1, 2, 3]),
        Err(CoreError::InvalidAddressEncoding)
    );
    assert_eq!(
        address_from_wire(&vec![0; 21]),
        Err(CoreError::InvalidAddressEncoding)
    );
    assert_eq!(address_from_wire(&vec![]), Err(CoreError::InvalidAddressEncoding));
}

#[test]
fn v1_native_token_transfer_converts() {
    let wire = submit_transaction_request::TransactionType::NativeTokenTransfer(
        NativeTokenTransfer { address: addr_bytes(), amount: "1000".to_string() },
    );
    let expected_addr: [u8; 20] = [
        1, 2, 3, 4, 5, 6, 7, 8, 9, 10, 11, 12, 13, 14, 15, 16, 17, 18, 19, 20,
    ];
    assert_eq!(
        TransactionType::try_from(wire),
        Ok(TransactionType::NativeTokenTransfer(expected_addr, 1000))
    );
}

#[test]
fn v1_native_token_transfer_bad_address() {
    let wire = submit_transaction_request::TransactionType::NativeTokenTransfer(
        NativeTokenTransfer { address: vec![1, 2], amount: "1000".to_string() },
    );
    assert_eq!(TransactionType::try_from(wire), Err(CoreError::InvalidAddressEncoding));
}

#[test]
fn v1_native_token_transfer_bad_amount() {
    let wire = submit_transaction_request::TransactionType::NativeTokenTransfer(
        NativeTokenTransfer { address: addr_bytes(), amount: "12x".to_string() },
    );
    assert_eq!(TransactionType::try_from(wire), Err(CoreError::InvalidNumericEncoding));
}

#[test]
fn v1_deployment_maps_enums() {
    let wire = submit_transaction_request::TransactionType::SmartContractDeployment(
        SmartContractDeployment {
            access_type: 1,
            contract_type: 0,
            contract_code: vec![0xde, 0xad],
            value: 77,
            salt: vec![1],
        },
    );
    assert_eq!(
        TransactionType::try_from(wire),
        Ok(TransactionType::SmartContractDeployment {
            access_type: AccessType::PUBLIC,
            contract_type: ContractType::L1XVM,
            contract_code: vec![0xde, 0xad],
            value: 77,
            salt: vec![1],
        })
    );
}

#[test]
fn unknown_access_type_rejected() {
    let wire = submit_transaction_request::TransactionType::SmartContractDeployment(
        SmartContractDeployment {
            access_type: 3,
            contract_type: 0,
            contract_code: vec![],
            value: 0,
            salt: vec![],
        },
    );
    assert_eq!(TransactionType::try_from(wire), Err(CoreError::UnknownEnumValue(3)));
}

#[test]
fn unknown_contract_type_99_rejected() {
    let wire = submit_transaction_request::TransactionType::SmartContractDeployment(
        SmartContractDeployment {
            access_type: 0,
            contract_type: 99,
            contract_code: vec![],
            value: 0,
            salt: vec![],
        },
    );
    assert_eq!(TransactionType::try_from(wire), Err(CoreError::UnknownEnumValue(99)));
}

#[test]
fn access_type_table_is_exhaustive() {
    assert_eq!(AccessType::try_from(0), Ok(AccessType::PRIVATE));
    assert_eq!(AccessType::try_from(1), Ok(AccessType::PUBLIC));
    assert_eq!(AccessType::try_from(2), Ok(AccessType::RESTICTED));
    assert_eq!(AccessType::try_from(-1), Err(CoreError::UnknownEnumValue(-1)));
    assert_eq!(ContractType::try_from(0), Ok(ContractType::L1XVM));
    assert_eq!(ContractType::try_from(1), Ok(ContractType::EVM));
    assert_eq!(ContractType::try_from(2), Ok(ContractType::XTALK));
    assert_eq!(ContractType::try_from(99), Err(CoreError::UnknownEnumValue(99)));
}

#[test]
fn staking_pool_absent_fields_stay_absent() {
    let wire = submit_transaction_request_v2::TransactionType::CreateStakingPool(
        CreateStakingPool {
            contract_instance_address: None,
            min_stake: None,
            max_stake: None,
            min_pool_balance: None,
            max_pool_balance: None,
            staking_period: None,
        },
    );
    assert_eq!(
        TransactionTypeV2::try_from(wire),
        Ok(TransactionTypeV2::CreateStakingPool {
            contract_instance_address: None,
            min_stake: None,
            max_stake: None,
            min_pool_balance: None,
            max_pool_balance: None,
            staking_period: None,
        })
    );
}

#[test]
fn staking_pool_unparseable_amount_rejected() {
    let wire = submit_transaction_request::TransactionType::CreateStakingPool(
        CreateStakingPool {
            contract_instance_address: Some(addr_bytes()),
            min_stake: Some("not-a-number".to_string()),
            max_stake: Some("500".to_string()),
            min_pool_balance: None,
            max_pool_balance: None,
            staking_period: Some("12".to_string()),
        },
    );
    assert_eq!(TransactionType::try_from(wire), Err(CoreError::InvalidNumericEncoding));
    let wire_v2 = submit_transaction_request_v2::TransactionType::CreateStakingPool(
        CreateStakingPool {
            contract_instance_address: None,
            min_stake: Some("abc".to_string()),
            max_stake: None,
            min_pool_balance: None,
            max_pool_balance: None,
            staking_period: None,
        },
    );
    assert_eq!(TransactionTypeV2::try_from(wire_v2), Err(CoreError::InvalidNumericEncoding));
}

#[test]
fn staking_pool_present_amounts_parse() {
    let wire = submit_transaction_request::TransactionType::CreateStakingPool(
        CreateStakingPool {
            contract_instance_address: Some(addr_bytes()),
            min_stake: Some("100".to_string()),
            max_stake: Some("500".to_string()),
            min_pool_balance: None,
            max_pool_balance: None,
            staking_period: Some("12".to_string()),
        },
    );
    let expected_addr: [u8; 20] = [
        1, 2, 3, 4, 5, 6, 7, 8, 9, 10, 11, 12, 13, 14, 15, 16, 17, 18, 19, 20,
    ];
    assert_eq!(
        TransactionType::try_from(wire),
        Ok(TransactionType::CreateStakingPool {
            contract_instance_address: Some(expected_addr),
            min_stake: Some(100),
            max_stake: Some(500),
            min_pool_balance: None,
            max_pool_balance: None,
            staking_period: Some(12),
        })
    );
}

#[test]
fn staking_pool_bad_address_rejected() {
    let wire = submit_transaction_request::TransactionType::CreateStakingPool(
        CreateStakingPool {
            contract_instance_address: Some(vec![1, 2, 3]),
            min_stake: None,
            max_stake: None,
            min_pool_balance: None,
            max_pool_balance: None,
            staking_period: None,
        },
    );
    assert_eq!(TransactionType::try_from(wire), Err(CoreError::InvalidAddressEncoding));
}

#[test]
fn v2_deployment_parses_deposit() {
    let wire = submit_transaction_request_v2::TransactionType::SmartContractDeployment(
        SmartContractDeploymentV2 {
            access_type: 2,
            contract_type: 1,
            contract_code: vec![7],
            deposit: "340282366920938463463374607431768211455".to_string(),
            salt: vec![],
        },
    );
    assert_eq!(
        TransactionTypeV2::try_from(wire),
        Ok(TransactionTypeV2::SmartContractDeployment {
            access_type: AccessType::RESTICTED,
            contract_type: ContractType::EVM,
            contract_code: vec![7],
            deposit: u128::MAX,
            salt: vec![],
        })
    );
}

#[test]
fn v2_function_call_bad_deposit_rejected() {
    let wire = submit_transaction_request_v2::TransactionType::SmartContractFunctionCall(
        SmartContractFunctionCallV2 {
            contract_instance_address: addr_bytes(),
            function_name: vec![1],
            arguments: vec![2],
            deposit: "".to_string(),
        },
    );
    assert_eq!(TransactionTypeV2::try_from(wire), Err(CoreError::InvalidNumericEncoding));
}

#[test]
fn v2_upgrade_converts_and_validates_both_addresses() {
    let wire = submit_transaction_request_v2::TransactionType::Upgrade(Upgrade {
        instance_address: addr_bytes(),
        new_code_address: vec![9; 20],
        init_upgrade_args: vec![1, 2],
        migrate_args: vec![3],
    });
    let a: [u8; 20] = [
        1, 2, 3, 4, 5, 6, 7, 8, 9, 10, 11, 12, 13, 14, 15, 16, 17, 18, 19, 20,
    ];
    assert_eq!(
        TransactionTypeV2::try_from(wire),
        Ok(TransactionTypeV2::Upgrade {
            instance_address: a,
            new_code_address: [9; 20],
            init_upgrade_args: vec![1, 2],
            migrate_args: vec![3],
        })
    );
    let bad = submit_transaction_request_v2::TransactionType::Upgrade(Upgrade {
        instance_address: addr_bytes(),
        new_code_address: vec![9; 19],
        init_upgrade_args: vec![],
        migrate_args: vec![],
    });
    assert_eq!(TransactionTypeV2::try_from(bad), Err(CoreError::InvalidAddressEncoding));
}

#[test]
fn stake_and_unstake_convert() {
    let stake = submit_transaction_request::TransactionType::Stake(Stake {
        pool_address: addr_bytes(),
        amount: "5".to_string(),
    });
    let unstake = submit_transaction_request::TransactionType::Unstake(UnStake {
        pool_address: addr_bytes(),
        amount: "6".to_string(),
    });
    let a: [u8; 20] = [
        1, 2, 3, 4, 5, 6, 7, 8, 9, 10, 11, 12, 13, 14, 15, 16, 17, 18, 19, 20,
    ];
    assert_eq!(
        TransactionType::try_from(stake),
        Ok(TransactionType::Stake { pool_address: a, amount: 5 })
    );
    assert_eq!(
        TransactionType::try_from(unstake),
        Ok(TransactionType::UnStake { pool_address: a, amount: 6 })
    );
}

#[test]
fn estimate_fee_converts_to_same_domain_shape() {
    let fee_wire = estimate_fee_request::TransactionType::NativeTokenTransfer(
        NativeTokenTransfer { address: addr_bytes(), amount: "42".to_string() },
    );
    let submit_wire = submit_transaction_request_v2::TransactionType::NativeTokenTransfer(
        NativeTokenTransfer { address: addr_bytes(), amount: "42".to_string() },
    );
    assert_eq!(
        TransactionTypeV2::try_from_estimate_fee(fee_wire),
        TransactionTypeV2::try_from(submit_wire)
    );
}

#[test]
fn error_texts_are_stable() {
    assert_eq!(CoreError::InvalidAddressEncoding.as_text(), "invalid address encoding");
    assert_eq!(CoreError::InvalidNumericEncoding.as_text(), "invalid numeric encoding");
    assert_eq!(CoreError::UnknownEnumValue(99).as_text(), "unknown enum value");
    assert_eq!(CoreError::InvalidPrivateKey.as_text(), "invalid private key");
    assert_eq!(CoreError::InvalidKeyEncoding.as_text(), "invalid key encoding");
    assert_eq!(CoreError::SerializationFailure.as_text(), "serialization failure");
}
