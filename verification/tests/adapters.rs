use l1x_signer::rpc_model::NativeTokenTransfer;
use l1x_signer::rpc_model::SmartContractDeployment;
use l1x_signer::rpc_model::SmartContractFunctionCall;
use l1x_signer::rpc_model::SmartContractInit;
use l1x_signer::rpc_model::SubmitTransactionRequest;
use l1x_signer::rpc_model::SubmitTransactionRequestV2;
use l1x_signer::rpc_model::submit_transaction_request;
use l1x_signer::rpc_model::submit_transaction_request_v2;

#[test]
fn upgraded_function_call_defaults_deposit_to_zero() {
    let old = submit_transaction_request::TransactionType::SmartContractFunctionCall(
        SmartContractFunctionCall {
            contract_address: vec![4; 20],
            function_name: b"transfer".to_vec(),
            arguments: vec![1, 2, 3],
        },
    );
    let new = submit_transaction_request_v2::TransactionType::from(old);
    match new {
        submit_transaction_request_v2::TransactionType::SmartContractFunctionCall(o) => {
            assert_eq!(o.deposit, "0");
            assert_eq!(o.contract_instance_address, vec![4; 20]);
            assert_eq!(o.function_name, b"transfer".to_vec());
            assert_eq!(o.arguments, vec![1, 2, 3]);
        },
        other => panic!("unexpected variant: {:?}", other),
    }
}

#[test]
fn upgraded_init_defaults_deposit_to_zero() {
    let old = submit_transaction_request::TransactionType::SmartContractInit(
        SmartContractInit { address: vec![5; 20], arguments: vec![9] },
    );
    let new = submit_transaction_request_v2::TransactionType::from(old);
    match new {
        submit_transaction_request_v2::TransactionType::SmartContractInit(o) => {
            assert_eq!(o.deposit, "0");
            assert_eq!(o.contract_code_address, vec![5; 20]);
            assert_eq!(o.arguments, vec![9]);
        },
        other => panic!("unexpected variant: {:?}", other),
    }
}

#[test]
fn upgraded_deployment_stringifies_value() {
    let old = submit_transaction_request::TransactionType::SmartContractDeployment(
        SmartContractDeployment {
            access_type: 1,
            contract_type: 2,
            contract_code: vec![1],
            value: 42,
            salt: vec![2],
        },
    );
    let new = submit_transaction_request_v2::TransactionType::from(old);
    match new {
        submit_transaction_request_v2::TransactionType::SmartContractDeployment(o) => {
            assert_eq!(o.deposit, "42");
            assert_eq!(o.access_type, 1);
            assert_eq!(o.contract_type, 2);
            assert_eq!(o.contract_code, vec![1]);
            assert_eq!(o.salt, vec![2]);
        },
        other => panic!("unexpected variant: {:?}", other),
    }
}

#[test]
fn upgraded_envelope_keeps_every_field() {
    let old = SubmitTransactionRequest {
        nonce: "7".to_string(),
        fee_limit: "100".to_string(),
        transaction_type: Some(submit_transaction_request::TransactionType::NativeTokenTransfer(
            NativeTokenTransfer { address: vec![1; 20], amount: "3".to_string() },
        )),
        verifying_key: vec![0xaa],
        signature: vec![0xbb],
    };
    let new = SubmitTransactionRequestV2::from(old);
    assert_eq!(new.nonce, "7");
    assert_eq!(new.fee_limit, "100");
    assert_eq!(new.verifying_key, vec![0xaa]);
    assert_eq!(new.signature, vec![0xbb]);
    match new.transaction_type {
        Some(submit_transaction_request_v2::TransactionType::NativeTokenTransfer(o)) => {
            assert_eq!(o.address, vec![1; 20]);
            assert_eq!(o.amount, "3");
        },
        other => panic!("unexpected transaction: {:?}", other),
    }
}

#[test]
fn upgraded_envelope_keeps_absent_transaction() {
    let old = SubmitTransactionRequest {
        nonce: "0".to_string(),
        fee_limit: "0".to_string(),
        transaction_type: None,
        verifying_key: vec![],
        signature: vec![],
    };
    let new = SubmitTransactionRequestV2::from(old);
    assert!(new.transaction_type.is_none());
}
