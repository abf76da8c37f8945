use l1x_signer::TXSignPayload;
use l1x_signer::TXSignPayloadV2;
use l1x_signer::TransactionTypeV2SignPayload;
use l1x_signer::errors::CoreError;
use l1x_signer::numeric::u128_to_decimal;
use l1x_signer::rpc_model::NativeTokenTransfer;
use l1x_signer::rpc_model::Stake;
use l1x_signer::rpc_model::submit_transaction_request;
use l1x_signer::rpc_model::submit_transaction_request_v2;
use l1x_signer::sign;
use l1x_signer::sign_v2;
use l1x_signer::transaction::TransactionType;
use l1x_signer::transaction::TransactionTypeV2;

use secp256k1::Message;
use secp256k1::Secp256k1;
use secp256k1::SecretKey;
use secp256k1::ecdsa::Signature;
use secp256k1::hashes::Hash as HashOps;
use secp256k1::hashes::sha256;

fn test_key() -> SecretKey {
    let mut bytes = [0u8; 32];
    bytes[31] = 0x2a;
    SecretKey::from_slice(&bytes).expect("valid scalar")
}

fn wire_transfer() -> submit_transaction_request::TransactionType {
    submit_transaction_request::TransactionType::NativeTokenTransfer(NativeTokenTransfer {
        address: vec![7; 20],
        amount: "1000".to_string(),
    })
}

#[test]
fn sign_returns_compact_signature() {
    let sig = sign(test_key(), wire_transfer(), 5, 1).expect("signable");
    assert_eq!(sig.len(), 64);
}

#[test]
fn signature_verifies_against_canonical_digest() {
    let sk = test_key();
    let sig_bytes = sign(sk, wire_transfer(), 5, 1).expect("signable");

    // Rebuild the canonical payload independently and verify the
    // signature against its SHA-256 digest.
    let converted = TransactionType::try_from(wire_transfer()).unwrap();
    let payload = TXSignPayload { nonce: 1, transaction_type: converted, fee_limit: 5 };
    let digest = sha256::Hash::hash(payload.to_canonical_json().as_bytes());
    let msg = Message::from_digest_slice(digest.as_ref()).unwrap();

    let secp = Secp256k1::new();
    let public_key = test_key().public_key(&secp);
    let sig = Signature::from_compact(&sig_bytes).expect("64-byte compact form");
    assert!(secp.verify_ecdsa(&msg, &sig, &public_key).is_ok());
}

#[test]
fn sign_v2_signature_verifies_against_canonical_digest() {
    let sk = test_key();
    let wire = submit_transaction_request_v2::TransactionType::Stake(Stake {
        pool_address: vec![3; 20],
        amount: "77".to_string(),
    });
    let sig_bytes = sign_v2(sk, wire.clone(), 9, 4).expect("signable");
    assert_eq!(sig_bytes.len(), 64);

    let converted = TransactionTypeV2::try_from(wire).unwrap();
    let payload = TXSignPayloadV2 {
        nonce: u128_to_decimal(4),
        transaction_type: TransactionTypeV2SignPayload::from(converted),
        fee_limit: u128_to_decimal(9),
    };
    let digest = sha256::Hash::hash(payload.to_canonical_json().as_bytes());
    let msg = Message::from_digest_slice(digest.as_ref()).unwrap();

    let secp = Secp256k1::new();
    let public_key = test_key().public_key(&secp);
    let sig = Signature::from_compact(&sig_bytes).expect("64-byte compact form");
    assert!(secp.verify_ecdsa(&msg, &sig, &public_key).is_ok());
}

#[test]
fn sign_reports_conversion_failures() {
    let bad_address = submit_transaction_request::TransactionType::NativeTokenTransfer(
        NativeTokenTransfer { address: vec![7; 19], amount: "1".to_string() },
    );
    assert_eq!(
        sign(test_key(), bad_address, 0, 0),
        Err(CoreError::InvalidAddressEncoding)
    );
    let bad_amount = submit_transaction_request::TransactionType::NativeTokenTransfer(
        NativeTokenTransfer { address: vec![7; 20], amount: "ten".to_string() },
    );
    assert_eq!(
        sign(test_key(), bad_amount, 0, 0),
        Err(CoreError::InvalidNumericEncoding)
    );
}

#[test]
fn sign_v2_reports_conversion_failures() {
    let bad = submit_transaction_request_v2::TransactionType::Stake(Stake {
        pool_address: vec![3; 20],
        amount: "7.5".to_string(),
    });
    assert_eq!(sign_v2(test_key(), bad, 0, 0), Err(CoreError::InvalidNumericEncoding));
}

#[test]
fn different_payloads_give_different_digests() {
    let converted_a = TransactionType::try_from(wire_transfer()).unwrap();
    let converted_b = TransactionType::try_from(wire_transfer()).unwrap();
    let a = TXSignPayload { nonce: 1, transaction_type: converted_a, fee_limit: 5 };
    let b = TXSignPayload { nonce: 2, transaction_type: converted_b, fee_limit: 5 };
    assert_ne!(a.to_canonical_json(), b.to_canonical_json());
}
