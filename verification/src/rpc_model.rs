//! Wire-format request model.
//!
//! These are the already-decoded shapes that the transport layer hands to
//! the signing core: variable-length address bytes, decimal-string
//! amounts in the later generations, and small-integer enumerations.
//! The binary schema encoding itself is the transport layer's job and is
//! out of scope here.

pub mod estimate_fee_request;
pub mod submit_transaction_request;
pub mod submit_transaction_request_v2;
pub mod transaction;

use vstd::prelude::*;

verus! {

/// A native token transfer as carried on the wire.
#[derive(Debug, Clone, PartialEq)]
pub struct NativeTokenTransfer {
    pub address: Vec<u8>,
    pub amount: String,
}

/// A contract deployment in the earliest generation: the deposited
/// amount travels as a native integer.
#[derive(Debug, Clone, PartialEq)]
pub struct SmartContractDeployment {
    pub access_type: i32,
    pub contract_type: i32,
    pub contract_code: Vec<u8>,
    pub value: u128,
    pub salt: Vec<u8>,
}

/// A contract deployment in the later generations: the deposit travels
/// as a decimal string.
#[derive(Debug, Clone, PartialEq)]
pub struct SmartContractDeploymentV2 {
    pub access_type: i32,
    pub contract_type: i32,
    pub contract_code: Vec<u8>,
    pub deposit: String,
    pub salt: Vec<u8>,
}

/// A contract initialization in the earliest generation.
#[derive(Debug, Clone, PartialEq)]
pub struct SmartContractInit {
    pub address: Vec<u8>,
    pub arguments: Vec<u8>,
}

/// A contract initialization in the later generations, with a deposit.
#[derive(Debug, Clone, PartialEq)]
pub struct SmartContractInitV2 {
    pub contract_code_address: Vec<u8>,
    pub arguments: Vec<u8>,
    pub deposit: String,
}

/// A contract function call in the earliest generation.
#[derive(Debug, Clone, PartialEq)]
pub struct SmartContractFunctionCall {
    pub contract_address: Vec<u8>,
    pub function_name: Vec<u8>,
    pub arguments: Vec<u8>,
}

/// A contract function call in the later generations, with a deposit.
#[derive(Debug, Clone, PartialEq)]
pub struct SmartContractFunctionCallV2 {
    pub contract_instance_address: Vec<u8>,
    pub function_name: Vec<u8>,
    pub arguments: Vec<u8>,
    pub deposit: String,
}

/// A staking pool creation; every field is independently optional, and
/// absence is a meaningful state, not an error.
#[derive(Debug, Clone, PartialEq)]
pub struct CreateStakingPool {
    pub contract_instance_address: Option<Vec<u8>>,
    pub min_stake: Option<String>,
    pub max_stake: Option<String>,
    pub min_pool_balance: Option<String>,
    pub max_pool_balance: Option<String>,
    pub staking_period: Option<String>,
}

/// A stake placement.
#[derive(Debug, Clone, PartialEq)]
pub struct Stake {
    pub pool_address: Vec<u8>,
    pub amount: String,
}

/// A stake withdrawal.
#[derive(Debug, Clone, PartialEq)]
pub struct UnStake {
    pub pool_address: Vec<u8>,
    pub amount: String,
}

/// A contract upgrade; present in the latest generation only.
#[derive(Debug, Clone, PartialEq)]
pub struct Upgrade {
    pub instance_address: Vec<u8>,
    pub new_code_address: Vec<u8>,
    pub init_upgrade_args: Vec<u8>,
    pub migrate_args: Vec<u8>,
}

/// The earliest generation's submission envelope.
#[derive(Debug, Clone, PartialEq)]
pub struct SubmitTransactionRequest {
    pub nonce: String,
    pub fee_limit: String,
    pub transaction_type: Option<submit_transaction_request::TransactionType>,
    pub verifying_key: Vec<u8>,
    pub signature: Vec<u8>,
}

/// The later generation's submission envelope.
#[derive(Debug, Clone, PartialEq)]
pub struct SubmitTransactionRequestV2 {
    pub nonce: String,
    pub fee_limit: String,
    pub transaction_type: Option<submit_transaction_request_v2::TransactionType>,
    pub verifying_key: Vec<u8>,
    pub signature: Vec<u8>,
}

/// How an upgraded envelope relates to its source: every field is kept,
/// and the carried transaction, if any, is upgraded variant by variant.
pub open spec fn envelope_upgrades_to(
    w: SubmitTransactionRequest,
    r: SubmitTransactionRequestV2,
) -> bool {
    &&& r.nonce@ == w.nonce@
    &&& r.fee_limit@ == w.fee_limit@
    &&& r.verifying_key@ == w.verifying_key@
    &&& r.signature@ == w.signature@
    &&& match (w.transaction_type, r.transaction_type) {
        (Some(wt), Some(rt)) => submit_transaction_request_v2::upgrades_to(wt, rt),
        (None, None) => true,
        _ => false,
    }
}

impl SubmitTransactionRequestV2 {
    /// One-way adapter from the earliest generation's envelope into this
    /// one, for clients built against the old schema that talk to a
    /// newer backend.
    pub fn from(value: SubmitTransactionRequest) -> (r: SubmitTransactionRequestV2)
        ensures
            envelope_upgrades_to(value, r),
    {
        SubmitTransactionRequestV2 {
            nonce: value.nonce,
            fee_limit: value.fee_limit,
            transaction_type: match value.transaction_type {
                Some(t) => Some(submit_transaction_request_v2::TransactionType::from(t)),
                None => None,
            },
            verifying_key: value.verifying_key,
            signature: value.signature,
        }
    }
}

} // verus!
