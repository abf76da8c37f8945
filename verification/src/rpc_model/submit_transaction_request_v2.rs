//! The later protocol generation's wire transaction variants, and the
//! one-way adapter that lifts the earliest generation's variants into
//! this shape.

use vstd::prelude::*;

use crate::numeric::dec_chars;
use crate::numeric::u128_to_decimal;
use crate::rpc_model::CreateStakingPool;
use crate::rpc_model::NativeTokenTransfer;
use crate::rpc_model::SmartContractDeploymentV2;
use crate::rpc_model::SmartContractFunctionCallV2;
use crate::rpc_model::SmartContractInitV2;
use crate::rpc_model::Stake;
use crate::rpc_model::UnStake;
use crate::rpc_model::Upgrade;
use crate::rpc_model::submit_transaction_request;

verus! {

/// The tagged wire transaction of the later generation.
#[derive(Debug, Clone, PartialEq)]
pub enum TransactionType {
    NativeTokenTransfer(NativeTokenTransfer),
    SmartContractDeployment(SmartContractDeploymentV2),
    SmartContractInit(SmartContractInitV2),
    SmartContractFunctionCall(SmartContractFunctionCallV2),
    CreateStakingPool(CreateStakingPool),
    Stake(Stake),
    Unstake(UnStake),
    Upgrade(Upgrade),
}

/// How an upgraded wire transaction relates to its old-generation
/// source.  The adapter is lossy by design only in the one specified
/// way: shapes that the old generation could not express a deposit for
/// receive the zero value `"0"` exactly; a deployment's native integer
/// deposit is re-expressed as its decimal string.  Every other field is
/// kept unchanged.
pub open spec fn upgrades_to(w: submit_transaction_request::TransactionType, r: TransactionType) -> bool {
    match w {
        submit_transaction_request::TransactionType::NativeTokenTransfer(m) => {
            &&& r matches TransactionType::NativeTokenTransfer(o)
            &&& o.address@ == m.address@
            &&& o.amount@ == m.amount@
        },
        submit_transaction_request::TransactionType::SmartContractDeployment(m) => {
            &&& r matches TransactionType::SmartContractDeployment(o)
            &&& o.access_type == m.access_type
            &&& o.contract_type == m.contract_type
            &&& o.contract_code@ == m.contract_code@
            &&& o.deposit@ == dec_chars(m.value as nat)
            &&& o.salt@ == m.salt@
        },
        submit_transaction_request::TransactionType::SmartContractInit(m) => {
            &&& r matches TransactionType::SmartContractInit(o)
            &&& o.contract_code_address@ == m.address@
            &&& o.arguments@ == m.arguments@
            &&& o.deposit@ == seq!['0']
        },
        submit_transaction_request::TransactionType::SmartContractFunctionCall(m) => {
            &&& r matches TransactionType::SmartContractFunctionCall(o)
            &&& o.contract_instance_address@ == m.contract_address@
            &&& o.function_name@ == m.function_name@
            &&& o.arguments@ == m.arguments@
            &&& o.deposit@ == seq!['0']
        },
        submit_transaction_request::TransactionType::CreateStakingPool(m) => {
            r == TransactionType::CreateStakingPool(m)
        },
        submit_transaction_request::TransactionType::Stake(m) => {
            r == TransactionType::Stake(m)
        },
        submit_transaction_request::TransactionType::Unstake(m) => {
            r == TransactionType::Unstake(m)
        },
    }
}

/// Version-upgrade zero default: lifting an old-generation contract
/// function call or contract initialization — shapes with no deposit
/// concept — into the newer shape yields a deposit of exactly `"0"`.
pub proof fn lemma_upgrade_defaults_zero_deposit(
    w: submit_transaction_request::TransactionType,
    r: TransactionType,
)
    requires
        upgrades_to(w, r),
    ensures
        w matches submit_transaction_request::TransactionType::SmartContractFunctionCall(_) ==> (
        r matches TransactionType::SmartContractFunctionCall(o) && o.deposit@ == seq!['0']),
        w matches submit_transaction_request::TransactionType::SmartContractInit(_) ==> (
        r matches TransactionType::SmartContractInit(o) && o.deposit@ == seq!['0']),
{
}

impl TransactionType {
    /// One-way adapter from the earliest generation's wire transaction
    /// into this generation's shape.
    pub fn from(value: submit_transaction_request::TransactionType) -> (r: TransactionType)
        ensures
            upgrades_to(value, r),
    {
        match value {
            submit_transaction_request::TransactionType::CreateStakingPool(v) => {
                TransactionType::CreateStakingPool(v)
            },
            submit_transaction_request::TransactionType::NativeTokenTransfer(v) => {
                TransactionType::NativeTokenTransfer(v)
            },
            submit_transaction_request::TransactionType::SmartContractDeployment(v) => {
                TransactionType::SmartContractDeployment(SmartContractDeploymentV2 {
                    access_type: v.access_type,
                    contract_type: v.contract_type,
                    contract_code: v.contract_code,
                    deposit: u128_to_decimal(v.value),
                    salt: v.salt,
                })
            },
            submit_transaction_request::TransactionType::SmartContractFunctionCall(v) => {
                TransactionType::SmartContractFunctionCall(SmartContractFunctionCallV2 {
                    contract_instance_address: v.contract_address,
                    function_name: v.function_name,
                    arguments: v.arguments,
                    deposit: u128_to_decimal(0),
                })
            },
            submit_transaction_request::TransactionType::SmartContractInit(v) => {
                TransactionType::SmartContractInit(SmartContractInitV2 {
                    contract_code_address: v.address,
                    arguments: v.arguments,
                    deposit: u128_to_decimal(0),
                })
            },
            submit_transaction_request::TransactionType::Stake(v) => TransactionType::Stake(v),
            submit_transaction_request::TransactionType::Unstake(v) => TransactionType::Unstake(v),
        }
    }
}

} // verus!
