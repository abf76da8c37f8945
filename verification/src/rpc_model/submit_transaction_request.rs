//! The earliest protocol generation's wire transaction variants.

use vstd::prelude::*;

use crate::rpc_model::CreateStakingPool;
use crate::rpc_model::NativeTokenTransfer;
use crate::rpc_model::SmartContractDeployment;
use crate::rpc_model::SmartContractFunctionCall;
use crate::rpc_model::SmartContractInit;
use crate::rpc_model::Stake;
use crate::rpc_model::UnStake;

verus! {

/// The tagged wire transaction of the earliest generation.
#[derive(Debug, Clone, PartialEq)]
pub enum TransactionType {
    NativeTokenTransfer(NativeTokenTransfer),
    SmartContractDeployment(SmartContractDeployment),
    SmartContractInit(SmartContractInit),
    SmartContractFunctionCall(SmartContractFunctionCall),
    CreateStakingPool(CreateStakingPool),
    Stake(Stake),
    Unstake(UnStake),
}

} // verus!
