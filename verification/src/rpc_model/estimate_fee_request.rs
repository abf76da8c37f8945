//! The fee-estimation request's wire transaction variants: structurally
//! the same payloads as the later submission generation, but a distinct
//! wire type of its own.

use vstd::prelude::*;

use crate::rpc_model::CreateStakingPool;
use crate::rpc_model::NativeTokenTransfer;
use crate::rpc_model::SmartContractDeploymentV2;
use crate::rpc_model::SmartContractFunctionCallV2;
use crate::rpc_model::SmartContractInitV2;
use crate::rpc_model::Stake;
use crate::rpc_model::UnStake;
use crate::rpc_model::Upgrade;

verus! {

/// The tagged wire transaction of a fee-estimation request.
#[derive(Debug, Clone, PartialEq)]
pub enum TransactionType {
    NativeTokenTransfer(NativeTokenTransfer),
    SmartContractDeployment(SmartContractDeploymentV2),
    SmartContractInit(SmartContractInitV2),
    SmartContractFunctionCall(SmartContractFunctionCallV2),
    CreateStakingPool(CreateStakingPool),
    Stake(Stake),
    Unstake(UnStake),
    Upgrade(Upgrade),
}

} // verus!
