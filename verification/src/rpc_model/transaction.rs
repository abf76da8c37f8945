//! The wire transaction shape used by the JSON-RPC surface: the earliest
//! generation's payloads under their own tag set.

use vstd::prelude::*;

use crate::rpc_model::NativeTokenTransfer;
use crate::rpc_model::SmartContractDeployment;
use crate::rpc_model::SmartContractFunctionCall;
use crate::rpc_model::SmartContractInit;
use crate::rpc_model::Stake;
use crate::rpc_model::UnStake;

verus! {

/// A tagged wire transaction as carried in JSON-RPC requests.
#[derive(Debug, Clone, PartialEq)]
pub enum Transaction {
    NativeTokenTransfer(NativeTokenTransfer),
    SmartContractDeployment(SmartContractDeployment),
    SmartContractInit(SmartContractInit),
    SmartContractFunctionCall(SmartContractFunctionCall),
    Stake(Stake),
    Unstake(UnStake),
}

} // verus!
