//! Version-tagged domain model of transactions, and the validated
//! conversions from small-integer wire enumerations and variable-length
//! wire address bytes into their fixed domain shapes.

use vstd::prelude::*;

use crate::errors::CoreError;
use crate::primitives::Address;
use crate::primitives::Balance;
use crate::primitives::BlockNumber;
use crate::primitives::ContractArgument;
use crate::primitives::ContractCode;
use crate::primitives::ContractFunction;
use crate::primitives::Nonce;
use crate::primitives::Salt;
use crate::primitives::SignatureBytes;
use crate::primitives::UpgradeArgs;
use crate::primitives::VerifyingKeyBytes;

verus! {

broadcast use vstd::array::group_array_axioms;

/// Who may initiate a deployed contract.
#[derive(Debug, Clone, Copy, PartialEq, Eq, Structural)]
pub enum AccessType {
    PRIVATE,
    PUBLIC,
    // Will be used in future to restrict the contract to be initiated by only specified addresses
    RESTICTED,
}

impl AccessType {
    /// The exhaustive wire mapping: `0`, `1` and `2` are the only
    /// accepted encodings; anything else is an `UnknownEnumValue`
    /// failure carrying the raw wire value.
    pub open spec fn spec_try_from(value: i32) -> Result<AccessType, CoreError> {
        if value == 0 {
            Ok(AccessType::PRIVATE)
        } else if value == 1 {
            Ok(AccessType::PUBLIC)
        } else if value == 2 {
            Ok(AccessType::RESTICTED)
        } else {
            Err(CoreError::UnknownEnumValue(value))
        }
    }

    /// Maps a small-integer wire value to an access type.
    pub fn try_from(value: i32) -> (r: Result<AccessType, CoreError>)
        ensures
            r == AccessType::spec_try_from(value),
    {
        match value {
            0 => Ok(AccessType::PRIVATE),
            1 => Ok(AccessType::PUBLIC),
            2 => Ok(AccessType::RESTICTED),
            _ => Err(CoreError::UnknownEnumValue(value)),
        }
    }
}

/// Which virtual machine a contract targets.
#[derive(Debug, Clone, Copy, PartialEq, Eq, Structural)]
pub enum ContractType {
    L1XVM,
    EVM,
    XTALK,
}

impl ContractType {
    /// The exhaustive wire mapping: `0`, `1` and `2` are the only
    /// accepted encodings; anything else is an `UnknownEnumValue`
    /// failure carrying the raw wire value.
    pub open spec fn spec_try_from(value: i32) -> Result<ContractType, CoreError> {
        if value == 0 {
            Ok(ContractType::L1XVM)
        } else if value == 1 {
            Ok(ContractType::EVM)
        } else if value == 2 {
            Ok(ContractType::XTALK)
        } else {
            Err(CoreError::UnknownEnumValue(value))
        }
    }

    /// Maps a small-integer wire value to a contract type.
    pub fn try_from(value: i32) -> (r: Result<ContractType, CoreError>)
        ensures
            r == ContractType::spec_try_from(value),
    {
        match value {
            0 => Ok(ContractType::L1XVM),
            1 => Ok(ContractType::EVM),
            2 => Ok(ContractType::XTALK),
            _ => Err(CoreError::UnknownEnumValue(value)),
        }
    }
}

/// Whether a variable-length wire byte sequence is a valid address, and
/// if so which bytes the fixed 20-byte domain address holds: exactly the
/// wire bytes, unchanged.
pub open spec fn address_from_wire_spec(b: Seq<u8>) -> Option<Seq<u8>> {
    if b.len() == 20 {
        Some(b)
    } else {
        None
    }
}

/// Validates a variable-length wire byte sequence as a 20-byte address.
///
/// The conversion keeps the bytes unchanged and fails with
/// `InvalidAddressEncoding` exactly when the length is not 20.
pub fn address_from_wire(b: &Vec<u8>) -> (r: Result<Address, CoreError>)
    ensures
        match address_from_wire_spec(b@) {
            Some(s) => r matches Ok(a) && a@ == s,
            None => r == Err::<Address, CoreError>(CoreError::InvalidAddressEncoding),
        },
{
    if b.len() != 20 {
        return Err(CoreError::InvalidAddressEncoding);
    }
    let mut a: Address = [0u8; 20];
    let mut i: usize = 0;
    while i < 20
        invariant
            b@.len() == 20,
            0 <= i <= 20,
            a@.len() == 20,
            forall|j: int| 0 <= j < i ==> a@[j] == b@[j],
        decreases 20 - i,
    {
        a[i] = b[i];
        i = i + 1;
    }
    proof {
        assert(a@ =~= b@);
    }
    Ok(a)
}

/// Renders a 20-byte domain address in its wire form: the same bytes as
/// a variable-length sequence.
pub fn address_to_wire(a: &Address) -> (r: Vec<u8>)
    ensures
        r@ == a@,
{
    let mut out: Vec<u8> = Vec::new();
    let mut i: usize = 0;
    while i < 20
        invariant
            0 <= i <= 20,
            a@.len() == 20,
            out@ =~= a@.take(i as int),
        decreases 20 - i,
    {
        out.push(a[i]);
        i = i + 1;
    }
    proof {
        assert(a@.take(20) =~= a@);
    }
    out
}

/// Address round trip: converting any valid 20-byte address into wire
/// bytes and back yields the address unchanged.  `address_to_wire`
/// returns the address bytes themselves, and on those bytes the wire
/// conversion is the identity.
pub proof fn lemma_address_round_trip(a: Seq<u8>)
    requires
        a.len() == 20,
    ensures
        address_from_wire_spec(a) == Some(a),
{
}

/// A fully formed transaction as carried on the wire after signing.
/// Pure data; the signing core constructs payloads, not this envelope.
#[derive(Debug, Clone, PartialEq)]
pub struct Transaction {
    pub nonce: Nonce,
    pub transaction_type: TransactionType,
    pub fee_limit: Balance,
    pub gas_price: Balance,
    pub signature: SignatureBytes,
    pub verifying_key: VerifyingKeyBytes,
}

/// The earliest protocol generation's domain transaction variants.
#[derive(Debug, Clone, PartialEq)]
pub enum TransactionType {
    NativeTokenTransfer(Address, Balance),
    SmartContractDeployment {
        access_type: AccessType,
        contract_type: ContractType,
        contract_code: ContractCode,
        value: Balance,
        salt: Salt,
    },
    SmartContractInit(Address, ContractArgument),
    SmartContractFunctionCall {
        contract_instance_address: Address,
        function: ContractFunction,
        arguments: ContractArgument,
    },
    CreateStakingPool {
        contract_instance_address: Option<Address>,
        min_stake: Option<Balance>,
        max_stake: Option<Balance>,
        min_pool_balance: Option<Balance>,
        max_pool_balance: Option<Balance>,
        staking_period: Option<BlockNumber>,
    },
    Stake {
        pool_address: Address,
        amount: Balance,
    },
    UnStake {
        pool_address: Address,
        amount: Balance,
    },
    StakingPoolContract {
        pool_address: Address,
        contract_instance_address: Address,
    },
}

/// The latest protocol generation's domain transaction variants: every
/// deployment and call carries a deposit, and contract upgrades exist.
#[derive(Debug, Clone, PartialEq)]
pub enum TransactionTypeV2 {
    NativeTokenTransfer(Address, Balance),
    SmartContractDeployment {
        access_type: AccessType,
        contract_type: ContractType,
        contract_code: ContractCode,
        deposit: Balance,
        salt: Salt,
    },
    SmartContractInit {
        contract_code_address: Address,
        arguments: ContractArgument,
        deposit: Balance,
    },
    SmartContractFunctionCall {
        contract_instance_address: Address,
        function: ContractFunction,
        arguments: ContractArgument,
        deposit: Balance,
    },
    CreateStakingPool {
        contract_instance_address: Option<Address>,
        min_stake: Option<Balance>,
        max_stake: Option<Balance>,
        min_pool_balance: Option<Balance>,
        max_pool_balance: Option<Balance>,
        staking_period: Option<BlockNumber>,
    },
    Stake {
        pool_address: Address,
        amount: Balance,
    },
    UnStake {
        pool_address: Address,
        amount: Balance,
    },
    StakingPoolContract {
        pool_address: Address,
        contract_instance_address: Address,
    },
    Upgrade {
        instance_address: Address,
        new_code_address: Address,
        init_upgrade_args: UpgradeArgs,
        migrate_args: UpgradeArgs,
    },
}

/// The signable structure of the earliest generation, with a gas price.
/// Pure data for callers that canonicalize that richer form themselves.
#[derive(Debug, Clone, PartialEq)]
pub struct TXSignPayload {
    pub nonce: Nonce,
    pub transaction_type: TransactionType,
    pub fee_limit: Balance,
    pub gas_price: Balance,
}

} // verus!
