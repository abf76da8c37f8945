//! Wire-to-domain conversion.
//!
//! Each converter below is a pure, total function from a wire transaction
//! variant to either a domain variant or a typed failure.  The relations
//! `converts_wire_v1`, `converts_json_wire`, `converts_wire_v2` and
//! `converts_fee_wire` state field by field what comes out, which wire
//! values are rejected, and with which error; the error reported is the
//! first failing field in declaration order.

use vstd::prelude::*;

use crate::errors::CoreError;
use crate::numeric::parse_dec;
use crate::numeric::parse_u128_decimal;
use crate::primitives::Address;
use crate::rpc_model;
use crate::rpc_model::CreateStakingPool;
use crate::rpc_model::estimate_fee_request;
use crate::rpc_model::submit_transaction_request;
use crate::rpc_model::submit_transaction_request_v2;
use crate::transaction::AccessType;
use crate::transaction::ContractType;
use crate::transaction::TransactionType;
use crate::transaction::TransactionTypeV2;
use crate::transaction::address_from_wire;

verus! {

/// An optional decimal wire field maps to an optional amount: absence is
/// kept, and a present field denotes its parsed value.  The converters
/// reject any present field that does not parse, so on accepted inputs a
/// present field always maps to a present amount.
pub open spec fn opt_parse(o: Option<String>) -> Option<u128> {
    match o {
        Some(s) => parse_dec(s@),
        None => None,
    }
}

/// A present optional decimal field that does not parse.  Absence is
/// never unparseable.
pub open spec fn opt_unparseable(o: Option<String>) -> bool {
    o matches Some(s) && parse_dec(s@) is None
}

/// First failure among an address field and a decimal amount field,
/// checked in that order.
pub open spec fn addr_amount_error(address: Seq<u8>, amount: Seq<char>) -> Option<CoreError> {
    if address.len() != 20 {
        Some(CoreError::InvalidAddressEncoding)
    } else if parse_dec(amount) is None {
        Some(CoreError::InvalidNumericEncoding)
    } else {
        None
    }
}

/// First failure among the two enumeration fields of a deployment,
/// checked access type first.
pub open spec fn enums_error(access_type: i32, contract_type: i32) -> Option<CoreError> {
    if AccessType::spec_try_from(access_type) is Err {
        Some(CoreError::UnknownEnumValue(access_type))
    } else if ContractType::spec_try_from(contract_type) is Err {
        Some(CoreError::UnknownEnumValue(contract_type))
    } else {
        None
    }
}

/// First failure among a staking-pool creation's optional fields, in
/// declaration order: a present contract instance address of the wrong
/// length, then any present amount or period that does not parse.
/// Absent fields never fail.
pub open spec fn csp_error(m: CreateStakingPool) -> Option<CoreError> {
    if m.contract_instance_address matches Some(a) && a@.len() != 20 {
        Some(CoreError::InvalidAddressEncoding)
    } else if opt_unparseable(m.min_stake) {
        Some(CoreError::InvalidNumericEncoding)
    } else if opt_unparseable(m.max_stake) {
        Some(CoreError::InvalidNumericEncoding)
    } else if opt_unparseable(m.min_pool_balance) {
        Some(CoreError::InvalidNumericEncoding)
    } else if opt_unparseable(m.max_pool_balance) {
        Some(CoreError::InvalidNumericEncoding)
    } else if opt_unparseable(m.staking_period) {
        Some(CoreError::InvalidNumericEncoding)
    } else {
        None
    }
}

/// How converted staking-pool fields relate to their wire source:
/// a present address is kept byte for byte, absence stays absence, and
/// each optional amount goes through `opt_parse`.
pub open spec fn csp_fields_converted(
    m: CreateStakingPool,
    contract_instance_address: Option<Address>,
    min_stake: Option<u128>,
    max_stake: Option<u128>,
    min_pool_balance: Option<u128>,
    max_pool_balance: Option<u128>,
    staking_period: Option<u128>,
) -> bool {
    &&& match (m.contract_instance_address, contract_instance_address) {
        (Some(w), Some(a)) => a@ == w@,
        (None, None) => true,
        _ => false,
    }
    &&& min_stake == opt_parse(m.min_stake)
    &&& max_stake == opt_parse(m.max_stake)
    &&& min_pool_balance == opt_parse(m.min_pool_balance)
    &&& max_pool_balance == opt_parse(m.max_pool_balance)
    &&& staking_period == opt_parse(m.staking_period)
}

/// What converting an earliest-generation wire transaction yields.
pub open spec fn converts_wire_v1(
    w: submit_transaction_request::TransactionType,
    r: Result<TransactionType, CoreError>,
) -> bool {
    match w {
        submit_transaction_request::TransactionType::NativeTokenTransfer(m) => {
            match addr_amount_error(m.address@, m.amount@) {
                Some(e) => r == Err::<TransactionType, CoreError>(e),
                None => {
                    &&& r matches Ok(TransactionType::NativeTokenTransfer(a, v))
                    &&& a@ == m.address@
                    &&& v == parse_dec(m.amount@).unwrap()
                },
            }
        },
        submit_transaction_request::TransactionType::SmartContractDeployment(m) => {
            match enums_error(m.access_type, m.contract_type) {
                Some(e) => r == Err::<TransactionType, CoreError>(e),
                None => {
                    &&& r matches Ok(TransactionType::SmartContractDeployment {
                        access_type,
                        contract_type,
                        contract_code,
                        value,
                        salt,
                    })
                    &&& AccessType::spec_try_from(m.access_type) == Ok::<AccessType, CoreError>(access_type)
                    &&& ContractType::spec_try_from(m.contract_type) == Ok::<ContractType, CoreError>(contract_type)
                    &&& contract_code@ == m.contract_code@
                    &&& value == m.value
                    &&& salt@ == m.salt@
                },
            }
        },
        submit_transaction_request::TransactionType::SmartContractInit(m) => {
            if m.address@.len() != 20 {
                r == Err::<TransactionType, CoreError>(CoreError::InvalidAddressEncoding)
            } else {
                &&& r matches Ok(TransactionType::SmartContractInit(a, args))
                &&& a@ == m.address@
                &&& args@ == m.arguments@
            }
        },
        submit_transaction_request::TransactionType::SmartContractFunctionCall(m) => {
            if m.contract_address@.len() != 20 {
                r == Err::<TransactionType, CoreError>(CoreError::InvalidAddressEncoding)
            } else {
                &&& r matches Ok(TransactionType::SmartContractFunctionCall {
                    contract_instance_address,
                    function,
                    arguments,
                })
                &&& contract_instance_address@ == m.contract_address@
                &&& function@ == m.function_name@
                &&& arguments@ == m.arguments@
            }
        },
        submit_transaction_request::TransactionType::CreateStakingPool(m) => {
            match csp_error(m) {
                Some(e) => r == Err::<TransactionType, CoreError>(e),
                None => {
                    &&& r matches Ok(TransactionType::CreateStakingPool {
                        contract_instance_address,
                        min_stake,
                        max_stake,
                        min_pool_balance,
                        max_pool_balance,
                        staking_period,
                    })
                    &&& csp_fields_converted(
                        m,
                        contract_instance_address,
                        min_stake,
                        max_stake,
                        min_pool_balance,
                        max_pool_balance,
                        staking_period,
                    )
                },
            }
        },
        submit_transaction_request::TransactionType::Stake(m) => {
            match addr_amount_error(m.pool_address@, m.amount@) {
                Some(e) => r == Err::<TransactionType, CoreError>(e),
                None => {
                    &&& r matches Ok(TransactionType::Stake { pool_address, amount })
                    &&& pool_address@ == m.pool_address@
                    &&& amount == parse_dec(m.amount@).unwrap()
                },
            }
        },
        submit_transaction_request::TransactionType::Unstake(m) => {
            match addr_amount_error(m.pool_address@, m.amount@) {
                Some(e) => r == Err::<TransactionType, CoreError>(e),
                None => {
                    &&& r matches Ok(TransactionType::UnStake { pool_address, amount })
                    &&& pool_address@ == m.pool_address@
                    &&& amount == parse_dec(m.amount@).unwrap()
                },
            }
        },
    }
}

/// Optional-field preservation: a staking-pool creation whose optional
/// wire fields are all absent converts, in the later generation, to a
/// domain value whose fields are all absent — never zero-filled.
pub proof fn lemma_absent_staking_pool_fields_stay_absent(
    m: CreateStakingPool,
    r: Result<TransactionTypeV2, CoreError>,
)
    requires
        m.contract_instance_address is None,
        m.min_stake is None,
        m.max_stake is None,
        m.min_pool_balance is None,
        m.max_pool_balance is None,
        m.staking_period is None,
        converts_wire_v2(submit_transaction_request_v2::TransactionType::CreateStakingPool(m), r),
    ensures
        r matches Ok(TransactionTypeV2::CreateStakingPool {
            contract_instance_address: None,
            min_stake: None,
            max_stake: None,
            min_pool_balance: None,
            max_pool_balance: None,
            staking_period: None,
        }),
{
}

/// What converting a later-generation wire transaction yields.
pub open spec fn converts_wire_v2(
    w: submit_transaction_request_v2::TransactionType,
    r: Result<TransactionTypeV2, CoreError>,
) -> bool {
    match w {
        submit_transaction_request_v2::TransactionType::NativeTokenTransfer(m) => {
            match addr_amount_error(m.address@, m.amount@) {
                Some(e) => r == Err::<TransactionTypeV2, CoreError>(e),
                None => {
                    &&& r matches Ok(TransactionTypeV2::NativeTokenTransfer(a, v))
                    &&& a@ == m.address@
                    &&& v == parse_dec(m.amount@).unwrap()
                },
            }
        },
        submit_transaction_request_v2::TransactionType::SmartContractDeployment(m) => {
            match depl_v2_error(m.access_type, m.contract_type, m.deposit@) {
                Some(e) => r == Err::<TransactionTypeV2, CoreError>(e),
                None => {
                    &&& r matches Ok(TransactionTypeV2::SmartContractDeployment {
                        access_type,
                        contract_type,
                        contract_code,
                        deposit,
                        salt,
                    })
                    &&& AccessType::spec_try_from(m.access_type) == Ok::<AccessType, CoreError>(access_type)
                    &&& ContractType::spec_try_from(m.contract_type) == Ok::<ContractType, CoreError>(contract_type)
                    &&& contract_code@ == m.contract_code@
                    &&& deposit == parse_dec(m.deposit@).unwrap()
                    &&& salt@ == m.salt@
                },
            }
        },
        submit_transaction_request_v2::TransactionType::SmartContractInit(m) => {
            match addr_amount_error(m.contract_code_address@, m.deposit@) {
                Some(e) => r == Err::<TransactionTypeV2, CoreError>(e),
                None => {
                    &&& r matches Ok(TransactionTypeV2::SmartContractInit {
                        contract_code_address,
                        arguments,
                        deposit,
                    })
                    &&& contract_code_address@ == m.contract_code_address@
                    &&& arguments@ == m.arguments@
                    &&& deposit == parse_dec(m.deposit@).unwrap()
                },
            }
        },
        submit_transaction_request_v2::TransactionType::SmartContractFunctionCall(m) => {
            match addr_amount_error(m.contract_instance_address@, m.deposit@) {
                Some(e) => r == Err::<TransactionTypeV2, CoreError>(e),
                None => {
                    &&& r matches Ok(TransactionTypeV2::SmartContractFunctionCall {
                        contract_instance_address,
                        function,
                        arguments,
                        deposit,
                    })
                    &&& contract_instance_address@ == m.contract_instance_address@
                    &&& function@ == m.function_name@
                    &&& arguments@ == m.arguments@
                    &&& deposit == parse_dec(m.deposit@).unwrap()
                },
            }
        },
        submit_transaction_request_v2::TransactionType::CreateStakingPool(m) => {
            match csp_error(m) {
                Some(e) => r == Err::<TransactionTypeV2, CoreError>(e),
                None => {
                    &&& r matches Ok(TransactionTypeV2::CreateStakingPool {
                        contract_instance_address,
                        min_stake,
                        max_stake,
                        min_pool_balance,
                        max_pool_balance,
                        staking_period,
                    })
                    &&& csp_fields_converted(
                        m,
                        contract_instance_address,
                        min_stake,
                        max_stake,
                        min_pool_balance,
                        max_pool_balance,
                        staking_period,
                    )
                },
            }
        },
        submit_transaction_request_v2::TransactionType::Stake(m) => {
            match addr_amount_error(m.pool_address@, m.amount@) {
                Some(e) => r == Err::<TransactionTypeV2, CoreError>(e),
                None => {
                    &&& r matches Ok(TransactionTypeV2::Stake { pool_address, amount })
                    &&& pool_address@ == m.pool_address@
                    &&& amount == parse_dec(m.amount@).unwrap()
                },
            }
        },
        submit_transaction_request_v2::TransactionType::Unstake(m) => {
            match addr_amount_error(m.pool_address@, m.amount@) {
                Some(e) => r == Err::<TransactionTypeV2, CoreError>(e),
                None => {
                    &&& r matches Ok(TransactionTypeV2::UnStake { pool_address, amount })
                    &&& pool_address@ == m.pool_address@
                    &&& amount == parse_dec(m.amount@).unwrap()
                },
            }
        },
        submit_transaction_request_v2::TransactionType::Upgrade(m) => {
            match upgrade_error(m.instance_address@, m.new_code_address@) {
                Some(e) => r == Err::<TransactionTypeV2, CoreError>(e),
                None => {
                    &&& r matches Ok(TransactionTypeV2::Upgrade {
                        instance_address,
                        new_code_address,
                        init_upgrade_args,
                        migrate_args,
                    })
                    &&& instance_address@ == m.instance_address@
                    &&& new_code_address@ == m.new_code_address@
                    &&& init_upgrade_args@ == m.init_upgrade_args@
                    &&& migrate_args@ == m.migrate_args@
                },
            }
        },
    }
}

/// First failure among a deployment's enumeration fields and its decimal
/// deposit, checked in declaration order.
pub open spec fn depl_v2_error(access_type: i32, contract_type: i32, deposit: Seq<char>) -> Option<
    CoreError,
> {
    match enums_error(access_type, contract_type) {
        Some(e) => Some(e),
        None => {
            if parse_dec(deposit) is None {
                Some(CoreError::InvalidNumericEncoding)
            } else {
                None
            }
        },
    }
}

/// First failure among an upgrade's two address fields, instance first.
pub open spec fn upgrade_error(instance_address: Seq<u8>, new_code_address: Seq<u8>) -> Option<
    CoreError,
> {
    if instance_address.len() != 20 {
        Some(CoreError::InvalidAddressEncoding)
    } else if new_code_address.len() != 20 {
        Some(CoreError::InvalidAddressEncoding)
    } else {
        None
    }
}

/// What converting a fee-estimation wire transaction yields: the same
/// domain shape as the later submission generation, so fee estimation
/// and signing share one canonicalization.
pub open spec fn converts_fee_wire(
    w: estimate_fee_request::TransactionType,
    r: Result<TransactionTypeV2, CoreError>,
) -> bool {
    match w {
        estimate_fee_request::TransactionType::NativeTokenTransfer(m) => {
            match addr_amount_error(m.address@, m.amount@) {
                Some(e) => r == Err::<TransactionTypeV2, CoreError>(e),
                None => {
                    &&& r matches Ok(TransactionTypeV2::NativeTokenTransfer(a, v))
                    &&& a@ == m.address@
                    &&& v == parse_dec(m.amount@).unwrap()
                },
            }
        },
        estimate_fee_request::TransactionType::SmartContractDeployment(m) => {
            match depl_v2_error(m.access_type, m.contract_type, m.deposit@) {
                Some(e) => r == Err::<TransactionTypeV2, CoreError>(e),
                None => {
                    &&& r matches Ok(TransactionTypeV2::SmartContractDeployment {
                        access_type,
                        contract_type,
                        contract_code,
                        deposit,
                        salt,
                    })
                    &&& AccessType::spec_try_from(m.access_type) == Ok::<AccessType, CoreError>(access_type)
                    &&& ContractType::spec_try_from(m.contract_type) == Ok::<ContractType, CoreError>(contract_type)
                    &&& contract_code@ == m.contract_code@
                    &&& deposit == parse_dec(m.deposit@).unwrap()
                    &&& salt@ == m.salt@
                },
            }
        },
        estimate_fee_request::TransactionType::SmartContractInit(m) => {
            match addr_amount_error(m.contract_code_address@, m.deposit@) {
                Some(e) => r == Err::<TransactionTypeV2, CoreError>(e),
                None => {
                    &&& r matches Ok(TransactionTypeV2::SmartContractInit {
                        contract_code_address,
                        arguments,
                        deposit,
                    })
                    &&& contract_code_address@ == m.contract_code_address@
                    &&& arguments@ == m.arguments@
                    &&& deposit == parse_dec(m.deposit@).unwrap()
                },
            }
        },
        estimate_fee_request::TransactionType::SmartContractFunctionCall(m) => {
            match addr_amount_error(m.contract_instance_address@, m.deposit@) {
                Some(e) => r == Err::<TransactionTypeV2, CoreError>(e),
                None => {
                    &&& r matches Ok(TransactionTypeV2::SmartContractFunctionCall {
                        contract_instance_address,
                        function,
                        arguments,
                        deposit,
                    })
                    &&& contract_instance_address@ == m.contract_instance_address@
                    &&& function@ == m.function_name@
                    &&& arguments@ == m.arguments@
                    &&& deposit == parse_dec(m.deposit@).unwrap()
                },
            }
        },
        estimate_fee_request::TransactionType::CreateStakingPool(m) => {
            match csp_error(m) {
                Some(e) => r == Err::<TransactionTypeV2, CoreError>(e),
                None => {
                    &&& r matches Ok(TransactionTypeV2::CreateStakingPool {
                        contract_instance_address,
                        min_stake,
                        max_stake,
                        min_pool_balance,
                        max_pool_balance,
                        staking_period,
                    })
                    &&& csp_fields_converted(
                        m,
                        contract_instance_address,
                        min_stake,
                        max_stake,
                        min_pool_balance,
                        max_pool_balance,
                        staking_period,
                    )
                },
            }
        },
        estimate_fee_request::TransactionType::Stake(m) => {
            match addr_amount_error(m.pool_address@, m.amount@) {
                Some(e) => r == Err::<TransactionTypeV2, CoreError>(e),
                None => {
                    &&& r matches Ok(TransactionTypeV2::Stake { pool_address, amount })
                    &&& pool_address@ == m.pool_address@
                    &&& amount == parse_dec(m.amount@).unwrap()
                },
            }
        },
        estimate_fee_request::TransactionType::Unstake(m) => {
            match addr_amount_error(m.pool_address@, m.amount@) {
                Some(e) => r == Err::<TransactionTypeV2, CoreError>(e),
                None => {
                    &&& r matches Ok(TransactionTypeV2::UnStake { pool_address, amount })
                    &&& pool_address@ == m.pool_address@
                    &&& amount == parse_dec(m.amount@).unwrap()
                },
            }
        },
        estimate_fee_request::TransactionType::Upgrade(m) => {
            match upgrade_error(m.instance_address@, m.new_code_address@) {
                Some(e) => r == Err::<TransactionTypeV2, CoreError>(e),
                None => {
                    &&& r matches Ok(TransactionTypeV2::Upgrade {
                        instance_address,
                        new_code_address,
                        init_upgrade_args,
                        migrate_args,
                    })
                    &&& instance_address@ == m.instance_address@
                    &&& new_code_address@ == m.new_code_address@
                    &&& init_upgrade_args@ == m.init_upgrade_args@
                    &&& migrate_args@ == m.migrate_args@
                },
            }
        },
    }
}

/// What converting a JSON-RPC wire transaction yields: the earliest
/// generation's domain shape.
pub open spec fn converts_json_wire(
    w: rpc_model::transaction::Transaction,
    r: Result<TransactionType, CoreError>,
) -> bool {
    match w {
        rpc_model::transaction::Transaction::NativeTokenTransfer(m) => {
            match addr_amount_error(m.address@, m.amount@) {
                Some(e) => r == Err::<TransactionType, CoreError>(e),
                None => {
                    &&& r matches Ok(TransactionType::NativeTokenTransfer(a, v))
                    &&& a@ == m.address@
                    &&& v == parse_dec(m.amount@).unwrap()
                },
            }
        },
        rpc_model::transaction::Transaction::SmartContractDeployment(m) => {
            match enums_error(m.access_type, m.contract_type) {
                Some(e) => r == Err::<TransactionType, CoreError>(e),
                None => {
                    &&& r matches Ok(TransactionType::SmartContractDeployment {
                        access_type,
                        contract_type,
                        contract_code,
                        value,
                        salt,
                    })
                    &&& AccessType::spec_try_from(m.access_type) == Ok::<AccessType, CoreError>(access_type)
                    &&& ContractType::spec_try_from(m.contract_type) == Ok::<ContractType, CoreError>(contract_type)
                    &&& contract_code@ == m.contract_code@
                    &&& value == m.value
                    &&& salt@ == m.salt@
                },
            }
        },
        rpc_model::transaction::Transaction::SmartContractInit(m) => {
            if m.address@.len() != 20 {
                r == Err::<TransactionType, CoreError>(CoreError::InvalidAddressEncoding)
            } else {
                &&& r matches Ok(TransactionType::SmartContractInit(a, args))
                &&& a@ == m.address@
                &&& args@ == m.arguments@
            }
        },
        rpc_model::transaction::Transaction::SmartContractFunctionCall(m) => {
            if m.contract_address@.len() != 20 {
                r == Err::<TransactionType, CoreError>(CoreError::InvalidAddressEncoding)
            } else {
                &&& r matches Ok(TransactionType::SmartContractFunctionCall {
                    contract_instance_address,
                    function,
                    arguments,
                })
                &&& contract_instance_address@ == m.contract_address@
                &&& function@ == m.function_name@
                &&& arguments@ == m.arguments@
            }
        },
        rpc_model::transaction::Transaction::Stake(m) => {
            match addr_amount_error(m.pool_address@, m.amount@) {
                Some(e) => r == Err::<TransactionType, CoreError>(e),
                None => {
                    &&& r matches Ok(TransactionType::Stake { pool_address, amount })
                    &&& pool_address@ == m.pool_address@
                    &&& amount == parse_dec(m.amount@).unwrap()
                },
            }
        },
        rpc_model::transaction::Transaction::Unstake(m) => {
            match addr_amount_error(m.pool_address@, m.amount@) {
                Some(e) => r == Err::<TransactionType, CoreError>(e),
                None => {
                    &&& r matches Ok(TransactionType::UnStake { pool_address, amount })
                    &&& pool_address@ == m.pool_address@
                    &&& amount == parse_dec(m.amount@).unwrap()
                },
            }
        },
    }
}

/// The failure, if any, that converting an earliest-generation wire
/// transaction produces; `None` exactly when conversion succeeds.
pub open spec fn wire_v1_error(w: submit_transaction_request::TransactionType) -> Option<
    CoreError,
> {
    match w {
        submit_transaction_request::TransactionType::NativeTokenTransfer(m) => addr_amount_error(
            m.address@,
            m.amount@,
        ),
        submit_transaction_request::TransactionType::SmartContractDeployment(m) => enums_error(
            m.access_type,
            m.contract_type,
        ),
        submit_transaction_request::TransactionType::SmartContractInit(m) => {
            if m.address@.len() != 20 {
                Some(CoreError::InvalidAddressEncoding)
            } else {
                None
            }
        },
        submit_transaction_request::TransactionType::SmartContractFunctionCall(m) => {
            if m.contract_address@.len() != 20 {
                Some(CoreError::InvalidAddressEncoding)
            } else {
                None
            }
        },
        submit_transaction_request::TransactionType::CreateStakingPool(m) => csp_error(m),
        submit_transaction_request::TransactionType::Stake(m) => addr_amount_error(
            m.pool_address@,
            m.amount@,
        ),
        submit_transaction_request::TransactionType::Unstake(m) => addr_amount_error(
            m.pool_address@,
            m.amount@,
        ),
    }
}

/// The failure, if any, that converting a later-generation wire
/// transaction produces; `None` exactly when conversion succeeds.
pub open spec fn wire_v2_error(w: submit_transaction_request_v2::TransactionType) -> Option<
    CoreError,
> {
    match w {
        submit_transaction_request_v2::TransactionType::NativeTokenTransfer(m) => {
            addr_amount_error(m.address@, m.amount@)
        },
        submit_transaction_request_v2::TransactionType::SmartContractDeployment(m) => {
            depl_v2_error(m.access_type, m.contract_type, m.deposit@)
        },
        submit_transaction_request_v2::TransactionType::SmartContractInit(m) => addr_amount_error(
            m.contract_code_address@,
            m.deposit@,
        ),
        submit_transaction_request_v2::TransactionType::SmartContractFunctionCall(m) => {
            addr_amount_error(m.contract_instance_address@, m.deposit@)
        },
        submit_transaction_request_v2::TransactionType::CreateStakingPool(m) => csp_error(m),
        submit_transaction_request_v2::TransactionType::Stake(m) => addr_amount_error(
            m.pool_address@,
            m.amount@,
        ),
        submit_transaction_request_v2::TransactionType::Unstake(m) => addr_amount_error(
            m.pool_address@,
            m.amount@,
        ),
        submit_transaction_request_v2::TransactionType::Upgrade(m) => upgrade_error(
            m.instance_address@,
            m.new_code_address@,
        ),
    }
}

/// Success is owed: an earliest-generation conversion returns a domain
/// value exactly when no field fails, and returns the first failing
/// field's error otherwise.
pub proof fn lemma_conversion_total_v1(
    w: submit_transaction_request::TransactionType,
    r: Result<TransactionType, CoreError>,
)
    requires
        converts_wire_v1(w, r),
    ensures
        r is Ok <==> wire_v1_error(w) is None,
        r matches Err(e) ==> wire_v1_error(w) == Some(e),
{
}

/// Success is owed: a later-generation conversion returns a domain value
/// exactly when no field fails, and returns the first failing field's
/// error otherwise.
pub proof fn lemma_conversion_total_v2(
    w: submit_transaction_request_v2::TransactionType,
    r: Result<TransactionTypeV2, CoreError>,
)
    requires
        converts_wire_v2(w, r),
    ensures
        r is Ok <==> wire_v2_error(w) is None,
        r matches Err(e) ==> wire_v2_error(w) == Some(e),
{
}

/// Maps an optional decimal wire field to an optional amount: absence
/// is kept, and a present field that does not parse is an
/// `InvalidNumericEncoding` failure.
fn parse_opt_balance(o: Option<String>) -> (r: Result<Option<u128>, CoreError>)
    ensures
        opt_unparseable(o) ==> r == Err::<Option<u128>, CoreError>(
            CoreError::InvalidNumericEncoding,
        ),
        !opt_unparseable(o) ==> r == Ok::<Option<u128>, CoreError>(opt_parse(o)),
{
    match o {
        Some(s) => match parse_u128_decimal(s.as_str()) {
            Ok(v) => Ok(Some(v)),
            Err(e) => Err(e),
        },
        None => Ok(None),
    }
}

impl TransactionType {
    /// Converts an earliest-generation wire transaction into its domain
    /// shape, validating addresses, amounts and enumerations.
    pub fn try_from(value: submit_transaction_request::TransactionType) -> (r: Result<
        TransactionType,
        CoreError,
    >)
        ensures
            converts_wire_v1(value, r),
    {
        match value {
            submit_transaction_request::TransactionType::NativeTokenTransfer(m) => {
                let address = match address_from_wire(&m.address) {
                    Ok(a) => a,
                    Err(e) => {
                        return Err(e);
                    },
                };
                let amount = match parse_u128_decimal(m.amount.as_str()) {
                    Ok(v) => v,
                    Err(e) => {
                        return Err(e);
                    },
                };
                Ok(TransactionType::NativeTokenTransfer(address, amount))
            },
            submit_transaction_request::TransactionType::SmartContractDeployment(m) => {
                let access_type = match AccessType::try_from(m.access_type) {
                    Ok(a) => a,
                    Err(e) => {
                        return Err(e);
                    },
                };
                let contract_type = match ContractType::try_from(m.contract_type) {
                    Ok(c) => c,
                    Err(e) => {
                        return Err(e);
                    },
                };
                Ok(TransactionType::SmartContractDeployment {
                    access_type,
                    contract_type,
                    contract_code: m.contract_code,
                    value: m.value,
                    salt: m.salt,
                })
            },
            submit_transaction_request::TransactionType::SmartContractInit(m) => {
                let address = match address_from_wire(&m.address) {
                    Ok(a) => a,
                    Err(e) => {
                        return Err(e);
                    },
                };
                Ok(TransactionType::SmartContractInit(address, m.arguments))
            },
            submit_transaction_request::TransactionType::SmartContractFunctionCall(m) => {
                let contract_instance_address = match address_from_wire(&m.contract_address) {
                    Ok(a) => a,
                    Err(e) => {
                        return Err(e);
                    },
                };
                Ok(TransactionType::SmartContractFunctionCall {
                    contract_instance_address,
                    function: m.function_name,
                    arguments: m.arguments,
                })
            },
            submit_transaction_request::TransactionType::CreateStakingPool(m) => {
                let contract_instance_address = match m.contract_instance_address {
                    Some(x) => match address_from_wire(&x) {
                        Ok(a) => Some(a),
                        Err(e) => {
                            return Err(e);
                        },
                    },
                    None => None,
                };
                let min_stake = match parse_opt_balance(m.min_stake) {
                    Ok(v) => v,
                    Err(e) => {
                        return Err(e);
                    },
                };
                let max_stake = match parse_opt_balance(m.max_stake) {
                    Ok(v) => v,
                    Err(e) => {
                        return Err(e);
                    },
                };
                let min_pool_balance = match parse_opt_balance(m.min_pool_balance) {
                    Ok(v) => v,
                    Err(e) => {
                        return Err(e);
                    },
                };
                let max_pool_balance = match parse_opt_balance(m.max_pool_balance) {
                    Ok(v) => v,
                    Err(e) => {
                        return Err(e);
                    },
                };
                let staking_period = match parse_opt_balance(m.staking_period) {
                    Ok(v) => v,
                    Err(e) => {
                        return Err(e);
                    },
                };
                Ok(TransactionType::CreateStakingPool {
                    contract_instance_address,
                    min_stake,
                    max_stake,
                    min_pool_balance,
                    max_pool_balance,
                    staking_period,
                })
            },
            submit_transaction_request::TransactionType::Stake(m) => {
                let pool_address = match address_from_wire(&m.pool_address) {
                    Ok(a) => a,
                    Err(e) => {
                        return Err(e);
                    },
                };
                let amount = match parse_u128_decimal(m.amount.as_str()) {
                    Ok(v) => v,
                    Err(e) => {
                        return Err(e);
                    },
                };
                Ok(TransactionType::Stake { pool_address, amount })
            },
            submit_transaction_request::TransactionType::Unstake(m) => {
                let pool_address = match address_from_wire(&m.pool_address) {
                    Ok(a) => a,
                    Err(e) => {
                        return Err(e);
                    },
                };
                let amount = match parse_u128_decimal(m.amount.as_str()) {
                    Ok(v) => v,
                    Err(e) => {
                        return Err(e);
                    },
                };
                Ok(TransactionType::UnStake { pool_address, amount })
            },
        }
    }

    /// Converts a JSON-RPC wire transaction into the earliest
    /// generation's domain shape.
    pub fn try_from_transaction(value: rpc_model::transaction::Transaction) -> (r: Result<
        TransactionType,
        CoreError,
    >)
        ensures
            converts_json_wire(value, r),
    {
        match value {
            rpc_model::transaction::Transaction::NativeTokenTransfer(m) => {
                let address = match address_from_wire(&m.address) {
                    Ok(a) => a,
                    Err(e) => {
                        return Err(e);
                    },
                };
                let amount = match parse_u128_decimal(m.amount.as_str()) {
                    Ok(v) => v,
                    Err(e) => {
                        return Err(e);
                    },
                };
                Ok(TransactionType::NativeTokenTransfer(address, amount))
            },
            rpc_model::transaction::Transaction::SmartContractDeployment(m) => {
                let access_type = match AccessType::try_from(m.access_type) {
                    Ok(a) => a,
                    Err(e) => {
                        return Err(e);
                    },
                };
                let contract_type = match ContractType::try_from(m.contract_type) {
                    Ok(c) => c,
                    Err(e) => {
                        return Err(e);
                    },
                };
                Ok(TransactionType::SmartContractDeployment {
                    access_type,
                    contract_type,
                    contract_code: m.contract_code,
                    value: m.value,
                    salt: m.salt,
                })
            },
            rpc_model::transaction::Transaction::SmartContractInit(m) => {
                let address = match address_from_wire(&m.address) {
                    Ok(a) => a,
                    Err(e) => {
                        return Err(e);
                    },
                };
                Ok(TransactionType::SmartContractInit(address, m.arguments))
            },
            rpc_model::transaction::Transaction::SmartContractFunctionCall(m) => {
                let contract_instance_address = match address_from_wire(&m.contract_address) {
                    Ok(a) => a,
                    Err(e) => {
                        return Err(e);
                    },
                };
                Ok(TransactionType::SmartContractFunctionCall {
                    contract_instance_address,
                    function: m.function_name,
                    arguments: m.arguments,
                })
            },
            rpc_model::transaction::Transaction::Stake(m) => {
                let pool_address = match address_from_wire(&m.pool_address) {
                    Ok(a) => a,
                    Err(e) => {
                        return Err(e);
                    },
                };
                let amount = match parse_u128_decimal(m.amount.as_str()) {
                    Ok(v) => v,
                    Err(e) => {
                        return Err(e);
                    },
                };
                Ok(TransactionType::Stake { pool_address, amount })
            },
            rpc_model::transaction::Transaction::Unstake(m) => {
                let pool_address = match address_from_wire(&m.pool_address) {
                    Ok(a) => a,
                    Err(e) => {
                        return Err(e);
                    },
                };
                let amount = match parse_u128_decimal(m.amount.as_str()) {
                    Ok(v) => v,
                    Err(e) => {
                        return Err(e);
                    },
                };
                Ok(TransactionType::UnStake { pool_address, amount })
            },
        }
    }
}

impl TransactionTypeV2 {
    /// Converts a later-generation wire transaction into its domain
    /// shape, validating addresses, amounts and enumerations.
    pub fn try_from(value: submit_transaction_request_v2::TransactionType) -> (r: Result<
        TransactionTypeV2,
        CoreError,
    >)
        ensures
            converts_wire_v2(value, r),
    {
        match value {
            submit_transaction_request_v2::TransactionType::NativeTokenTransfer(m) => {
                let address = match address_from_wire(&m.address) {
                    Ok(a) => a,
                    Err(e) => {
                        return Err(e);
                    },
                };
                let amount = match parse_u128_decimal(m.amount.as_str()) {
                    Ok(v) => v,
                    Err(e) => {
                        return Err(e);
                    },
                };
                Ok(TransactionTypeV2::NativeTokenTransfer(address, amount))
            },
            submit_transaction_request_v2::TransactionType::SmartContractDeployment(m) => {
                let access_type = match AccessType::try_from(m.access_type) {
                    Ok(a) => a,
                    Err(e) => {
                        return Err(e);
                    },
                };
                let contract_type = match ContractType::try_from(m.contract_type) {
                    Ok(c) => c,
                    Err(e) => {
                        return Err(e);
                    },
                };
                let deposit = match parse_u128_decimal(m.deposit.as_str()) {
                    Ok(v) => v,
                    Err(e) => {
                        return Err(e);
                    },
                };
                Ok(TransactionTypeV2::SmartContractDeployment {
                    access_type,
                    contract_type,
                    contract_code: m.contract_code,
                    deposit,
                    salt: m.salt,
                })
            },
            submit_transaction_request_v2::TransactionType::SmartContractInit(m) => {
                let contract_code_address = match address_from_wire(&m.contract_code_address) {
                    Ok(a) => a,
                    Err(e) => {
                        return Err(e);
                    },
                };
                let deposit = match parse_u128_decimal(m.deposit.as_str()) {
                    Ok(v) => v,
                    Err(e) => {
                        return Err(e);
                    },
                };
                Ok(TransactionTypeV2::SmartContractInit {
                    contract_code_address,
                    arguments: m.arguments,
                    deposit,
                })
            },
            submit_transaction_request_v2::TransactionType::SmartContractFunctionCall(m) => {
                let contract_instance_address = match address_from_wire(
                    &m.contract_instance_address,
                ) {
                    Ok(a) => a,
                    Err(e) => {
                        return Err(e);
                    },
                };
                let deposit = match parse_u128_decimal(m.deposit.as_str()) {
                    Ok(v) => v,
                    Err(e) => {
                        return Err(e);
                    },
                };
                Ok(TransactionTypeV2::SmartContractFunctionCall {
                    contract_instance_address,
                    function: m.function_name,
                    arguments: m.arguments,
                    deposit,
                })
            },
            submit_transaction_request_v2::TransactionType::CreateStakingPool(m) => {
                let contract_instance_address = match m.contract_instance_address {
                    Some(x) => match address_from_wire(&x) {
                        Ok(a) => Some(a),
                        Err(e) => {
                            return Err(e);
                        },
                    },
                    None => None,
                };
                let min_stake = match parse_opt_balance(m.min_stake) {
                    Ok(v) => v,
                    Err(e) => {
                        return Err(e);
                    },
                };
                let max_stake = match parse_opt_balance(m.max_stake) {
                    Ok(v) => v,
                    Err(e) => {
                        return Err(e);
                    },
                };
                let min_pool_balance = match parse_opt_balance(m.min_pool_balance) {
                    Ok(v) => v,
                    Err(e) => {
                        return Err(e);
                    },
                };
                let max_pool_balance = match parse_opt_balance(m.max_pool_balance) {
                    Ok(v) => v,
                    Err(e) => {
                        return Err(e);
                    },
                };
                let staking_period = match parse_opt_balance(m.staking_period) {
                    Ok(v) => v,
                    Err(e) => {
                        return Err(e);
                    },
                };
                Ok(TransactionTypeV2::CreateStakingPool {
                    contract_instance_address,
                    min_stake,
                    max_stake,
                    min_pool_balance,
                    max_pool_balance,
                    staking_period,
                })
            },
            submit_transaction_request_v2::TransactionType::Stake(m) => {
                let pool_address = match address_from_wire(&m.pool_address) {
                    Ok(a) => a,
                    Err(e) => {
                        return Err(e);
                    },
                };
                let amount = match parse_u128_decimal(m.amount.as_str()) {
                    Ok(v) => v,
                    Err(e) => {
                        return Err(e);
                    },
                };
                Ok(TransactionTypeV2::Stake { pool_address, amount })
            },
            submit_transaction_request_v2::TransactionType::Unstake(m) => {
                let pool_address = match address_from_wire(&m.pool_address) {
                    Ok(a) => a,
                    Err(e) => {
                        return Err(e);
                    },
                };
                let amount = match parse_u128_decimal(m.amount.as_str()) {
                    Ok(v) => v,
                    Err(e) => {
                        return Err(e);
                    },
                };
                Ok(TransactionTypeV2::UnStake { pool_address, amount })
            },
            submit_transaction_request_v2::TransactionType::Upgrade(m) => {
                let instance_address = match address_from_wire(&m.instance_address) {
                    Ok(a) => a,
                    Err(e) => {
                        return Err(e);
                    },
                };
                let new_code_address = match address_from_wire(&m.new_code_address) {
                    Ok(a) => a,
                    Err(e) => {
                        return Err(e);
                    },
                };
                Ok(TransactionTypeV2::Upgrade {
                    instance_address,
                    new_code_address,
                    init_upgrade_args: m.init_upgrade_args,
                    migrate_args: m.migrate_args,
                })
            },
        }
    }

    /// Converts a fee-estimation wire transaction into the same domain
    /// shape used for signing.
    pub fn try_from_estimate_fee(value: estimate_fee_request::TransactionType) -> (r: Result<
        TransactionTypeV2,
        CoreError,
    >)
        ensures
            converts_fee_wire(value, r),
    {
        match value {
            estimate_fee_request::TransactionType::NativeTokenTransfer(m) => {
                let address = match address_from_wire(&m.address) {
                    Ok(a) => a,
                    Err(e) => {
                        return Err(e);
                    },
                };
                let amount = match parse_u128_decimal(m.amount.as_str()) {
                    Ok(v) => v,
                    Err(e) => {
                        return Err(e);
                    },
                };
                Ok(TransactionTypeV2::NativeTokenTransfer(address, amount))
            },
            estimate_fee_request::TransactionType::SmartContractDeployment(m) => {
                let access_type = match AccessType::try_from(m.access_type) {
                    Ok(a) => a,
                    Err(e) => {
                        return Err(e);
                    },
                };
                let contract_type = match ContractType::try_from(m.contract_type) {
                    Ok(c) => c,
                    Err(e) => {
                        return Err(e);
                    },
                };
                let deposit = match parse_u128_decimal(m.deposit.as_str()) {
                    Ok(v) => v,
                    Err(e) => {
                        return Err(e);
                    },
                };
                Ok(TransactionTypeV2::SmartContractDeployment {
                    access_type,
                    contract_type,
                    contract_code: m.contract_code,
                    deposit,
                    salt: m.salt,
                })
            },
            estimate_fee_request::TransactionType::SmartContractInit(m) => {
                let contract_code_address = match address_from_wire(&m.contract_code_address) {
                    Ok(a) => a,
                    Err(e) => {
                        return Err(e);
                    },
                };
                let deposit = match parse_u128_decimal(m.deposit.as_str()) {
                    Ok(v) => v,
                    Err(e) => {
                        return Err(e);
                    },
                };
                Ok(TransactionTypeV2::SmartContractInit {
                    contract_code_address,
                    arguments: m.arguments,
                    deposit,
                })
            },
            estimate_fee_request::TransactionType::SmartContractFunctionCall(m) => {
                let contract_instance_address = match address_from_wire(
                    &m.contract_instance_address,
                ) {
                    Ok(a) => a,
                    Err(e) => {
                        return Err(e);
                    },
                };
                let deposit = match parse_u128_decimal(m.deposit.as_str()) {
                    Ok(v) => v,
                    Err(e) => {
                        return Err(e);
                    },
                };
                Ok(TransactionTypeV2::SmartContractFunctionCall {
                    contract_instance_address,
                    function: m.function_name,
                    arguments: m.arguments,
                    deposit,
                })
            },
            estimate_fee_request::TransactionType::CreateStakingPool(m) => {
                let contract_instance_address = match m.contract_instance_address {
                    Some(x) => match address_from_wire(&x) {
                        Ok(a) => Some(a),
                        Err(e) => {
                            return Err(e);
                        },
                    },
                    None => None,
                };
                let min_stake = match parse_opt_balance(m.min_stake) {
                    Ok(v) => v,
                    Err(e) => {
                        return Err(e);
                    },
                };
                let max_stake = match parse_opt_balance(m.max_stake) {
                    Ok(v) => v,
                    Err(e) => {
                        return Err(e);
                    },
                };
                let min_pool_balance = match parse_opt_balance(m.min_pool_balance) {
                    Ok(v) => v,
                    Err(e) => {
                        return Err(e);
                    },
                };
                let max_pool_balance = match parse_opt_balance(m.max_pool_balance) {
                    Ok(v) => v,
                    Err(e) => {
                        return Err(e);
                    },
                };
                let staking_period = match parse_opt_balance(m.staking_period) {
                    Ok(v) => v,
                    Err(e) => {
                        return Err(e);
                    },
                };
                Ok(TransactionTypeV2::CreateStakingPool {
                    contract_instance_address,
                    min_stake,
                    max_stake,
                    min_pool_balance,
                    max_pool_balance,
                    staking_period,
                })
            },
            estimate_fee_request::TransactionType::Stake(m) => {
                let pool_address = match address_from_wire(&m.pool_address) {
                    Ok(a) => a,
                    Err(e) => {
                        return Err(e);
                    },
                };
                let amount = match parse_u128_decimal(m.amount.as_str()) {
                    Ok(v) => v,
                    Err(e) => {
                        return Err(e);
                    },
                };
                Ok(TransactionTypeV2::Stake { pool_address, amount })
            },
            estimate_fee_request::TransactionType::Unstake(m) => {
                let pool_address = match address_from_wire(&m.pool_address) {
                    Ok(a) => a,
                    Err(e) => {
                        return Err(e);
                    },
                };
                let amount = match parse_u128_decimal(m.amount.as_str()) {
                    Ok(v) => v,
                    Err(e) => {
                        return Err(e);
                    },
                };
                Ok(TransactionTypeV2::UnStake { pool_address, amount })
            },
            estimate_fee_request::TransactionType::Upgrade(m) => {
                let instance_address = match address_from_wire(&m.instance_address) {
                    Ok(a) => a,
                    Err(e) => {
                        return Err(e);
                    },
                };
                let new_code_address = match address_from_wire(&m.new_code_address) {
                    Ok(a) => a,
                    Err(e) => {
                        return Err(e);
                    },
                };
                Ok(TransactionTypeV2::Upgrade {
                    instance_address,
                    new_code_address,
                    init_upgrade_args: m.init_upgrade_args,
                    migrate_args: m.migrate_args,
                })
            },
        }
    }
}

} // verus!
