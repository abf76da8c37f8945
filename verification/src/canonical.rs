//! Canonical serialization of signable payloads.
//!
//! The canonical form is a compact JSON text whose field order is fixed
//! by the structures' declared order.  The spec functions below define
//! the exact character sequence for every payload, so the same logical
//! input always yields byte-identical output; the exec builders are
//! proved to produce exactly that sequence.

use vstd::prelude::*;
use vstd::string::StringExecFns;

use crate::TXSignPayload;
use crate::TXSignPayloadV2;
use crate::TransactionTypeV2SignPayload;
use crate::numeric::dec_chars;
use crate::numeric::u128_to_decimal;
use crate::primitives::Address;
use crate::transaction::AccessType;
use crate::transaction::ContractType;
use crate::transaction::TransactionType;
use crate::transaction::address_to_wire;

verus! {

/// A JSON string: the quoted characters, kept verbatim.  Canonical
/// payload strings are decimal-digit strings, so no escaping arises.
pub open spec fn json_string(s: Seq<char>) -> Seq<char> {
    "\""@ + s + "\""@
}

/// The elements of a JSON array of byte values, comma-separated.
pub open spec fn json_byte_items(b: Seq<u8>) -> Seq<char>
    decreases b.len(),
{
    if b.len() == 0 {
        Seq::empty()
    } else if b.len() == 1 {
        dec_chars(b[0] as nat)
    } else {
        json_byte_items(b.drop_last()) + ","@ + dec_chars(b.last() as nat)
    }
}

/// A byte sequence as a JSON array of numbers.
pub open spec fn json_byte_array(b: Seq<u8>) -> Seq<char> {
    "["@ + json_byte_items(b) + "]"@
}

/// An optional amount: `null` when absent, a bare number when present.
pub open spec fn json_opt_u128(o: Option<u128>) -> Seq<char> {
    match o {
        Some(v) => dec_chars(v as nat),
        None => "null"@,
    }
}

/// An optional decimal string: `null` when absent, a JSON string when
/// present.
pub open spec fn json_opt_string(o: Option<String>) -> Seq<char> {
    match o {
        Some(s) => json_string(s@),
        None => "null"@,
    }
}

/// An optional address: `null` when absent, a byte array when present.
pub open spec fn json_opt_address(o: Option<Address>) -> Seq<char> {
    match o {
        Some(a) => json_byte_array(a@),
        None => "null"@,
    }
}

/// An access type renders as its variant name in a JSON string.
pub open spec fn json_access_type(a: AccessType) -> Seq<char> {
    match a {
        AccessType::PRIVATE => "\"PRIVATE\""@,
        AccessType::PUBLIC => "\"PUBLIC\""@,
        AccessType::RESTICTED => "\"RESTICTED\""@,
    }
}

/// A contract type renders as its variant name in a JSON string.
pub open spec fn json_contract_type(c: ContractType) -> Seq<char> {
    match c {
        ContractType::L1XVM => "\"L1XVM\""@,
        ContractType::EVM => "\"EVM\""@,
        ContractType::XTALK => "\"XTALK\""@,
    }
}

/// Appends the decimal rendering of `v`.
pub(crate) fn append_dec(out: &mut String, v: u128)
    ensures
        final(out)@ == old(out)@ + dec_chars(v as nat),
{
    let d = u128_to_decimal(v);
    out.append(d.as_str());
}

/// Appends `s` as a JSON string.
pub(crate) fn append_json_string(out: &mut String, s: &str)
    ensures
        final(out)@ == old(out)@ + json_string(s@),
{
    out.append("\"");
    out.append(s);
    out.append("\"");
    proof {
        assert(old(out)@ + "\""@ + s@ + "\""@ =~= old(out)@ + json_string(s@));
    }
}

/// Appends a byte sequence as a JSON array of numbers.
pub(crate) fn append_json_byte_array(out: &mut String, b: &Vec<u8>)
    ensures
        final(out)@ == old(out)@ + json_byte_array(b@),
{
    out.append("[");
    let n = b.len();
    let mut i: usize = 0;
    while i < n
        invariant
            n == b@.len(),
            0 <= i <= n,
            out@ == old(out)@ + "["@ + json_byte_items(b@.take(i as int)),
        decreases n - i,
    {
        if i > 0 {
            out.append(",");
        }
        append_dec(out, b[i] as u128);
        proof {
            let t = b@.take(i + 1);
            assert(t.drop_last() =~= b@.take(i as int));
            assert(t.last() == b@[i as int]);
            assert(out@ =~= old(out)@ + "["@ + json_byte_items(t));
        }
        i = i + 1;
    }
    out.append("]");
    proof {
        assert(b@.take(n as int) =~= b@);
        assert(out@ =~= old(out)@ + json_byte_array(b@));
    }
}

/// Appends a 20-byte address as a JSON array of numbers.
pub(crate) fn append_json_address(out: &mut String, a: &Address)
    ensures
        final(out)@ == old(out)@ + json_byte_array(a@),
{
    let v = address_to_wire(a);
    append_json_byte_array(out, &v);
}

/// Appends an optional amount.
pub(crate) fn append_json_opt_u128(out: &mut String, o: &Option<u128>)
    ensures
        final(out)@ == old(out)@ + json_opt_u128(*o),
{
    match o {
        Some(v) => append_dec(out, *v),
        None => out.append("null"),
    }
}

/// Appends an optional decimal string.
pub(crate) fn append_json_opt_string(out: &mut String, o: &Option<String>)
    ensures
        final(out)@ == old(out)@ + json_opt_string(*o),
{
    match o {
        Some(s) => append_json_string(out, s.as_str()),
        None => out.append("null"),
    }
}

/// Appends an optional address.
pub(crate) fn append_json_opt_address(out: &mut String, o: &Option<Address>)
    ensures
        final(out)@ == old(out)@ + json_opt_address(*o),
{
    match o {
        Some(a) => append_json_address(out, a),
        None => out.append("null"),
    }
}

/// Appends an access type as its JSON string.
pub(crate) fn append_access_type(out: &mut String, a: &AccessType)
    ensures
        final(out)@ == old(out)@ + json_access_type(*a),
{
    match a {
        AccessType::PRIVATE => out.append("\"PRIVATE\""),
        AccessType::PUBLIC => out.append("\"PUBLIC\""),
        AccessType::RESTICTED => out.append("\"RESTICTED\""),
    }
}

/// Appends a contract type as its JSON string.
pub(crate) fn append_contract_type(out: &mut String, c: &ContractType)
    ensures
        final(out)@ == old(out)@ + json_contract_type(*c),
{
    match c {
        ContractType::L1XVM => out.append("\"L1XVM\""),
        ContractType::EVM => out.append("\"EVM\""),
        ContractType::XTALK => out.append("\"XTALK\""),
    }
}


/// The staking-pool creation object of the earliest generation's text:
/// amounts stay bare numbers.
pub open spec fn json_csp(
    contract_instance_address: Option<Address>,
    min_stake: Option<u128>,
    max_stake: Option<u128>,
    min_pool_balance: Option<u128>,
    max_pool_balance: Option<u128>,
    staking_period: Option<u128>,
) -> Seq<char> {
    "{\"CreateStakingPool\":{\"contract_instance_address\":"@ + json_opt_address(
        contract_instance_address,
    ) + ",\"min_stake\":"@ + json_opt_u128(min_stake) + ",\"max_stake\":"@ + json_opt_u128(
        max_stake,
    ) + ",\"min_pool_balance\":"@ + json_opt_u128(min_pool_balance) + ",\"max_pool_balance\":"@
        + json_opt_u128(max_pool_balance) + ",\"staking_period\":"@ + json_opt_u128(
        staking_period,
    ) + "}}"@
}

/// Appends a staking-pool creation object.
pub(crate) fn append_csp(
    out: &mut String,
    contract_instance_address: &Option<Address>,
    min_stake: &Option<u128>,
    max_stake: &Option<u128>,
    min_pool_balance: &Option<u128>,
    max_pool_balance: &Option<u128>,
    staking_period: &Option<u128>,
)
    ensures
        final(out)@ == old(out)@ + json_csp(
            *contract_instance_address,
            *min_stake,
            *max_stake,
            *min_pool_balance,
            *max_pool_balance,
            *staking_period,
        ),
{
    out.append("{\"CreateStakingPool\":{\"contract_instance_address\":");
    append_json_opt_address(out, contract_instance_address);
    out.append(",\"min_stake\":");
    append_json_opt_u128(out, min_stake);
    out.append(",\"max_stake\":");
    append_json_opt_u128(out, max_stake);
    out.append(",\"min_pool_balance\":");
    append_json_opt_u128(out, min_pool_balance);
    out.append(",\"max_pool_balance\":");
    append_json_opt_u128(out, max_pool_balance);
    out.append(",\"staking_period\":");
    append_json_opt_u128(out, staking_period);
    out.append("}}");
}

/// The stake object of the earliest generation's text.
pub open spec fn json_stake(pool_address: Address, amount: u128) -> Seq<char> {
    "{\"Stake\":{\"pool_address\":"@ + json_byte_array(pool_address@) + ",\"amount\":"@
        + dec_chars(amount as nat) + "}}"@
}

/// Appends a stake object.
pub(crate) fn append_stake(out: &mut String, pool_address: &Address, amount: u128)
    ensures
        final(out)@ == old(out)@ + json_stake(*pool_address, amount),
{
    out.append("{\"Stake\":{\"pool_address\":");
    append_json_address(out, pool_address);
    out.append(",\"amount\":");
    append_dec(out, amount);
    out.append("}}");
}

/// The stake-withdrawal object of the earliest generation's text.
pub open spec fn json_unstake(pool_address: Address, amount: u128) -> Seq<char> {
    "{\"UnStake\":{\"pool_address\":"@ + json_byte_array(pool_address@) + ",\"amount\":"@
        + dec_chars(amount as nat) + "}}"@
}

/// Appends a stake-withdrawal object.
pub(crate) fn append_unstake(out: &mut String, pool_address: &Address, amount: u128)
    ensures
        final(out)@ == old(out)@ + json_unstake(*pool_address, amount),
{
    out.append("{\"UnStake\":{\"pool_address\":");
    append_json_address(out, pool_address);
    out.append(",\"amount\":");
    append_dec(out, amount);
    out.append("}}");
}

/// The staking-pool contract object, shared by both generations'
/// texts: it holds addresses only.
pub open spec fn json_spc(pool_address: Address, contract_instance_address: Address) -> Seq<
    char,
> {
    "{\"StakingPoolContract\":{\"pool_address\":"@ + json_byte_array(pool_address@)
        + ",\"contract_instance_address\":"@ + json_byte_array(contract_instance_address@)
        + "}}"@
}

/// Appends a staking-pool contract object.
pub(crate) fn append_spc(
    out: &mut String,
    pool_address: &Address,
    contract_instance_address: &Address,
)
    ensures
        final(out)@ == old(out)@ + json_spc(*pool_address, *contract_instance_address),
{
    out.append("{\"StakingPoolContract\":{\"pool_address\":");
    append_json_address(out, pool_address);
    out.append(",\"contract_instance_address\":");
    append_json_address(out, contract_instance_address);
    out.append("}}");
}

/// The native token transfer of the earliest generation: a tuple of the
/// address and a bare number.
pub open spec fn json_v1_ntt(a: Address, v: u128) -> Seq<char> {
    "{\"NativeTokenTransfer\":["@ + json_byte_array(a@) + ","@ + dec_chars(v as nat) + "]}"@
}

/// Appends an earliest-generation native token transfer.
pub(crate) fn append_v1_ntt(out: &mut String, a: &Address, v: u128)
    ensures
        final(out)@ == old(out)@ + json_v1_ntt(*a, v),
{
    out.append("{\"NativeTokenTransfer\":[");
    append_json_address(out, a);
    out.append(",");
    append_dec(out, v);
    out.append("]}");
}

/// The deployment object of the earliest generation: the deposited
/// amount is a bare number under the key `value`.
pub open spec fn json_v1_deployment(
    access_type: AccessType,
    contract_type: ContractType,
    contract_code: Seq<u8>,
    value: u128,
    salt: Seq<u8>,
) -> Seq<char> {
    "{\"SmartContractDeployment\":{\"access_type\":"@ + json_access_type(access_type)
        + ",\"contract_type\":"@ + json_contract_type(contract_type) + ",\"contract_code\":"@
        + json_byte_array(contract_code) + ",\"value\":"@ + dec_chars(value as nat)
        + ",\"salt\":"@ + json_byte_array(salt) + "}}"@
}

/// Appends an earliest-generation deployment object.
pub(crate) fn append_v1_deployment(
    out: &mut String,
    access_type: &AccessType,
    contract_type: &ContractType,
    contract_code: &Vec<u8>,
    value: u128,
    salt: &Vec<u8>,
)
    ensures
        final(out)@ == old(out)@ + json_v1_deployment(
            *access_type,
            *contract_type,
            contract_code@,
            value,
            salt@,
        ),
{
    out.append("{\"SmartContractDeployment\":{\"access_type\":");
    append_access_type(out, access_type);
    out.append(",\"contract_type\":");
    append_contract_type(out, contract_type);
    out.append(",\"contract_code\":");
    append_json_byte_array(out, contract_code);
    out.append(",\"value\":");
    append_dec(out, value);
    out.append(",\"salt\":");
    append_json_byte_array(out, salt);
    out.append("}}");
}

/// The initialization of the earliest generation: a tuple of the address
/// and the arguments.
pub open spec fn json_v1_init(a: Address, args: Seq<u8>) -> Seq<char> {
    "{\"SmartContractInit\":["@ + json_byte_array(a@) + ","@ + json_byte_array(args) + "]}"@
}

/// Appends an earliest-generation initialization.
pub(crate) fn append_v1_init(out: &mut String, a: &Address, args: &Vec<u8>)
    ensures
        final(out)@ == old(out)@ + json_v1_init(*a, args@),
{
    out.append("{\"SmartContractInit\":[");
    append_json_address(out, a);
    out.append(",");
    append_json_byte_array(out, args);
    out.append("]}");
}

/// The function call object of the earliest generation.
pub open spec fn json_v1_call(
    contract_instance_address: Address,
    function: Seq<u8>,
    arguments: Seq<u8>,
) -> Seq<char> {
    "{\"SmartContractFunctionCall\":{\"contract_instance_address\":"@ + json_byte_array(
        contract_instance_address@,
    ) + ",\"function\":"@ + json_byte_array(function) + ",\"arguments\":"@ + json_byte_array(
        arguments,
    ) + "}}"@
}

/// Appends an earliest-generation function call object.
pub(crate) fn append_v1_call(
    out: &mut String,
    contract_instance_address: &Address,
    function: &Vec<u8>,
    arguments: &Vec<u8>,
)
    ensures
        final(out)@ == old(out)@ + json_v1_call(*contract_instance_address, function@, arguments@),
{
    out.append("{\"SmartContractFunctionCall\":{\"contract_instance_address\":");
    append_json_address(out, contract_instance_address);
    out.append(",\"function\":");
    append_json_byte_array(out, function);
    out.append(",\"arguments\":");
    append_json_byte_array(out, arguments);
    out.append("}}");
}

/// The canonical JSON text of an earliest-generation domain transaction:
/// one outer object whose single key is the variant name, tuple variants
/// as arrays, struct variants as objects in declared field order.
pub open spec fn json_of_v1_tx(t: TransactionType) -> Seq<char> {
    match t {
        TransactionType::NativeTokenTransfer(a, v) => json_v1_ntt(a, v),
        TransactionType::SmartContractDeployment {
            access_type,
            contract_type,
            contract_code,
            value,
            salt,
        } => json_v1_deployment(access_type, contract_type, contract_code@, value, salt@),
        TransactionType::SmartContractInit(a, args) => json_v1_init(a, args@),
        TransactionType::SmartContractFunctionCall {
            contract_instance_address,
            function,
            arguments,
        } => json_v1_call(contract_instance_address, function@, arguments@),
        TransactionType::CreateStakingPool {
            contract_instance_address,
            min_stake,
            max_stake,
            min_pool_balance,
            max_pool_balance,
            staking_period,
        } => json_csp(
            contract_instance_address,
            min_stake,
            max_stake,
            min_pool_balance,
            max_pool_balance,
            staking_period,
        ),
        TransactionType::Stake { pool_address, amount } => json_stake(pool_address, amount),
        TransactionType::UnStake { pool_address, amount } => json_unstake(pool_address, amount),
        TransactionType::StakingPoolContract { pool_address, contract_instance_address } => {
            json_spc(pool_address, contract_instance_address)
        },
    }
}

/// Appends the canonical JSON text of an earliest-generation domain
/// transaction.
pub(crate) fn append_v1_tx(out: &mut String, t: &TransactionType)
    ensures
        final(out)@ == old(out)@ + json_of_v1_tx(*t),
{
    match t {
        TransactionType::NativeTokenTransfer(a, v) => append_v1_ntt(out, a, *v),
        TransactionType::SmartContractDeployment {
            access_type,
            contract_type,
            contract_code,
            value,
            salt,
        } => append_v1_deployment(out, access_type, contract_type, contract_code, *value, salt),
        TransactionType::SmartContractInit(a, args) => append_v1_init(out, a, args),
        TransactionType::SmartContractFunctionCall {
            contract_instance_address,
            function,
            arguments,
        } => append_v1_call(out, contract_instance_address, function, arguments),
        TransactionType::CreateStakingPool {
            contract_instance_address,
            min_stake,
            max_stake,
            min_pool_balance,
            max_pool_balance,
            staking_period,
        } => append_csp(
            out,
            contract_instance_address,
            min_stake,
            max_stake,
            min_pool_balance,
            max_pool_balance,
            staking_period,
        ),
        TransactionType::Stake { pool_address, amount } => append_stake(out, pool_address, *amount),
        TransactionType::UnStake { pool_address, amount } => append_unstake(
            out,
            pool_address,
            *amount,
        ),
        TransactionType::StakingPoolContract { pool_address, contract_instance_address } => {
            append_spc(out, pool_address, contract_instance_address)
        },
    }
}

/// The staking-pool creation object of the latest generation's signable
/// form: present amounts are decimal strings.
pub open spec fn json_v2_csp(
    contract_instance_address: Option<Address>,
    min_stake: Option<String>,
    max_stake: Option<String>,
    min_pool_balance: Option<String>,
    max_pool_balance: Option<String>,
    staking_period: Option<String>,
) -> Seq<char> {
    "{\"CreateStakingPool\":{\"contract_instance_address\":"@ + json_opt_address(
        contract_instance_address,
    ) + ",\"min_stake\":"@ + json_opt_string(min_stake) + ",\"max_stake\":"@ + json_opt_string(
        max_stake,
    ) + ",\"min_pool_balance\":"@ + json_opt_string(min_pool_balance)
        + ",\"max_pool_balance\":"@ + json_opt_string(max_pool_balance)
        + ",\"staking_period\":"@ + json_opt_string(staking_period) + "}}"@
}

/// Appends a latest-generation staking-pool creation object.
pub(crate) fn append_v2_csp(
    out: &mut String,
    contract_instance_address: &Option<Address>,
    min_stake: &Option<String>,
    max_stake: &Option<String>,
    min_pool_balance: &Option<String>,
    max_pool_balance: &Option<String>,
    staking_period: &Option<String>,
)
    ensures
        final(out)@ == old(out)@ + json_v2_csp(
            *contract_instance_address,
            *min_stake,
            *max_stake,
            *min_pool_balance,
            *max_pool_balance,
            *staking_period,
        ),
{
    out.append("{\"CreateStakingPool\":{\"contract_instance_address\":");
    append_json_opt_address(out, contract_instance_address);
    out.append(",\"min_stake\":");
    append_json_opt_string(out, min_stake);
    out.append(",\"max_stake\":");
    append_json_opt_string(out, max_stake);
    out.append(",\"min_pool_balance\":");
    append_json_opt_string(out, min_pool_balance);
    out.append(",\"max_pool_balance\":");
    append_json_opt_string(out, max_pool_balance);
    out.append(",\"staking_period\":");
    append_json_opt_string(out, staking_period);
    out.append("}}");
}

/// The stake object of the latest generation's signable form: the amount
/// is a decimal string.
pub open spec fn json_v2_stake(pool_address: Address, amount: Seq<char>) -> Seq<char> {
    "{\"Stake\":{\"pool_address\":"@ + json_byte_array(pool_address@) + ",\"amount\":"@
        + json_string(amount) + "}}"@
}

/// Appends a latest-generation stake object.
pub(crate) fn append_v2_stake(out: &mut String, pool_address: &Address, amount: &str)
    ensures
        final(out)@ == old(out)@ + json_v2_stake(*pool_address, amount@),
{
    out.append("{\"Stake\":{\"pool_address\":");
    append_json_address(out, pool_address);
    out.append(",\"amount\":");
    append_json_string(out, amount);
    out.append("}}");
}

/// The stake-withdrawal object of the latest generation's signable form:
/// the amount is a decimal string.
pub open spec fn json_v2_unstake(pool_address: Address, amount: Seq<char>) -> Seq<char> {
    "{\"UnStake\":{\"pool_address\":"@ + json_byte_array(pool_address@) + ",\"amount\":"@
        + json_string(amount) + "}}"@
}

/// Appends a latest-generation stake-withdrawal object.
pub(crate) fn append_v2_unstake(out: &mut String, pool_address: &Address, amount: &str)
    ensures
        final(out)@ == old(out)@ + json_v2_unstake(*pool_address, amount@),
{
    out.append("{\"UnStake\":{\"pool_address\":");
    append_json_address(out, pool_address);
    out.append(",\"amount\":");
    append_json_string(out, amount);
    out.append("}}");
}

/// The native token transfer of the latest generation's signable form:
/// a tuple of the address and the amount as a decimal string.
pub open spec fn json_v2_ntt(a: Address, s: Seq<char>) -> Seq<char> {
    "{\"NativeTokenTransfer\":["@ + json_byte_array(a@) + ","@ + json_string(s) + "]}"@
}

/// Appends a latest-generation native token transfer.
pub(crate) fn append_v2_ntt(out: &mut String, a: &Address, s: &str)
    ensures
        final(out)@ == old(out)@ + json_v2_ntt(*a, s@),
{
    out.append("{\"NativeTokenTransfer\":[");
    append_json_address(out, a);
    out.append(",");
    append_json_string(out, s);
    out.append("]}");
}

/// The deployment object of the latest generation's signable form: the
/// deposit is a decimal string.
pub open spec fn json_v2_deployment(
    access_type: AccessType,
    contract_type: ContractType,
    contract_code: Seq<u8>,
    deposit: Seq<char>,
    salt: Seq<u8>,
) -> Seq<char> {
    "{\"SmartContractDeployment\":{\"access_type\":"@ + json_access_type(access_type)
        + ",\"contract_type\":"@ + json_contract_type(contract_type) + ",\"contract_code\":"@
        + json_byte_array(contract_code) + ",\"deposit\":"@ + json_string(deposit)
        + ",\"salt\":"@ + json_byte_array(salt) + "}}"@
}

/// Appends a latest-generation deployment object.
pub(crate) fn append_v2_deployment(
    out: &mut String,
    access_type: &AccessType,
    contract_type: &ContractType,
    contract_code: &Vec<u8>,
    deposit: &str,
    salt: &Vec<u8>,
)
    ensures
        final(out)@ == old(out)@ + json_v2_deployment(
            *access_type,
            *contract_type,
            contract_code@,
            deposit@,
            salt@,
        ),
{
    out.append("{\"SmartContractDeployment\":{\"access_type\":");
    append_access_type(out, access_type);
    out.append(",\"contract_type\":");
    append_contract_type(out, contract_type);
    out.append(",\"contract_code\":");
    append_json_byte_array(out, contract_code);
    out.append(",\"deposit\":");
    append_json_string(out, deposit);
    out.append(",\"salt\":");
    append_json_byte_array(out, salt);
    out.append("}}");
}

/// The initialization object of the latest generation's signable form.
pub open spec fn json_v2_init(
    contract_code_address: Address,
    arguments: Seq<u8>,
    deposit: Seq<char>,
) -> Seq<char> {
    "{\"SmartContractInit\":{\"contract_code_address\":"@ + json_byte_array(
        contract_code_address@,
    ) + ",\"arguments\":"@ + json_byte_array(arguments) + ",\"deposit\":"@ + json_string(
        deposit,
    ) + "}}"@
}

/// Appends a latest-generation initialization object.
pub(crate) fn append_v2_init(
    out: &mut String,
    contract_code_address: &Address,
    arguments: &Vec<u8>,
    deposit: &str,
)
    ensures
        final(out)@ == old(out)@ + json_v2_init(*contract_code_address, arguments@, deposit@),
{
    out.append("{\"SmartContractInit\":{\"contract_code_address\":");
    append_json_address(out, contract_code_address);
    out.append(",\"arguments\":");
    append_json_byte_array(out, arguments);
    out.append(",\"deposit\":");
    append_json_string(out, deposit);
    out.append("}}");
}

/// The function call object of the latest generation's signable form.
pub open spec fn json_v2_call(
    contract_instance_address: Address,
    function: Seq<u8>,
    arguments: Seq<u8>,
    deposit: Seq<char>,
) -> Seq<char> {
    "{\"SmartContractFunctionCall\":{\"contract_instance_address\":"@ + json_byte_array(
        contract_instance_address@,
    ) + ",\"function\":"@ + json_byte_array(function) + ",\"arguments\":"@ + json_byte_array(
        arguments,
    ) + ",\"deposit\":"@ + json_string(deposit) + "}}"@
}

/// Appends a latest-generation function call object.
pub(crate) fn append_v2_call(
    out: &mut String,
    contract_instance_address: &Address,
    function: &Vec<u8>,
    arguments: &Vec<u8>,
    deposit: &str,
)
    ensures
        final(out)@ == old(out)@ + json_v2_call(
            *contract_instance_address,
            function@,
            arguments@,
            deposit@,
        ),
{
    out.append("{\"SmartContractFunctionCall\":{\"contract_instance_address\":");
    append_json_address(out, contract_instance_address);
    out.append(",\"function\":");
    append_json_byte_array(out, function);
    out.append(",\"arguments\":");
    append_json_byte_array(out, arguments);
    out.append(",\"deposit\":");
    append_json_string(out, deposit);
    out.append("}}");
}

/// The upgrade object; present in the latest generation only.
pub open spec fn json_upgrade(
    instance_address: Address,
    new_code_address: Address,
    init_upgrade_args: Seq<u8>,
    migrate_args: Seq<u8>,
) -> Seq<char> {
    "{\"Upgrade\":{\"instance_address\":"@ + json_byte_array(instance_address@)
        + ",\"new_code_address\":"@ + json_byte_array(new_code_address@)
        + ",\"init_upgrade_args\":"@ + json_byte_array(init_upgrade_args)
        + ",\"migrate_args\":"@ + json_byte_array(migrate_args) + "}}"@
}

/// Appends an upgrade object.
pub(crate) fn append_upgrade(
    out: &mut String,
    instance_address: &Address,
    new_code_address: &Address,
    init_upgrade_args: &Vec<u8>,
    migrate_args: &Vec<u8>,
)
    ensures
        final(out)@ == old(out)@ + json_upgrade(
            *instance_address,
            *new_code_address,
            init_upgrade_args@,
            migrate_args@,
        ),
{
    out.append("{\"Upgrade\":{\"instance_address\":");
    append_json_address(out, instance_address);
    out.append(",\"new_code_address\":");
    append_json_address(out, new_code_address);
    out.append(",\"init_upgrade_args\":");
    append_json_byte_array(out, init_upgrade_args);
    out.append(",\"migrate_args\":");
    append_json_byte_array(out, migrate_args);
    out.append("}}");
}

/// The canonical JSON text of a latest-generation signable variant.
pub open spec fn json_of_v2_sign_tx(t: TransactionTypeV2SignPayload) -> Seq<char> {
    match t {
        TransactionTypeV2SignPayload::NativeTokenTransfer(a, s) => json_v2_ntt(a, s@),
        TransactionTypeV2SignPayload::SmartContractDeployment {
            access_type,
            contract_type,
            contract_code,
            deposit,
            salt,
        } => json_v2_deployment(access_type, contract_type, contract_code@, deposit@, salt@),
        TransactionTypeV2SignPayload::SmartContractInit {
            contract_code_address,
            arguments,
            deposit,
        } => json_v2_init(contract_code_address, arguments@, deposit@),
        TransactionTypeV2SignPayload::SmartContractFunctionCall {
            contract_instance_address,
            function,
            arguments,
            deposit,
        } => json_v2_call(contract_instance_address, function@, arguments@, deposit@),
        TransactionTypeV2SignPayload::CreateStakingPool {
            contract_instance_address,
            min_stake,
            max_stake,
            min_pool_balance,
            max_pool_balance,
            staking_period,
        } => json_v2_csp(
            contract_instance_address,
            min_stake,
            max_stake,
            min_pool_balance,
            max_pool_balance,
            staking_period,
        ),
        TransactionTypeV2SignPayload::Stake { pool_address, amount } => json_v2_stake(
            pool_address,
            amount@,
        ),
        TransactionTypeV2SignPayload::UnStake { pool_address, amount } => json_v2_unstake(
            pool_address,
            amount@,
        ),
        TransactionTypeV2SignPayload::StakingPoolContract {
            pool_address,
            contract_instance_address,
        } => json_spc(pool_address, contract_instance_address),
        TransactionTypeV2SignPayload::Upgrade {
            instance_address,
            new_code_address,
            init_upgrade_args,
            migrate_args,
        } => json_upgrade(instance_address, new_code_address, init_upgrade_args@, migrate_args@),
    }
}

/// Appends the canonical JSON text of a latest-generation signable
/// variant.
pub(crate) fn append_v2_sign_tx(out: &mut String, t: &TransactionTypeV2SignPayload)
    ensures
        final(out)@ == old(out)@ + json_of_v2_sign_tx(*t),
{
    match t {
        TransactionTypeV2SignPayload::NativeTokenTransfer(a, s) => append_v2_ntt(
            out,
            a,
            s.as_str(),
        ),
        TransactionTypeV2SignPayload::SmartContractDeployment {
            access_type,
            contract_type,
            contract_code,
            deposit,
            salt,
        } => append_v2_deployment(
            out,
            access_type,
            contract_type,
            contract_code,
            deposit.as_str(),
            salt,
        ),
        TransactionTypeV2SignPayload::SmartContractInit {
            contract_code_address,
            arguments,
            deposit,
        } => append_v2_init(out, contract_code_address, arguments, deposit.as_str()),
        TransactionTypeV2SignPayload::SmartContractFunctionCall {
            contract_instance_address,
            function,
            arguments,
            deposit,
        } => append_v2_call(
            out,
            contract_instance_address,
            function,
            arguments,
            deposit.as_str(),
        ),
        TransactionTypeV2SignPayload::CreateStakingPool {
            contract_instance_address,
            min_stake,
            max_stake,
            min_pool_balance,
            max_pool_balance,
            staking_period,
        } => append_v2_csp(
            out,
            contract_instance_address,
            min_stake,
            max_stake,
            min_pool_balance,
            max_pool_balance,
            staking_period,
        ),
        TransactionTypeV2SignPayload::Stake { pool_address, amount } => append_v2_stake(
            out,
            pool_address,
            amount.as_str(),
        ),
        TransactionTypeV2SignPayload::UnStake { pool_address, amount } => append_v2_unstake(
            out,
            pool_address,
            amount.as_str(),
        ),
        TransactionTypeV2SignPayload::StakingPoolContract {
            pool_address,
            contract_instance_address,
        } => append_spc(out, pool_address, contract_instance_address),
        TransactionTypeV2SignPayload::Upgrade {
            instance_address,
            new_code_address,
            init_upgrade_args,
            migrate_args,
        } => append_upgrade(
            out,
            instance_address,
            new_code_address,
            init_upgrade_args,
            migrate_args,
        ),
    }
}

/// The canonical JSON text of the earliest generation's signable
/// structure: `nonce`, `transaction_type`, `fee_limit`, in that order.
pub open spec fn json_of_v1_payload(p: TXSignPayload) -> Seq<char> {
    "{\"nonce\":"@ + dec_chars(p.nonce as nat) + ",\"transaction_type\":"@ + json_of_v1_tx(
        p.transaction_type,
    ) + ",\"fee_limit\":"@ + dec_chars(p.fee_limit as nat) + "}"@
}

/// The canonical JSON text of the latest generation's signable
/// structure, from its parts: the nonce, the signable variant, and the
/// fee limit, in that order, with the nonce and the fee limit as decimal
/// strings.
pub open spec fn json_v2_payload_parts(
    nonce: Seq<char>,
    transaction_type: TransactionTypeV2SignPayload,
    fee_limit: Seq<char>,
) -> Seq<char> {
    "{\"nonce\":"@ + json_string(nonce) + ",\"transaction_type\":"@ + json_of_v2_sign_tx(
        transaction_type,
    ) + ",\"fee_limit\":"@ + json_string(fee_limit) + "}"@
}

/// The canonical JSON text of the latest generation's signable
/// structure: `nonce`, `transaction_type`, `fee_limit`, in that order,
/// with the nonce and the fee limit as decimal strings.
pub open spec fn json_of_v2_payload(p: TXSignPayloadV2) -> Seq<char> {
    json_v2_payload_parts(p.nonce@, p.transaction_type, p.fee_limit@)
}

/// Canonicalization is deterministic: two canonical renderings of the
/// same earliest-generation payload are identical character for
/// character, whatever the payload.
pub proof fn lemma_canonicalization_deterministic(p: TXSignPayload, c1: Seq<char>, c2: Seq<char>)
    requires
        c1 == json_of_v1_payload(p),
        c2 == json_of_v1_payload(p),
    ensures
        c1 == c2,
{
}

/// Canonicalization is deterministic in the latest generation too: two
/// canonical renderings of the same payload are identical character for
/// character.
pub proof fn lemma_canonicalization_deterministic_v2(
    p: TXSignPayloadV2,
    c1: Seq<char>,
    c2: Seq<char>,
)
    requires
        c1 == json_of_v2_payload(p),
        c2 == json_of_v2_payload(p),
    ensures
        c1 == c2,
{
}

} // verus!
