//! Transaction-signing core of a blockchain client SDK.
//!
//! The crate converts wire-format transaction requests into a versioned
//! domain model, builds the canonical byte representation of a
//! transaction's signable content, and produces an ECDSA signature over
//! secp256k1 together with a 20-byte account address derived from a
//! private key.

pub mod canonical;
pub mod convert;
pub mod crypto;
pub mod errors;
pub mod numeric;
pub mod primitives;
pub mod rpc_model;
pub mod transaction;

use vstd::prelude::*;
use vstd::string::StringExecFns;

use crate::errors::CoreError;
use crate::numeric::dec_chars;
use crate::numeric::u128_to_decimal;
use crate::primitives::Address;
use crate::primitives::Balance;
use crate::primitives::ContractArgument;
use crate::primitives::ContractCode;
use crate::primitives::ContractFunction;
use crate::primitives::Nonce;
use crate::primitives::Salt;
use crate::primitives::UpgradeArgs;
use crate::transaction::AccessType;
use crate::transaction::ContractType;
use crate::transaction::TransactionType;
use crate::transaction::TransactionTypeV2;

verus! {

/// The signable structure of the earliest generation: amounts stay
/// native integers in the canonical form.
#[derive(Debug, Clone, PartialEq)]
pub struct TXSignPayload {
    pub nonce: Nonce,
    pub transaction_type: TransactionType,
    pub fee_limit: Balance,
}

/// The signable structure of the latest generation: the nonce, the fee
/// limit and every transferred amount are re-expressed as decimal
/// strings, so the signed bytes cannot depend on any serializer's
/// number handling.
#[derive(Debug, Clone, PartialEq)]
pub struct TXSignPayloadV2 {
    pub nonce: String,
    pub transaction_type: TransactionTypeV2SignPayload,
    pub fee_limit: String,
}

/// The latest generation's transaction variants as they appear inside
/// the signable structure: every amount — deposits, transferred and
/// staked amounts, pool bounds and periods — travels as a decimal
/// string there.
#[derive(Debug, Clone, PartialEq)]
pub enum TransactionTypeV2SignPayload {
    NativeTokenTransfer(Address, String),
    SmartContractDeployment {
        access_type: AccessType,
        contract_type: ContractType,
        contract_code: ContractCode,
        deposit: String,
        salt: Salt,
    },
    SmartContractInit {
        contract_code_address: Address,
        arguments: ContractArgument,
        deposit: String,
    },
    SmartContractFunctionCall {
        contract_instance_address: Address,
        function: ContractFunction,
        arguments: ContractArgument,
        deposit: String,
    },
    CreateStakingPool {
        contract_instance_address: Option<Address>,
        min_stake: Option<String>,
        max_stake: Option<String>,
        min_pool_balance: Option<String>,
        max_pool_balance: Option<String>,
        staking_period: Option<String>,
    },
    Stake {
        pool_address: Address,
        amount: String,
    },
    UnStake {
        pool_address: Address,
        amount: String,
    },
    StakingPoolContract {
        pool_address: Address,
        contract_instance_address: Address,
    },
    Upgrade {
        instance_address: Address,
        new_code_address: Address,
        init_upgrade_args: UpgradeArgs,
        migrate_args: UpgradeArgs,
    },
}

/// How an optional signable amount relates to an optional domain amount:
/// absence is kept, and a present amount is its canonical decimal string.
pub open spec fn opt_amount_stringified(v: Option<Balance>, r: Option<String>) -> bool {
    match (v, r) {
        (None, None) => true,
        (Some(v), Some(s)) => s@ == dec_chars(v as nat),
        _ => false,
    }
}

impl TXSignPayload {
    /// Renders the canonical JSON text whose bytes are hashed and
    /// signed.  The output is pinned to `json_of_v1_payload`, a function
    /// of the payload value alone, so the same logical input always
    /// yields byte-identical output.
    pub fn to_canonical_json(&self) -> (r: String)
        ensures
            r@ == canonical::json_of_v1_payload(*self),
    {
        let mut out = String::new();
        out.append("{\"nonce\":");
        canonical::append_dec(&mut out, self.nonce);
        out.append(",\"transaction_type\":");
        canonical::append_v1_tx(&mut out, &self.transaction_type);
        out.append(",\"fee_limit\":");
        canonical::append_dec(&mut out, self.fee_limit);
        out.append("}");
        out
    }
}

impl TXSignPayloadV2 {
    /// Renders the canonical JSON text whose bytes are hashed and
    /// signed.  The output is pinned to `json_of_v2_payload`, a function
    /// of the payload value alone, so the same logical input always
    /// yields byte-identical output.
    pub fn to_canonical_json(&self) -> (r: String)
        ensures
            r@ == canonical::json_of_v2_payload(*self),
    {
        let mut out = String::new();
        out.append("{\"nonce\":");
        canonical::append_json_string(&mut out, self.nonce.as_str());
        out.append(",\"transaction_type\":");
        canonical::append_v2_sign_tx(&mut out, &self.transaction_type);
        out.append(",\"fee_limit\":");
        canonical::append_json_string(&mut out, self.fee_limit.as_str());
        out.append("}");
        out
    }
}

/// How a signable variant relates to the domain transaction it was made
/// from: every field is kept, and every amount is re-expressed as its
/// canonical decimal string.
pub open spec fn sign_payload_of(t: TransactionTypeV2, r: TransactionTypeV2SignPayload) -> bool {
    match t {
        TransactionTypeV2::NativeTokenTransfer(address, balance) => {
            &&& r matches TransactionTypeV2SignPayload::NativeTokenTransfer(a, s)
            &&& a == address
            &&& s@ == dec_chars(balance as nat)
        },
        TransactionTypeV2::SmartContractDeployment {
            access_type,
            contract_type,
            contract_code,
            deposit,
            salt,
        } => {
            &&& r matches TransactionTypeV2SignPayload::SmartContractDeployment {
                access_type: ra,
                contract_type: rc,
                contract_code: rcode,
                deposit: rdep,
                salt: rsalt,
            }
            &&& ra == access_type
            &&& rc == contract_type
            &&& rcode == contract_code
            &&& rdep@ == dec_chars(deposit as nat)
            &&& rsalt == salt
        },
        TransactionTypeV2::SmartContractInit { contract_code_address, arguments, deposit } => {
            &&& r matches TransactionTypeV2SignPayload::SmartContractInit {
                contract_code_address: raddr,
                arguments: rargs,
                deposit: rdep,
            }
            &&& raddr == contract_code_address
            &&& rargs == arguments
            &&& rdep@ == dec_chars(deposit as nat)
        },
        TransactionTypeV2::SmartContractFunctionCall {
            contract_instance_address,
            function,
            arguments,
            deposit,
        } => {
            &&& r matches TransactionTypeV2SignPayload::SmartContractFunctionCall {
                contract_instance_address: raddr,
                function: rfun,
                arguments: rargs,
                deposit: rdep,
            }
            &&& raddr == contract_instance_address
            &&& rfun == function
            &&& rargs == arguments
            &&& rdep@ == dec_chars(deposit as nat)
        },
        TransactionTypeV2::CreateStakingPool {
            contract_instance_address,
            min_stake,
            max_stake,
            min_pool_balance,
            max_pool_balance,
            staking_period,
        } => {
            &&& r matches TransactionTypeV2SignPayload::CreateStakingPool {
                contract_instance_address: raddr,
                min_stake: rmin,
                max_stake: rmax,
                min_pool_balance: rminb,
                max_pool_balance: rmaxb,
                staking_period: rper,
            }
            &&& raddr == contract_instance_address
            &&& opt_amount_stringified(min_stake, rmin)
            &&& opt_amount_stringified(max_stake, rmax)
            &&& opt_amount_stringified(min_pool_balance, rminb)
            &&& opt_amount_stringified(max_pool_balance, rmaxb)
            &&& opt_amount_stringified(staking_period, rper)
        },
        TransactionTypeV2::Stake { pool_address, amount } => {
            &&& r matches TransactionTypeV2SignPayload::Stake { pool_address: rp, amount: ra }
            &&& rp == pool_address
            &&& ra@ == dec_chars(amount as nat)
        },
        TransactionTypeV2::UnStake { pool_address, amount } => {
            &&& r matches TransactionTypeV2SignPayload::UnStake { pool_address: rp, amount: ra }
            &&& rp == pool_address
            &&& ra@ == dec_chars(amount as nat)
        },
        TransactionTypeV2::StakingPoolContract { pool_address, contract_instance_address } => {
            r == (TransactionTypeV2SignPayload::StakingPoolContract {
                pool_address,
                contract_instance_address,
            })
        },
        TransactionTypeV2::Upgrade {
            instance_address,
            new_code_address,
            init_upgrade_args,
            migrate_args,
        } => {
            r == (TransactionTypeV2SignPayload::Upgrade {
                instance_address,
                new_code_address,
                init_upgrade_args,
                migrate_args,
            })
        },
    }
}

/// The 20-byte account address belonging to an uncompressed SEC1 public
/// key encoding: the last 20 bytes of the Keccak-256 digest of the
/// 64-byte X‖Y coordinates that follow the prefix byte.
pub open spec fn account_address_of(pubkey_uncompressed: Seq<u8>) -> Seq<u8> {
    crypto::keccak256_of(pubkey_uncompressed.subrange(1, 65)).subrange(12, 32)
}

/// The lowercase hexadecimal account address derived from 32 secret key
/// bytes.
pub open spec fn address_hex_of_secret_bytes(sk_bytes: Seq<u8>) -> Seq<char> {
    crypto::hex_of(account_address_of(crypto::pubkey_uncompressed_of(sk_bytes)))
}

/// Computes the 20-byte account address for a 65-byte uncompressed SEC1
/// public key encoding: drop the one-byte prefix, hash the remaining 64
/// bytes with Keccak-256, and keep the digest's last 20 bytes.  Any
/// other length is an `InvalidKeyEncoding` failure.
pub fn address_from_uncompressed_public_key(pubkey: &Vec<u8>) -> (r: Result<Address, CoreError>)
    ensures
        pubkey@.len() == 65 ==> (r matches Ok(a) && a@ == account_address_of(pubkey@)),
        pubkey@.len() != 65 ==> r == Err::<Address, CoreError>(CoreError::InvalidKeyEncoding),
{
    if pubkey.len() != 65 {
        return Err(CoreError::InvalidKeyEncoding);
    }
    let coordinates = vstd::slice::slice_subrange(pubkey.as_slice(), 1, 65);
    let digest = crypto::keccak256(coordinates);
    let mut a: Address = [0u8; 20];
    let mut i: usize = 0;
    while i < 20
        invariant
            digest@.len() == 32,
            0 <= i <= 20,
            a@.len() == 20,
            forall|j: int| 0 <= j < i ==> a@[j] == digest@[12 + j],
        decreases 20 - i,
    {
        a[i] = digest[12 + i];
        i = i + 1;
    }
    proof {
        assert(a@ =~= digest@.subrange(12, 32));
    }
    Ok(a)
}

/// Derives the lowercase hexadecimal account address for a private key.
///
/// The public key is recomputed and re-encoded uncompressed, its
/// coordinates are hashed with Keccak-256, and the digest's last 20
/// bytes are rendered as 40 lowercase hexadecimal characters.  The
/// result is pinned to the supplied key's own bytes, so equal keys
/// always derive the equal address text.  This never fails: every
/// constructed secret key has a public key.
pub fn get_address_from_private_key(private_key: &secp256k1::SecretKey) -> (r: Result<
    String,
    CoreError,
>)
    ensures
        r is Ok,
        r matches Ok(s) ==> s@ == address_hex_of_secret_bytes(crypto::secret_bytes_of(*private_key)),
        r matches Ok(s) ==> s@.len() == 40 && (forall|i: int|
            0 <= i < s@.len() ==> crypto::is_lower_hex_digit(#[trigger] s@[i])),
{
    let sk_bytes = crypto::secret_key_bytes(private_key);
    let pubkey = crypto::public_key_uncompressed_from_secret_bytes(sk_bytes.as_slice());
    let address = match address_from_uncompressed_public_key(&pubkey) {
        Ok(a) => a,
        Err(e) => {
            // Unreachable: the encoding above is 65 bytes long.
            proof {
                assert(false);
            }
            return Err(e);
        },
    };
    let rendered = crypto::hex_encode(address.as_slice());
    proof {
        crypto::lemma_hex_of_shape(address@);
        assert(rendered@ == address_hex_of_secret_bytes(sk_bytes@));
    }
    Ok(rendered)
}

/// Whether a textual private key is acceptable: valid hexadecimal that
/// decodes to 32 bytes forming a valid secp256k1 scalar.
pub open spec fn privkey_str_valid(s: Seq<char>) -> bool {
    &&& s.len() % 2 == 0
    &&& crypto::all_hex_digits(s)
    &&& crypto::hex_bytes_of(s).len() == 32
    &&& crypto::valid_secret_key_bytes(crypto::hex_bytes_of(s))
}

/// Derives the lowercase hexadecimal account address for a private key
/// given as hexadecimal text.
///
/// Fails with `InvalidKeyEncoding` exactly when the text is not valid
/// hexadecimal or does not decode to a valid 32-byte secp256k1 scalar;
/// otherwise the address is the one derived from the decoded key bytes.
pub fn get_address_from_privkey_str(private_key: &str) -> (r: Result<String, CoreError>)
    ensures
        r is Ok <==> privkey_str_valid(private_key@),
        r is Err ==> r == Err::<String, CoreError>(CoreError::InvalidKeyEncoding),
        r matches Ok(s) ==> s@ == address_hex_of_secret_bytes(
            crypto::hex_bytes_of(private_key@),
        ),
        r matches Ok(s) ==> s@.len() == 40 && (forall|i: int|
            0 <= i < s@.len() ==> crypto::is_lower_hex_digit(#[trigger] s@[i])),
{
    let bytes = match crypto::hex_decode(private_key) {
        Some(b) => b,
        None => {
            return Err(CoreError::InvalidKeyEncoding);
        },
    };
    if bytes.len() != 32 {
        return Err(CoreError::InvalidKeyEncoding);
    }
    match crypto::secret_key_from_bytes(bytes.as_slice()) {
        Some(_) => {},
        None => {
            return Err(CoreError::InvalidKeyEncoding);
        },
    }
    let pubkey = crypto::public_key_uncompressed_from_secret_bytes(bytes.as_slice());
    let address = match address_from_uncompressed_public_key(&pubkey) {
        Ok(a) => a,
        Err(e) => {
            // Unreachable: the encoding above is 65 bytes long.
            proof {
                assert(false);
            }
            return Err(e);
        },
    };
    let rendered = crypto::hex_encode(address.as_slice());
    proof {
        crypto::lemma_hex_of_shape(address@);
    }
    Ok(rendered)
}

/// Derives the lowercase hexadecimal account address for a private key
/// given as its raw 32 bytes.
///
/// Unlike the `SecretKey` overload, whose input is opaque, this entry
/// point pins the result to a function of the key bytes alone: equal
/// bytes always derive the equal address text.  Fails with
/// `InvalidPrivateKey` exactly when the bytes are not the 32-byte
/// encoding of a valid secp256k1 scalar.
pub fn derive_address_from_key_bytes(private_key: &[u8]) -> (r: Result<String, CoreError>)
    ensures
        r is Ok <==> (private_key@.len() == 32 && crypto::valid_secret_key_bytes(private_key@)),
        r is Err ==> r == Err::<String, CoreError>(CoreError::InvalidPrivateKey),
        r matches Ok(s) ==> s@ == address_hex_of_secret_bytes(private_key@),
        r matches Ok(s) ==> s@.len() == 40 && (forall|i: int|
            0 <= i < s@.len() ==> crypto::is_lower_hex_digit(#[trigger] s@[i])),
{
    match crypto::secret_key_from_bytes(private_key) {
        Some(_) => {},
        None => {
            return Err(CoreError::InvalidPrivateKey);
        },
    }
    let pubkey = crypto::public_key_uncompressed_from_secret_bytes(private_key);
    let address = match address_from_uncompressed_public_key(&pubkey) {
        Ok(a) => a,
        Err(e) => {
            // Unreachable: the encoding above is 65 bytes long.
            proof {
                assert(false);
            }
            return Err(e);
        },
    };
    let rendered = crypto::hex_encode(address.as_slice());
    proof {
        crypto::lemma_hex_of_shape(address@);
    }
    Ok(rendered)
}

/// Builds a secp256k1 secret key from raw key bytes, for callers that
/// hold key material as plain bytes.
///
/// Fails with `InvalidPrivateKey` exactly when the bytes are not the
/// 32-byte encoding of a valid secp256k1 scalar.
pub fn secret_key_from_key_bytes(bytes: &[u8]) -> (r: Result<secp256k1::SecretKey, CoreError>)
    ensures
        r is Ok <==> (bytes@.len() == 32 && crypto::valid_secret_key_bytes(bytes@)),
        r matches Ok(k) ==> crypto::secret_bytes_of(k) == bytes@,
        r is Err ==> r == Err::<secp256k1::SecretKey, CoreError>(CoreError::InvalidPrivateKey),
{
    match crypto::secret_key_from_bytes(bytes) {
        Some(key) => Ok(key),
        None => Err(CoreError::InvalidPrivateKey),
    }
}

/// Signs an earliest-generation wire transaction.
///
/// The wire value is converted to the domain model, wrapped with the
/// nonce and the fee limit into the canonical payload, serialized to its
/// canonical JSON text, hashed with SHA-256, and signed with ECDSA over
/// secp256k1.  The result is the 64-byte compact RFC6979 signature that
/// the supplied key's bytes and the canonical digest determine; a
/// conversion failure is returned unchanged and nothing is signed.
pub fn sign(
    secret_key: secp256k1::SecretKey,
    transaction_type: rpc_model::submit_transaction_request::TransactionType,
    fee_limit: Balance,
    nonce: Nonce,
) -> (r: Result<Vec<u8>, CoreError>)
    ensures
        match convert::wire_v1_error(transaction_type) {
            Some(e) => r == Err::<Vec<u8>, CoreError>(e),
            None => r matches Ok(sig) && sig@.len() == 64 && (exists|t: TransactionType|
                {
                    &&& convert::converts_wire_v1(transaction_type, Ok(t))
                    &&& sig@ == crypto::ecdsa_compact_sig_of(
                        crypto::secret_bytes_of(secret_key),
                        crypto::sha256_of(
                            vstd::utf8::encode_utf8(
                                canonical::json_of_v1_payload(
                                    TXSignPayload { nonce, transaction_type: t, fee_limit },
                                ),
                            ),
                        ),
                    )
                }),
        },
{
    let converted = match TransactionType::try_from(transaction_type) {
        Ok(t) => t,
        Err(e) => {
            return Err(e);
        },
    };
    let ghost converted_snapshot = converted;
    let sign_payload = TXSignPayload { nonce, transaction_type: converted, fee_limit };
    let json = sign_payload.to_canonical_json();
    let digest = crypto::sha256(json.as_str().as_bytes());
    let sk_bytes = crypto::secret_key_bytes(&secret_key);
    let sig = crypto::sign_ecdsa_compact(sk_bytes.as_slice(), digest.as_slice());
    proof {
        assert(sign_payload == (TXSignPayload {
            nonce,
            transaction_type: converted_snapshot,
            fee_limit,
        }));
        assert(sig@ == crypto::ecdsa_compact_sig_of(
            sk_bytes@,
            crypto::sha256_of(
                vstd::utf8::encode_utf8(
                    canonical::json_of_v1_payload(
                        TXSignPayload { nonce, transaction_type: converted_snapshot, fee_limit },
                    ),
                ),
            ),
        ));
    }
    Ok(sig)
}

/// Signs a latest-generation wire transaction.
///
/// The wire value is converted to the domain model; the nonce, the fee
/// limit and the amounts are re-expressed as decimal strings in the
/// canonical payload, which is serialized to its canonical JSON text,
/// hashed with SHA-256, and signed with ECDSA over secp256k1.  The
/// result is the 64-byte compact RFC6979 signature that the supplied
/// key's bytes and the canonical digest determine; a conversion failure
/// is returned unchanged and nothing is signed.
pub fn sign_v2(
    secret_key: secp256k1::SecretKey,
    transaction_type: rpc_model::submit_transaction_request_v2::TransactionType,
    fee_limit: Balance,
    nonce: Nonce,
) -> (r: Result<Vec<u8>, CoreError>)
    ensures
        match convert::wire_v2_error(transaction_type) {
            Some(e) => r == Err::<Vec<u8>, CoreError>(e),
            None => r matches Ok(sig) && sig@.len() == 64 && (exists|
                t: TransactionTypeV2,
                sp: TransactionTypeV2SignPayload,
            |
                {
                    &&& convert::converts_wire_v2(transaction_type, Ok(t))
                    &&& sign_payload_of(t, sp)
                    &&& sig@ == crypto::ecdsa_compact_sig_of(
                        crypto::secret_bytes_of(secret_key),
                        crypto::sha256_of(
                            vstd::utf8::encode_utf8(
                                canonical::json_v2_payload_parts(
                                    dec_chars(nonce as nat),
                                    sp,
                                    dec_chars(fee_limit as nat),
                                ),
                            ),
                        ),
                    )
                }),
        },
{
    let converted = match TransactionTypeV2::try_from(transaction_type) {
        Ok(t) => t,
        Err(e) => {
            return Err(e);
        },
    };
    let ghost converted_snapshot = converted;
    let sign_payload = TXSignPayloadV2 {
        nonce: u128_to_decimal(nonce),
        transaction_type: TransactionTypeV2SignPayload::from(converted),
        fee_limit: u128_to_decimal(fee_limit),
    };
    let json = sign_payload.to_canonical_json();
    let digest = crypto::sha256(json.as_str().as_bytes());
    let sk_bytes = crypto::secret_key_bytes(&secret_key);
    let sig = crypto::sign_ecdsa_compact(sk_bytes.as_slice(), digest.as_slice());
    proof {
        assert(canonical::json_of_v2_payload(sign_payload) == canonical::json_v2_payload_parts(
            dec_chars(nonce as nat),
            sign_payload.transaction_type,
            dec_chars(fee_limit as nat),
        ));
        assert(sign_payload_of(converted_snapshot, sign_payload.transaction_type));
        assert(sig@ == crypto::ecdsa_compact_sig_of(
            sk_bytes@,
            crypto::sha256_of(
                vstd::utf8::encode_utf8(
                    canonical::json_v2_payload_parts(
                        dec_chars(nonce as nat),
                        sign_payload.transaction_type,
                        dec_chars(fee_limit as nat),
                    ),
                ),
            ),
        ));
    }
    Ok(sig)
}

/// Renders an optional amount as its optional canonical decimal string.
fn opt_balance_to_decimal(o: Option<Balance>) -> (r: Option<String>)
    ensures
        opt_amount_stringified(o, r),
{
    match o {
        Some(v) => Some(u128_to_decimal(v)),
        None => None,
    }
}

impl TransactionTypeV2SignPayload {
    /// Builds the signable variant for a domain transaction,
    /// re-expressing amounts as canonical decimal strings.
    pub fn from(value: TransactionTypeV2) -> (r: TransactionTypeV2SignPayload)
        ensures
            sign_payload_of(value, r),
    {
        match value {
            TransactionTypeV2::NativeTokenTransfer(address, balance) => {
                TransactionTypeV2SignPayload::NativeTokenTransfer(address, u128_to_decimal(balance))
            },
            TransactionTypeV2::SmartContractDeployment {
                access_type,
                contract_type,
                contract_code,
                deposit,
                salt,
            } => {
                TransactionTypeV2SignPayload::SmartContractDeployment {
                    access_type,
                    contract_type,
                    contract_code,
                    deposit: u128_to_decimal(deposit),
                    salt,
                }
            },
            TransactionTypeV2::SmartContractFunctionCall {
                contract_instance_address,
                function,
                arguments,
                deposit,
            } => {
                TransactionTypeV2SignPayload::SmartContractFunctionCall {
                    contract_instance_address,
                    function,
                    arguments,
                    deposit: u128_to_decimal(deposit),
                }
            },
            TransactionTypeV2::SmartContractInit { contract_code_address, arguments, deposit } => {
                TransactionTypeV2SignPayload::SmartContractInit {
                    contract_code_address,
                    arguments,
                    deposit: u128_to_decimal(deposit),
                }
            },
            TransactionTypeV2::CreateStakingPool {
                contract_instance_address,
                min_stake,
                max_stake,
                min_pool_balance,
                max_pool_balance,
                staking_period,
            } => {
                TransactionTypeV2SignPayload::CreateStakingPool {
                    contract_instance_address,
                    min_stake: opt_balance_to_decimal(min_stake),
                    max_stake: opt_balance_to_decimal(max_stake),
                    min_pool_balance: opt_balance_to_decimal(min_pool_balance),
                    max_pool_balance: opt_balance_to_decimal(max_pool_balance),
                    staking_period: opt_balance_to_decimal(staking_period),
                }
            },
            TransactionTypeV2::Stake { pool_address, amount } => {
                TransactionTypeV2SignPayload::Stake {
                    pool_address,
                    amount: u128_to_decimal(amount),
                }
            },
            TransactionTypeV2::StakingPoolContract {
                pool_address,
                contract_instance_address,
            } => {
                TransactionTypeV2SignPayload::StakingPoolContract {
                    pool_address,
                    contract_instance_address,
                }
            },
            TransactionTypeV2::UnStake { pool_address, amount } => {
                TransactionTypeV2SignPayload::UnStake {
                    pool_address,
                    amount: u128_to_decimal(amount),
                }
            },
            TransactionTypeV2::Upgrade {
                instance_address,
                new_code_address,
                init_upgrade_args,
                migrate_args,
            } => {
                TransactionTypeV2SignPayload::Upgrade {
                    instance_address,
                    new_code_address,
                    init_upgrade_args,
                    migrate_args,
                }
            },
        }
    }
}

} // verus!
