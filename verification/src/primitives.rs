//! Primitive semantic type aliases of the domain model.
//!
//! All quantities are fixed-width or explicit-precision; nothing in the
//! core is ever represented as floating point.

use vstd::prelude::*;

verus! {

/// A 20-byte account address.
pub type Address = [u8; 20];

/// A token amount, 128-bit unsigned.
pub type Balance = u128;

/// A per-account transaction counter, 128-bit unsigned.
pub type Nonce = u128;

/// A block height, 128-bit unsigned.
pub type BlockNumber = u128;

/// Opaque deployable contract code.
pub type ContractCode = Vec<u8>;

/// An opaque contract function selector.
pub type ContractFunction = Vec<u8>;

/// Opaque arguments handed to a contract call or initialization.
pub type ContractArgument = Vec<u8>;

/// An opaque deployment salt.
pub type Salt = Vec<u8>;

/// Opaque arguments of a contract upgrade.
pub type UpgradeArgs = Vec<u8>;

/// A serialized signature.
pub type SignatureBytes = Vec<u8>;

/// A serialized verifying (public) key.
pub type VerifyingKeyBytes = Vec<u8>;

} // verus!
