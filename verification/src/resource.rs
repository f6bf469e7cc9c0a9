//! The resource-write input model, the error taxonomy, and the
//! classifier that recognizes the coin-store shape.

use vstd::prelude::*;
use vstd::string::StringExecFns;
use crate::address::{standardized, standardize_address};
use crate::payload::{PayloadValue, CoinStoreBody, decoded_body, decode_coin_store};

verus! {

/// A generic on-chain type, as a type argument of a resource type: either
/// a struct type, named by its defining account address, module and type
/// name, or any other type carried in its textual form.
pub enum MoveType {
    Struct { address: String, module: String, name: String },
    Other(String),
}

/// The structural type of a resource write: the base type's defining
/// address, module and name, plus its ordered generic type arguments.
pub struct ResourceType {
    pub address: String,
    pub module: String,
    pub name: String,
    pub generic_type_params: Vec<MoveType>,
}

/// One observed write to a piece of on-chain account storage: the owning
/// account's raw address, the structural type tag (absent when the
/// upstream decoder had none), the raw textual type descriptor, and the
/// decoded payload.
pub struct ResourceWrite {
    pub address: String,
    pub type_tag: Option<ResourceType>,
    pub type_str: Option<String>,
    pub payload: PayloadValue,
}

/// Why a matched resource could not be transformed. Each variant carries
/// the transaction version for attribution; an unrecognized resource
/// shape is not an error.
#[derive(Clone, Copy, Debug, PartialEq, Eq, Structural)]
pub enum DecodeError {
    /// The resource matched the coin-store shape but a required payload
    /// field was missing or malformed.
    MalformedPayload { txn_version: i64 },
    /// The generic type parameter was missing, not exactly one, or not a
    /// struct type.
    TypeResolutionFailure { txn_version: i64 },
}

/// Whether a type tag names the coin-store base type: the well-known coin
/// module's address, the module `coin`, the type `CoinStore`. The
/// addresses are compared in standardized form.
pub open spec fn is_coin_store_tag(t: ResourceType) -> bool {
    &&& standardized(t.address@) == standardized("0x1"@)
    &&& t.module@ == "coin"@
    &&& t.name@ == "CoinStore"@
}

/// Whether a resource write carries the coin-store base type at all.
pub open spec fn shape_matches(r: ResourceWrite) -> bool {
    match r.type_tag {
        Some(t) => is_coin_store_tag(t),
        None => false,
    }
}

/// Checks a type tag against the coin-store base type.
pub fn check_coin_store_tag(t: &ResourceType) -> (r: bool)
    ensures
        r == is_coin_store_tag(*t),
{
    let std_addr = standardize_address(t.address.as_str());
    let coin_addr = standardize_address("0x1");
    std_addr == coin_addr && t.module == String::from_str("coin") && t.name == String::from_str(
        "CoinStore",
    )
}

/// Classifies a resource write: `Ok(None)` when the shape is not the
/// coin-store shape, the decoded body on a match, and a malformed-payload
/// error when the shape matched but the payload did not decode.
pub fn classify(resource: &ResourceWrite, txn_version: i64) -> (r: Result<
    Option<CoinStoreBody>,
    DecodeError,
>)
    ensures
        !shape_matches(*resource) ==> r == Ok::<Option<CoinStoreBody>, DecodeError>(None),
        shape_matches(*resource) ==> match decoded_body(resource.payload) {
            Some(body) => r == Ok::<Option<CoinStoreBody>, DecodeError>(Some(body)),
            None => r == Err::<Option<CoinStoreBody>, DecodeError>(
                DecodeError::MalformedPayload { txn_version },
            ),
        },
{
    let tag = match &resource.type_tag {
        Some(t) => t,
        None => {
            return Ok(None);
        },
    };
    if !check_coin_store_tag(tag) {
        return Ok(None);
    }
    match decode_coin_store(&resource.payload) {
        Some(body) => Ok(Some(body)),
        None => Err(DecodeError::MalformedPayload { txn_version }),
    }
}

} // verus!
