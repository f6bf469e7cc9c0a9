//! Canonical type identity: the canonical textual form of the coin's
//! generic type parameter, its content hash, and its bounded display
//! form.

use vstd::prelude::*;
use vstd::string::StrSliceExecFns;
use vstd::string::StringExecFns;
use crate::hashing::{hash_of, hash_str};
use crate::resource::{MoveType, DecodeError};

verus! {

/// The character budget of the display form of a coin type.
pub const COIN_TYPE_MAX: usize = 5000;

/// Whether a generic type parameter is a struct type, the only kind a
/// coin type can be.
pub open spec fn is_struct_type(p: MoveType) -> bool {
    match p {
        MoveType::Struct { .. } => true,
        _ => false,
    }
}

/// The canonical textual form of a coin's type: the raw descriptor when
/// the upstream decoder supplied one, else `address::module::name` of the
/// struct type parameter.
pub open spec fn canonical_type(param: MoveType, raw: Option<Seq<char>>) -> Seq<char> {
    match raw {
        Some(s) => s,
        None => match param {
            MoveType::Struct { address, module, name } => address@ + "::"@ + module@ + "::"@
                + name@,
            MoveType::Other(s) => s@,
        },
    }
}

/// The view of an optional string.
pub open spec fn opt_view(o: Option<String>) -> Option<Seq<char>> {
    match o {
        Some(s) => Some(s@),
        None => None,
    }
}

/// The first `max` characters of a string; a string within the budget is
/// unchanged. Deterministic and total: an oversized input is silently
/// shortened, never refused.
pub open spec fn truncated(s: Seq<char>, max: int) -> Seq<char> {
    if s.len() <= max {
        s
    } else {
        s.take(max)
    }
}

/// Truncates a string to at most `max` characters.
pub fn truncate_str(s: &str, max: usize) -> (r: String)
    ensures
        r@ == truncated(s@, max as int),
{
    let n = s.unicode_len();
    if n <= max {
        String::from_str(s)
    } else {
        String::from_str(s.substring_char(0, max))
    }
}

/// Truncation is idempotent: truncating an already-truncated string at
/// the same bound yields the same string.
pub proof fn lemma_truncate_idempotent(s: Seq<char>, max: int)
    requires
        0 <= max,
    ensures
        truncated(truncated(s, max), max) == truncated(s, max),
{
}

/// The resolved identity of a coin type: the content hash of the full
/// canonical descriptor, and the descriptor's display form truncated to
/// [`COIN_TYPE_MAX`] characters.
pub struct CoinTypeIdentity {
    pub coin_type_hash: String,
    pub coin_type: String,
}

/// Resolves the coin's generic type parameter and raw descriptor into its
/// type identity. Fails, with the transaction version attached, exactly
/// when the parameter is not a struct type.
pub fn resolve(param: &MoveType, raw_type_str: &Option<String>, txn_version: i64) -> (r: Result<
    CoinTypeIdentity,
    DecodeError,
>)
    ensures
        match r {
            Ok(id) => {
                &&& is_struct_type(*param)
                &&& id.coin_type_hash@ == hash_of(canonical_type(*param, opt_view(*raw_type_str)))
                &&& id.coin_type@ == truncated(
                    canonical_type(*param, opt_view(*raw_type_str)),
                    COIN_TYPE_MAX as int,
                )
            },
            Err(e) => {
                &&& !is_struct_type(*param)
                &&& e == (DecodeError::TypeResolutionFailure { txn_version })
            },
        },
{
    match param {
        MoveType::Struct { address, module, name } => {
            let canon: String = match raw_type_str {
                Some(s) => s.clone(),
                None => {
                    let mut c = String::from_str(address.as_str());
                    c.append("::");
                    c.append(module.as_str());
                    c.append("::");
                    c.append(name.as_str());
                    c
                },
            };
            let hash = hash_str(canon.as_str());
            let trunc = truncate_str(canon.as_str(), COIN_TYPE_MAX);
            Ok(CoinTypeIdentity { coin_type_hash: hash, coin_type: trunc })
        },
        MoveType::Other(_) => Err(DecodeError::TypeResolutionFailure { txn_version }),
    }
}

} // verus!
