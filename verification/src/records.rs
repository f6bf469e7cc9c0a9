//! The two balance record views and the entry operation that derives
//! them, together with the event-stream mapping, from one resource
//! write.

use vstd::prelude::*;
use crate::Timestamp;
use crate::address::standardized;
use crate::address::standardize_address;
use crate::events::{EventToCoinType, guid_key, map_events};
use crate::hashing::hash_of;
use crate::payload::{CoinStoreBody, decoded_body};
use crate::resolver::{
    COIN_TYPE_MAX,
    canonical_type,
    is_struct_type,
    opt_view,
    resolve,
    truncated,
};
use crate::resource::{DecodeError, ResourceWrite, classify, shape_matches};

verus! {

/// The historical balance view: one row per observation, keyed by
/// transaction version, owner and coin type; append-only, never mutated
/// once produced.
#[derive(Clone)]
pub struct CoinBalance {
    pub transaction_version: i64,
    pub owner_address: String,
    pub coin_type_hash: String,
    pub coin_type: String,
    pub amount: String,
    pub transaction_timestamp: Timestamp,
}

/// The latest-state balance view, keyed by owner and coin type. This is
/// only a candidate row: the storage layer keeps, among all candidates
/// for one key, the one with the greatest last_transaction_version
/// (last-writer-wins by version); that reconciliation is the caller's
/// contract, not enforced here.
#[derive(Clone)]
pub struct CurrentCoinBalance {
    pub owner_address: String,
    pub coin_type_hash: String,
    pub coin_type: String,
    pub amount: String,
    pub last_transaction_version: i64,
    pub last_transaction_timestamp: Timestamp,
}

/// The generic type parameter a matched resource is resolved by: present
/// exactly when the type tag carries exactly one parameter.
pub open spec fn resolved_param(r: ResourceWrite) -> Option<crate::resource::MoveType> {
    match r.type_tag {
        Some(t) => if t.generic_type_params@.len() == 1 {
            Some(t.generic_type_params@[0])
        } else {
            None
        },
        None => None,
    }
}

/// Whether the coin's type identity can be resolved: exactly one generic
/// type parameter, and it is a struct type.
pub open spec fn type_resolvable(r: ResourceWrite) -> bool {
    match resolved_param(r) {
        Some(p) => is_struct_type(p),
        None => false,
    }
}

/// The canonical textual form of a resolvable resource's coin type.
pub open spec fn canonical_of(r: ResourceWrite) -> Seq<char> {
    match resolved_param(r) {
        Some(p) => canonical_type(p, opt_view(r.type_str)),
        None => Seq::empty(),
    }
}

/// Builds the two balance record views from a classified body and a
/// resolved type identity. Pure construction: both records share the
/// same amount, coin type and hash; they differ only in which key fields
/// they carry, both taken from the same observed transaction.
pub fn build(
    owner_address_raw: &str,
    body: &CoinStoreBody,
    type_id: &crate::resolver::CoinTypeIdentity,
    txn_version: i64,
    txn_timestamp: Timestamp,
) -> (r: (CoinBalance, CurrentCoinBalance))
    ensures
        r.0.transaction_version == txn_version,
        r.0.owner_address@ == standardized(owner_address_raw@),
        r.0.coin_type_hash == type_id.coin_type_hash,
        r.0.coin_type == type_id.coin_type,
        r.0.amount == body.amount,
        r.0.transaction_timestamp == txn_timestamp,
        r.1.owner_address == r.0.owner_address,
        r.1.coin_type_hash == r.0.coin_type_hash,
        r.1.coin_type == r.0.coin_type,
        r.1.amount == r.0.amount,
        r.1.last_transaction_version == txn_version,
        r.1.last_transaction_timestamp == txn_timestamp,
{
    let owner_address = standardize_address(owner_address_raw);
    let coin_balance = CoinBalance {
        transaction_version: txn_version,
        owner_address: owner_address.clone(),
        coin_type_hash: type_id.coin_type_hash.clone(),
        coin_type: type_id.coin_type.clone(),
        amount: body.amount.clone(),
        transaction_timestamp: txn_timestamp,
    };
    let current_coin_balance = CurrentCoinBalance {
        owner_address,
        coin_type_hash: type_id.coin_type_hash.clone(),
        coin_type: type_id.coin_type.clone(),
        amount: body.amount.clone(),
        last_transaction_version: txn_version,
        last_transaction_timestamp: txn_timestamp,
    };
    (coin_balance, current_coin_balance)
}

impl CoinBalance {
    /// Transforms one resource write, observed at the given transaction
    /// version and timestamp, into the historical balance record, the
    /// current-balance candidate, and the stream-to-coin-type mapping.
    ///
    /// `Ok(None)` exactly when the resource is not a coin store; an
    /// error, carrying the version for attribution, exactly when the
    /// shape matched but the payload or the type parameter is malformed;
    /// otherwise all three outputs, fully populated — never a partial
    /// result.
    pub fn from_write_resource(
        resource: &ResourceWrite,
        txn_version: i64,
        txn_timestamp: Timestamp,
    ) -> (r: Result<Option<(CoinBalance, CurrentCoinBalance, EventToCoinType)>, DecodeError>)
        ensures
            !shape_matches(*resource) ==> r == Ok::<
                Option<(CoinBalance, CurrentCoinBalance, EventToCoinType)>,
                DecodeError,
            >(None),
            shape_matches(*resource) ==> match decoded_body(resource.payload) {
                None => r == Err::<
                    Option<(CoinBalance, CurrentCoinBalance, EventToCoinType)>,
                    DecodeError,
                >(DecodeError::MalformedPayload { txn_version }),
                Some(body) => if !type_resolvable(*resource) {
                    r == Err::<
                        Option<(CoinBalance, CurrentCoinBalance, EventToCoinType)>,
                        DecodeError,
                    >(DecodeError::TypeResolutionFailure { txn_version })
                } else {
                    match r {
                        Ok(Some((cb, ccb, m))) => {
                            &&& cb.transaction_version == txn_version
                            &&& cb.owner_address@ == standardized(resource.address@)
                            &&& cb.coin_type_hash@ == hash_of(canonical_of(*resource))
                            &&& cb.coin_type@ == truncated(
                                canonical_of(*resource),
                                COIN_TYPE_MAX as int,
                            )
                            &&& cb.amount == body.amount
                            &&& cb.transaction_timestamp == txn_timestamp
                            &&& ccb.owner_address == cb.owner_address
                            &&& ccb.coin_type_hash == cb.coin_type_hash
                            &&& ccb.coin_type == cb.coin_type
                            &&& ccb.amount == cb.amount
                            &&& ccb.last_transaction_version == txn_version
                            &&& ccb.last_transaction_timestamp == txn_timestamp
                            &&& m.wf()
                            &&& m.entries@.len() == (if guid_key(body.withdraw) == guid_key(
                                body.deposit,
                            ) {
                                1int
                            } else {
                                2int
                            })
                            &&& forall|i: int|
                                0 <= i < m.entries@.len() ==> (#[trigger] m.entries@[i].1)@
                                    == cb.coin_type@
                            &&& m.entries@[0].0@ == guid_key(body.withdraw)
                            &&& (guid_key(body.withdraw) != guid_key(body.deposit)
                                ==> m.entries@[1].0@ == guid_key(body.deposit))
                        },
                        _ => false,
                    }
                },
            },
    {
        let body = match classify(resource, txn_version) {
            Ok(Some(b)) => b,
            Ok(None) => {
                return Ok(None);
            },
            Err(e) => {
                return Err(e);
            },
        };
        let tag = match &resource.type_tag {
            Some(t) => t,
            None => {
                // Unreachable: a classified resource carries a type tag.
                return Ok(None);
            },
        };
        if tag.generic_type_params.len() != 1 {
            return Err(DecodeError::TypeResolutionFailure { txn_version });
        }
        let param = &tag.generic_type_params[0];
        let type_id = match resolve(param, &resource.type_str, txn_version) {
            Ok(id) => id,
            Err(e) => {
                return Err(e);
            },
        };
        let (cb, ccb) = build(resource.address.as_str(), &body, &type_id, txn_version,
            txn_timestamp);
        let m = map_events(&body, cb.coin_type.as_str());
        Ok(Some((cb, ccb, m)))
    }
}

} // verus!
