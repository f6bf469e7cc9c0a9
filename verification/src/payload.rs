//! The decoded payload of a resource write, as a tree of plain values,
//! and the verified extraction of the coin-store body from it.

use vstd::prelude::*;
use vstd::string::StrSliceExecFns;
use crate::digits::{is_dec_digits, dec_val};

verus! {

/// A decoded resource payload: a tree of plain values, as an upstream
/// decoder hands it over. Numbers are carried in their textual form so
/// that arbitrary precision is kept.
pub enum PayloadValue {
    Null,
    Bool(bool),
    Number(String),
    Str(String),
    Array(Vec<PayloadValue>),
    Object(Vec<(String, PayloadValue)>),
}

/// The identity of an event stream: the account that owns it and the
/// per-account creation sequence number.
#[derive(Clone)]
pub struct GuidId {
    pub account_address: String,
    pub creation_number: u64,
}

/// The typed body of a coin-store resource: the balance amount as a
/// decimal digit string, and the withdraw and deposit event streams.
#[derive(Clone)]
pub struct CoinStoreBody {
    pub amount: String,
    pub withdraw: GuidId,
    pub deposit: GuidId,
}

/// The first field of `fields` named `key`, if any.
pub open spec fn lookup(fields: Seq<(String, PayloadValue)>, key: Seq<char>) -> Option<PayloadValue>
    decreases fields.len(),
{
    if fields.len() == 0 {
        None
    } else if fields[0].0@ == key {
        Some(fields[0].1)
    } else {
        lookup(fields.skip(1), key)
    }
}

/// The field named `key` of an object value; `None` for any other value.
pub open spec fn field_of(v: PayloadValue, key: Seq<char>) -> Option<PayloadValue> {
    match v {
        PayloadValue::Object(fields) => lookup(fields@, key),
        _ => None,
    }
}

/// The stream identity held by an event-handle value, reached through its
/// `guid.id` object: an address string and a creation number that fits in
/// a `u64`. `None` when any of that is missing or malformed.
pub open spec fn guid_of(events: PayloadValue) -> Option<GuidId> {
    match field_of(events, "guid"@) {
        Some(g) => match field_of(g, "id"@) {
            Some(id) => match (field_of(id, "account_address"@), field_of(id, "creation_number"@)) {
                (Some(PayloadValue::Str(a)), Some(PayloadValue::Str(c))) => {
                    if is_dec_digits(c@) && dec_val(c@) <= u64::MAX {
                        Some(GuidId { account_address: a, creation_number: dec_val(c@) as u64 })
                    } else {
                        None
                    }
                },
                _ => None,
            },
            None => None,
        },
        None => None,
    }
}

/// The balance amount held by a payload, reached through its `coin.value`
/// field: a non-empty decimal digit string. `None` when missing or not
/// such a string.
pub open spec fn amount_of(p: PayloadValue) -> Option<String> {
    match field_of(p, "coin"@) {
        Some(coin) => match field_of(coin, "value"@) {
            Some(PayloadValue::Str(v)) => if is_dec_digits(v@) {
                Some(v)
            } else {
                None
            },
            _ => None,
        },
        None => None,
    }
}

/// The coin-store body a payload decodes to, or `None` when any required
/// field is missing or malformed.
pub open spec fn decoded_body(p: PayloadValue) -> Option<CoinStoreBody> {
    match (amount_of(p), guid_of_field(p, "withdraw_events"@), guid_of_field(p, "deposit_events"@)) {
        (Some(amount), Some(withdraw), Some(deposit)) => Some(
            CoinStoreBody { amount, withdraw, deposit },
        ),
        _ => None,
    }
}

/// The stream identity under the event-handle field named `key`.
pub open spec fn guid_of_field(p: PayloadValue, key: Seq<char>) -> Option<GuidId> {
    match field_of(p, key) {
        Some(events) => guid_of(events),
        None => None,
    }
}

/// Finds the first field of an object's field list with the given name.
pub fn get_field<'a>(fields: &'a Vec<(String, PayloadValue)>, key: &str) -> (r: Option<
    &'a PayloadValue,
>)
    ensures
        match r {
            Some(v) => lookup(fields@, key@) == Some(*v),
            None => lookup(fields@, key@) is None,
        },
{
    let k = String::from_str(key);
    let mut i: usize = 0;
    proof {
        assert(fields@.skip(0) =~= fields@);
    }
    while i < fields.len()
        invariant
            0 <= i <= fields@.len(),
            k@ == key@,
            lookup(fields@, key@) == lookup(fields@.skip(i as int), key@),
        decreases fields@.len() - i,
    {
        let pair: &(String, PayloadValue) = &fields[i];
        if pair.0 == k {
            proof {
                assert(fields@.skip(i as int)[0] == fields@[i as int]);
            }
            return Some(&pair.1);
        }
        proof {
            assert(fields@.skip(i as int)[0] == fields@[i as int]);
            assert(fields@.skip(i as int).skip(1) =~= fields@.skip(i + 1));
        }
        i = i + 1;
    }
    proof {
        assert(fields@.skip(i as int) =~= Seq::<(String, PayloadValue)>::empty());
    }
    None
}

/// The field named `key` of an object value, as [`field_of`] gives it.
pub fn get_object_field<'a>(v: &'a PayloadValue, key: &str) -> (r: Option<&'a PayloadValue>)
    ensures
        match r {
            Some(f) => field_of(*v, key@) == Some(*f),
            None => field_of(*v, key@) is None,
        },
{
    match v {
        PayloadValue::Object(fields) => get_field(fields, key),
        _ => None,
    }
}

/// Extracts the stream identity from an event-handle value, as
/// [`guid_of`] gives it.
pub fn decode_guid(events: &PayloadValue) -> (r: Option<GuidId>)
    ensures
        r == guid_of(*events),
{
    let g = match get_object_field(events, "guid") {
        Some(g) => g,
        None => {
            return None;
        },
    };
    let id = match get_object_field(g, "id") {
        Some(id) => id,
        None => {
            return None;
        },
    };
    let addr = match get_object_field(id, "account_address") {
        Some(PayloadValue::Str(a)) => a,
        _ => {
            return None;
        },
    };
    let num = match get_object_field(id, "creation_number") {
        Some(PayloadValue::Str(c)) => c,
        _ => {
            return None;
        },
    };
    match crate::digits::parse_u64(num.as_str()) {
        Some(n) => Some(GuidId { account_address: addr.clone(), creation_number: n }),
        None => None,
    }
}

/// Decodes a payload into the coin-store body, as [`decoded_body`] gives
/// it; `None` when the payload is malformed for that shape.
pub fn decode_coin_store(p: &PayloadValue) -> (r: Option<CoinStoreBody>)
    ensures
        r == decoded_body(*p),
{
    let coin = match get_object_field(p, "coin") {
        Some(c) => c,
        None => {
            return None;
        },
    };
    let value = match get_object_field(coin, "value") {
        Some(PayloadValue::Str(v)) => v,
        _ => {
            return None;
        },
    };
    if !is_digit_string(value.as_str()) {
        return None;
    }
    let withdraw = match get_object_field(p, "withdraw_events") {
        Some(w) => match decode_guid(w) {
            Some(g) => g,
            None => {
                return None;
            },
        },
        None => {
            return None;
        },
    };
    let deposit = match get_object_field(p, "deposit_events") {
        Some(d) => match decode_guid(d) {
            Some(g) => g,
            None => {
                return None;
            },
        },
        None => {
            return None;
        },
    };
    Some(CoinStoreBody { amount: value.clone(), withdraw, deposit })
}

/// Whether a string is a non-empty run of decimal digit characters.
pub fn is_digit_string(s: &str) -> (r: bool)
    ensures
        r == is_dec_digits(s@),
{
    let n = s.unicode_len();
    if n == 0 {
        return false;
    }
    let mut i: usize = 0;
    while i < n
        invariant
            0 < n == s@.len(),
            0 <= i <= n,
            forall|j: int| 0 <= j < i ==> crate::digits::is_digit(#[trigger] s@[j]),
        decreases n - i,
    {
        let c = s.get_char(i);
        if c < '0' || c > '9' {
            return false;
        }
        i = i + 1;
    }
    true
}

} // verus!
