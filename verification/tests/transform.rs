//! End-to-end scenarios for the coin-store transformation.

use coin_balances::Timestamp;
use coin_balances::events::EventToCoinType;
use coin_balances::payload::PayloadValue;
use coin_balances::records::{CoinBalance, CurrentCoinBalance};
use coin_balances::resource::{DecodeError, MoveType, ResourceType, ResourceWrite};

const COIN_ADDR: &str = "0x0000000000000000000000000000000000000000000000000000000000000001";

fn obj(fields: Vec<(&str, PayloadValue)>) -> PayloadValue {
    PayloadValue::Object(fields.into_iter().map(|(k, v)| (k.to_string(), v)).collect())
}

fn guid(addr: &str, creation_number: &str) -> PayloadValue {
    obj(vec![(
        "guid",
        obj(vec![(
            "id",
            obj(vec![
                ("account_address", PayloadValue::Str(addr.to_string())),
                ("creation_number", PayloadValue::Str(creation_number.to_string())),
            ]),
        )]),
    )])
}

fn coin_store_payload(amount: &str, withdraw_num: &str, deposit_num: &str) -> PayloadValue {
    obj(vec![
        ("coin", obj(vec![("value", PayloadValue::Str(amount.to_string()))])),
        ("frozen", PayloadValue::Bool(false)),
        ("withdraw_events", guid("0x1", withdraw_num)),
        ("deposit_events", guid("0x1", deposit_num)),
    ])
}

fn coin_store_resource(amount: &str) -> ResourceWrite {
    ResourceWrite {
        address: "0x1".to_string(),
        type_tag: Some(ResourceType {
            address: "0x1".to_string(),
            module: "coin".to_string(),
            name: "CoinStore".to_string(),
            generic_type_params: vec![MoveType::Struct {
                address: "0x1".to_string(),
                module: "aptos_coin".to_string(),
                name: "AptosCoin".to_string(),
            }],
        }),
        type_str: None,
        payload: coin_store_payload(amount, "3", "2"),
    }
}

fn ts() -> Timestamp {
    Timestamp { secs: 1_700_000_000, subsec_nanos: 0 }
}

fn unwrap_match(
    r: Result<Option<(CoinBalance, CurrentCoinBalance, EventToCoinType)>, DecodeError>,
) -> (CoinBalance, CurrentCoinBalance, EventToCoinType) {
    r.expect("transform failed").expect("no match")
}

#[test]
fn matched_resource_produces_all_three_outputs() {
    let resource = coin_store_resource("1000000");
    let (cb, ccb, m) = unwrap_match(CoinBalance::from_write_resource(&resource, 42, ts()));
    assert_eq!(cb.amount, "1000000");
    assert_eq!(cb.transaction_version, 42);
    assert_eq!(cb.coin_type, "0x1::aptos_coin::AptosCoin");
    assert_eq!(cb.owner_address, COIN_ADDR);
    assert_eq!(ccb.last_transaction_version, 42);
    assert_eq!(ccb.last_transaction_timestamp, ts());
    assert_eq!(m.entries.len(), 2);
    assert_eq!(m.entries[0].0, format!("{}-3", COIN_ADDR));
    assert_eq!(m.entries[1].0, format!("{}-2", COIN_ADDR));
    assert_eq!(m.entries[0].1, cb.coin_type);
    assert_eq!(m.entries[1].1, cb.coin_type);
}

#[test]
fn both_records_share_amount_type_and_hash() {
    let resource = coin_store_resource("987654321987654321987654321");
    let (cb, ccb, _) = unwrap_match(CoinBalance::from_write_resource(&resource, 7, ts()));
    assert_eq!(cb.amount, ccb.amount);
    assert_eq!(cb.coin_type, ccb.coin_type);
    assert_eq!(cb.coin_type_hash, ccb.coin_type_hash);
    assert_eq!(cb.owner_address, ccb.owner_address);
    assert_eq!(cb.coin_type_hash.len(), 64);
}

#[test]
fn hash_is_deterministic_across_calls() {
    let r1 = coin_store_resource("1");
    let r2 = coin_store_resource("2");
    let (cb1, _, _) = unwrap_match(CoinBalance::from_write_resource(&r1, 1, ts()));
    let (cb2, _, _) = unwrap_match(CoinBalance::from_write_resource(&r2, 2, ts()));
    assert_eq!(cb1.coin_type_hash, cb2.coin_type_hash);
}

#[test]
fn non_coin_store_resource_is_no_match_not_error() {
    let mut resource = coin_store_resource("5");
    if let Some(tag) = resource.type_tag.as_mut() {
        tag.name = "CoinInfo".to_string();
    }
    let r = CoinBalance::from_write_resource(&resource, 9, ts());
    assert!(matches!(r, Ok(None)));

    let mut other_module = coin_store_resource("5");
    if let Some(tag) = other_module.type_tag.as_mut() {
        tag.module = "token".to_string();
    }
    assert!(matches!(CoinBalance::from_write_resource(&other_module, 9, ts()), Ok(None)));

    let mut no_tag = coin_store_resource("5");
    no_tag.type_tag = None;
    assert!(matches!(CoinBalance::from_write_resource(&no_tag, 9, ts()), Ok(None)));
}

#[test]
fn unstandardized_coin_address_still_matches() {
    let mut resource = coin_store_resource("6");
    if let Some(tag) = resource.type_tag.as_mut() {
        tag.address = COIN_ADDR.to_string();
    }
    let (cb, _, _) = unwrap_match(CoinBalance::from_write_resource(&resource, 3, ts()));
    assert_eq!(cb.amount, "6");
}

#[test]
fn missing_coin_value_is_malformed_payload() {
    let mut resource = coin_store_resource("1");
    resource.payload = obj(vec![
        ("coin", obj(vec![])),
        ("withdraw_events", guid("0x1", "3")),
        ("deposit_events", guid("0x1", "2")),
    ]);
    let r = CoinBalance::from_write_resource(&resource, 42, ts());
    assert!(matches!(r, Err(DecodeError::MalformedPayload { txn_version: 42 })));
}

#[test]
fn non_digit_amount_is_malformed_payload() {
    let mut resource = coin_store_resource("1");
    resource.payload = coin_store_payload("12a4", "3", "2");
    let r = CoinBalance::from_write_resource(&resource, 5, ts());
    assert!(matches!(r, Err(DecodeError::MalformedPayload { txn_version: 5 })));
}

#[test]
fn oversized_creation_number_is_malformed_payload() {
    let mut resource = coin_store_resource("1");
    resource.payload = coin_store_payload("1", "18446744073709551616", "2");
    let r = CoinBalance::from_write_resource(&resource, 6, ts());
    assert!(matches!(r, Err(DecodeError::MalformedPayload { txn_version: 6 })));
}

#[test]
fn largest_creation_number_is_accepted() {
    let mut resource = coin_store_resource("1");
    resource.payload = coin_store_payload("1", "18446744073709551615", "2");
    let (_, _, m) = unwrap_match(CoinBalance::from_write_resource(&resource, 6, ts()));
    assert_eq!(m.entries[0].0, format!("{}-18446744073709551615", COIN_ADDR));
}

#[test]
fn non_struct_type_param_is_type_resolution_failure() {
    let mut resource = coin_store_resource("1");
    if let Some(tag) = resource.type_tag.as_mut() {
        tag.generic_type_params = vec![MoveType::Other("u64".to_string())];
    }
    let r = CoinBalance::from_write_resource(&resource, 11, ts());
    assert!(matches!(r, Err(DecodeError::TypeResolutionFailure { txn_version: 11 })));
}

#[test]
fn missing_type_param_is_type_resolution_failure() {
    let mut resource = coin_store_resource("1");
    if let Some(tag) = resource.type_tag.as_mut() {
        tag.generic_type_params = vec![];
    }
    let r = CoinBalance::from_write_resource(&resource, 12, ts());
    assert!(matches!(r, Err(DecodeError::TypeResolutionFailure { txn_version: 12 })));
}

#[test]
fn raw_type_descriptor_overrides_formatted_parameter() {
    let mut resource = coin_store_resource("1");
    resource.type_str = Some("0x1::aptos_coin::AptosCoin<X>".to_string());
    let (cb, _, _) = unwrap_match(CoinBalance::from_write_resource(&resource, 1, ts()));
    assert_eq!(cb.coin_type, "0x1::aptos_coin::AptosCoin<X>");
}

#[test]
fn coinciding_streams_collapse_to_one_entry() {
    let mut resource = coin_store_resource("1");
    resource.payload = coin_store_payload("1", "4", "4");
    let (cb, _, m) = unwrap_match(CoinBalance::from_write_resource(&resource, 1, ts()));
    assert_eq!(m.entries.len(), 1);
    assert_eq!(m.entries[0].0, format!("{}-4", COIN_ADDR));
    assert_eq!(m.entries[0].1, cb.coin_type);
}

#[test]
fn payload_extra_fields_and_order_are_ignored() {
    let mut resource = coin_store_resource("1");
    resource.payload = obj(vec![
        ("deposit_events", guid("0x2", "9")),
        ("zzz", PayloadValue::Null),
        ("withdraw_events", guid("0x3", "8")),
        ("coin", obj(vec![("extra", PayloadValue::Null), ("value", PayloadValue::Str("77".to_string()))])),
    ]);
    let (cb, _, m) = unwrap_match(CoinBalance::from_write_resource(&resource, 1, ts()));
    assert_eq!(cb.amount, "77");
    assert_eq!(m.entries.len(), 2);
    assert!(m.entries[0].0.starts_with("0x000"));
    assert!(m.entries[0].0.ends_with("3-8"));
    assert!(m.entries[1].0.ends_with("2-9"));
}
