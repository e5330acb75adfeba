use vortex_common::decimal::Decimal;
use vortex_common::error::ContractError;
use vortex_common::msg::{OrderData, OrderPlacement};
use vortex_common::types::{
    direction_to_i32, i32_to_direction, i32_to_order_type, opposite_direction, order_type_to_i32,
    OrderType, Pair, PositionDirection, PositionEffect,
};
use vortex_common::utils::validate_migration;

fn pair(p: &str, a: &str) -> Pair {
    Pair { price_denom: p.to_string(), asset_denom: a.to_string() }
}

#[test]
fn pair_key_layout() {
    let key = pair("usdc", "eth").to_bytes();
    assert_eq!(key, [b'u', b's', b'd', b'c', 0, 0, 0, 0, b'e', b't', b'h', 0, 0, 0, 0, 0]);
}

#[test]
fn pair_key_round_trip() {
    let p = pair("usdc", "eth");
    let back = Pair::from_vec(p.to_bytes().to_vec()).unwrap();
    assert_eq!(back, p);
    let full = pair("abcdefgh", "12345678");
    assert_eq!(Pair::from_vec(full.to_bytes().to_vec()).unwrap(), full);
    let empty = pair("", "");
    assert_eq!(Pair::from_vec(empty.to_bytes().to_vec()).unwrap(), empty);
}

#[test]
fn pair_key_truncates_long_denoms() {
    let key = pair("abcdefghij", "x").to_bytes();
    assert_eq!(&key[0..8], b"abcdefgh");
    assert_eq!(Pair::from_vec(key.to_vec()).unwrap(), pair("abcdefgh", "x"));
}

#[test]
fn pair_key_wrong_length_fails() {
    assert!(Pair::from_vec(vec![0u8; 15]).is_err());
    assert!(Pair::from_vec(vec![]).is_err());
    let mut bad = vec![0u8; 16];
    bad[0] = 0xff;
    assert!(Pair::from_vec(bad).is_err());
}

#[test]
fn pair_keys_group_by_price_denom() {
    let k1 = pair("usdc", "atom").to_bytes();
    let k2 = pair("usdc", "eth").to_bytes();
    assert_eq!(k1[0..8], k2[0..8]);
    assert!(k1 < k2);
    assert!(pair("usdc", "ethx").to_bytes() > k2);
}

#[test]
fn fill_bytes_writes_prefix() {
    let p = pair("usdc", "eth");
    let mut buf = [9u8; 6];
    p.fill_bytes_from_price_denom(&mut buf);
    assert_eq!(buf, [b'u', b's', b'd', b'c', 9, 9]);
    let mut small = [0u8; 2];
    p.fill_bytes_from_asset_denom(&mut small);
    assert_eq!(small, [b'e', b't']);
}

#[test]
fn order_type_codes() {
    for t in [OrderType::Limit, OrderType::Market, OrderType::Liquidation, OrderType::FokMarket] {
        assert_eq!(i32_to_order_type(order_type_to_i32(t)), t);
    }
    assert_eq!(order_type_to_i32(OrderType::Unknown), -1);
    assert_eq!(order_type_to_i32(OrderType::FokMarket), 3);
    for i in [-1, 4, 100, i32::MIN, i32::MAX] {
        assert_eq!(i32_to_order_type(i), OrderType::Unknown);
    }
}

#[test]
fn direction_codes() {
    assert_eq!(i32_to_direction(0), PositionDirection::Long);
    assert_eq!(i32_to_direction(1), PositionDirection::Short);
    assert_eq!(i32_to_direction(2), PositionDirection::Unknown);
    assert_eq!(direction_to_i32(PositionDirection::Short), 1);
    assert_eq!(direction_to_i32(PositionDirection::Unknown), -1);
    assert_eq!(opposite_direction(PositionDirection::Long), PositionDirection::Short);
    assert_eq!(opposite_direction(PositionDirection::Short), PositionDirection::Long);
    assert_eq!(opposite_direction(PositionDirection::Unknown), PositionDirection::Unknown);
}

fn placement() -> OrderPlacement {
    OrderPlacement {
        id: 7,
        status: 0,
        account: "acct".to_string(),
        contract_address: "contract".to_string(),
        price_denom: "usdc".to_string(),
        asset_denom: "eth".to_string(),
        price: Decimal::raw(2_000_000_000_000_000_000),
        quantity: Decimal::raw(5_000_000_000_000_000_000),
        order_type: 1,
        position_direction: 1,
        data: "not json".to_string(),
        status_description: String::new(),
    }
}

#[test]
fn to_order_rejects_invalid_data() {
    let r = placement().to_order(None);
    assert!(matches!(r, Err(ContractError::InvalidOrderData {})));
}

#[test]
fn to_order_builds_order() {
    let data = OrderData { leverage: Decimal::raw(10_000_000_000_000_000_000), position_effect: PositionEffect::Open };
    let o = placement().to_order(Some(data)).unwrap();
    assert_eq!(o.id, 7);
    assert_eq!(o.account, "acct");
    assert_eq!(o.price_denom, "usdc");
    assert_eq!(o.asset_denom, "eth");
    assert_eq!(o.price.decimal, Decimal::raw(2_000_000_000_000_000_000));
    assert!(!o.quantity.negative);
    assert_eq!(o.remaining_quantity.decimal, o.quantity.decimal);
    assert_eq!(o.direction, PositionDirection::Short);
    assert_eq!(o.order_type, OrderType::Market);
    assert_eq!(o.effect, PositionEffect::Open);
    assert_eq!(o.leverage.decimal, Decimal::raw(10_000_000_000_000_000_000));
}

#[test]
fn migration_checks() {
    assert!(validate_migration("vortex", "0.1.0", "vortex", "0.2.0").is_ok());
    assert!(matches!(
        validate_migration("other", "0.1.0", "vortex", "0.2.0"),
        Err(ContractError::Std(_))
    ));
    assert!(matches!(
        validate_migration("vortex", "0.3.0", "vortex", "0.2.0"),
        Err(ContractError::Std(_))
    ));
    assert!(matches!(
        validate_migration("vortex", "0.2.0", "vortex", "0.2.0"),
        Err(ContractError::Std(_))
    ));
    assert!(matches!(
        validate_migration("vortex", "not-a-version", "vortex", "0.2.0"),
        Err(ContractError::SemVer(_))
    ));
    assert!(matches!(
        validate_migration("vortex", "0.1.0", "vortex", "x"),
        Err(ContractError::SemVer(_))
    ));
}

#[test]
fn migration_outcome_by_order() {
    assert!(vortex_common::utils::migration_outcome(false).is_ok());
    assert!(matches!(vortex_common::utils::migration_outcome(true), Err(ContractError::Std(_))));
}

#[test]
fn new_checked_refuses_long_denoms() {
    let p = Pair::new_checked("usdc".to_string(), "eth".to_string()).unwrap();
    assert_eq!(p, pair("usdc", "eth"));
    assert!(Pair::new_checked("abcdefgh".to_string(), "12345678".to_string()).is_ok());
    match Pair::new_checked("abcdefghi".to_string(), "eth".to_string()) {
        Err(ContractError::InvalidDenom { unsupported_denom }) => assert_eq!(unsupported_denom, "abcdefghi"),
        _ => panic!("expected InvalidDenom"),
    }
    match Pair::new_checked("usdc".to_string(), "123456789".to_string()) {
        Err(ContractError::InvalidDenom { unsupported_denom }) => assert_eq!(unsupported_denom, "123456789"),
        _ => panic!("expected InvalidDenom"),
    }
}
