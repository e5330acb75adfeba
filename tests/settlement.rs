use vortex_common::decimal::Decimal;
use vortex_common::msg::SettlementEntry;
use vortex_common::settlement::apply_settlement_entries;
use vortex_common::types::{Order, OrderType, PositionDirection, PositionEffect};
use vortex_common::utils::SignedDecimal;

const UNIT: u128 = 1_000_000_000_000_000_000;

fn order(id: u64, quantity: u128) -> Order {
    let q = SignedDecimal::new(Decimal::raw(quantity * UNIT));
    Order {
        id,
        account: "acct".to_string(),
        price_denom: "usdc".to_string(),
        asset_denom: "eth".to_string(),
        price: SignedDecimal::new(Decimal::raw(UNIT)),
        quantity: q,
        remaining_quantity: q,
        direction: PositionDirection::Long,
        effect: PositionEffect::Open,
        leverage: SignedDecimal::one(),
        order_type: OrderType::Limit,
    }
}

fn entry(order_id: u64, quantity: u128) -> SettlementEntry {
    SettlementEntry {
        account: "acct".to_string(),
        price_denom: "usdc".to_string(),
        asset_denom: "eth".to_string(),
        quantity: Decimal::raw(quantity * UNIT),
        execution_cost_or_proceed: Decimal::zero(),
        expected_cost_or_proceed: Decimal::zero(),
        position_direction: PositionDirection::Long,
        order_type: OrderType::Limit,
        order_id,
    }
}

#[test]
fn missing_order_is_reported_and_others_apply() {
    let mut orders = vec![order(1, 5), order(2, 3)];
    let entries = vec![entry(1, 2), entry(99, 1), entry(2, 3)];
    let failed = apply_settlement_entries(&mut orders, &entries);
    assert_eq!(failed.len(), 1);
    assert_eq!(failed[0].id, 99);
    assert_eq!(failed[0].reason, "Order not found");
    assert_eq!(orders[0].remaining_quantity.decimal, Decimal::raw(3 * UNIT));
    assert!(orders[1].remaining_quantity.is_zero());
    assert_eq!(orders[0].quantity.decimal, Decimal::raw(5 * UNIT));
}

#[test]
fn overfill_is_reported_and_changes_nothing() {
    let mut orders = vec![order(1, 5)];
    let entries = vec![entry(1, 6), entry(1, 5)];
    let failed = apply_settlement_entries(&mut orders, &entries);
    assert_eq!(failed.len(), 1);
    assert_eq!(failed[0].id, 1);
    assert!(orders[0].remaining_quantity.is_zero());
}

#[test]
fn empty_batch_changes_nothing() {
    let mut orders = vec![order(4, 2)];
    let failed = apply_settlement_entries(&mut orders, &Vec::new());
    assert!(failed.is_empty());
    assert_eq!(orders[0].remaining_quantity.decimal, Decimal::raw(2 * UNIT));
}
