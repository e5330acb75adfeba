//! Request and response shapes exchanged with the engine, and the reading of
//! an order placement into an `Order`.
use crate::decimal::Decimal;
use crate::error::ContractError;
use crate::types::{
    direction_of_code, i32_to_direction, i32_to_order_type, order_type_of_code, MarginRatios,
    Order, OrderType, PositionDirection, PositionEffect,
};
use crate::utils::SignedDecimal;
use vstd::prelude::*;

verus! {

#[verifier::external_type_specification]
#[verifier::external_body]
pub struct ExAddr(cosmwasm_std::Addr);

#[verifier::external_type_specification]
#[verifier::external_body]
pub struct ExCoin(cosmwasm_std::Coin);

#[verifier::external_type_specification]
#[verifier::external_body]
pub struct ExCw20ReceiveMsg(cw20::Cw20ReceiveMsg);

/// Relies on the derived `Clone` of `cosmwasm_std::Addr`; nothing is claimed
/// of the copy.
pub assume_specification[ <cosmwasm_std::Addr as Clone>::clone ](a: &cosmwasm_std::Addr) -> cosmwasm_std::Addr;

/// Relies on the derived `Clone` of `cosmwasm_std::Coin`; nothing is claimed
/// of the copy.
pub assume_specification[ <cosmwasm_std::Coin as Clone>::clone ](c: &cosmwasm_std::Coin) -> cosmwasm_std::Coin;

/// Relies on the derived `Clone` of `cw20::Cw20ReceiveMsg`; nothing is claimed
/// of the copy.
pub assume_specification[ <cw20::Cw20ReceiveMsg as Clone>::clone ](m: &cw20::Cw20ReceiveMsg) -> cw20::Cw20ReceiveMsg;

#[derive(Clone, Debug, PartialEq, Eq, Structural)]
pub struct MigrateMsg {}

#[derive(Clone, Debug)]
pub struct InstantiateMsg {
    pub whitelist: Vec<String>,
    pub denoms: Vec<String>,
    pub supported_collateral_denoms: Vec<String>,
    pub supported_multicollateral_denoms: Vec<String>,
    pub full_denom_mapping: Vec<(String, String, Decimal)>,
    pub oracle_denom_mapping: Vec<(String, String, Decimal)>,
    pub use_whitelist: bool,
    pub multicollateral_whitelist: Vec<cosmwasm_std::Addr>,
    pub multicollateral_whitelist_enable: bool,
    pub admin: String,
    pub limit_order_fee: SignedDecimal,
    pub market_order_fee: SignedDecimal,
    pub liquidation_order_fee: SignedDecimal,
    pub max_leverage: SignedDecimal,
    pub funding_payment_lookback: u64,
    pub native_token: String,
    pub default_base: String,
    pub spot_market_contract: cosmwasm_std::Addr,
    pub funding_payment_pairs: Vec<(String, String)>,
    pub default_margin_ratios: MarginRatios,
}

#[derive(Clone, Debug)]
pub enum ExecuteMsg {
    Receive(cw20::Cw20ReceiveMsg),
    Deposit {},
    Withdraw { coins: Vec<cosmwasm_std::Coin> },
    WithdrawInsuranceFund { coin: cosmwasm_std::Coin },
    SwapMulticollateralToBase { orders: Vec<OrderPlacement> },
    UseWhitelist(bool),
    AddToCW20DenomMapping { address: String, denom: String },
    AddToFullDenomMapping { full_denom: String, internal_denom: String, conversion_rate: Decimal },
    AddToOracleDenomMapping {
        oracle_denom: String,
        internal_denom: String,
        conversion_rate: Decimal,
    },
    AddToWhitelist { converter: String },
    AddToSupportedMultiCollateralDenoms { denom: String },
    AddToFundingPaymentPairs { price_denom: String, asset_denom: String },
    RemoveFromWhitelist { converter: String },
    AddDenom { denom: String },
    RemoveDenom { denom: String },
    UpdateMarginRatio { margin_ratio: MarginRatios },
    UpdateMaxLeverage { max_leverage: SignedDecimal },
    UpdateMarketOrderFee { market_order_fee: SignedDecimal },
    UpdateLimitOrderFee { limit_order_fee: SignedDecimal },
    UpdateLiquidationOrderFee { liquidation_order_fee: SignedDecimal },
    UpdateAdmin { admin: String },
    UpdateFundingPaymentLookback { funding_payment_lookback: u64 },
    UpdateNativeToken { native_token: String },
    UpdateBase { default_base: String },
    UpdateSpotMarketContract { contract_addr: String },
    UpdateMultiCollateralWhitelist { whitelist: Vec<cosmwasm_std::Addr>, whitelist_enable: bool },
    Liquidate { account: cosmwasm_std::Addr, multicollateral_liquidation: bool },
    CreateDenom { denom_name: String },
    MintDenom { denom_name: String, denom_amount: u128 },
}

#[derive(Clone, Debug)]
pub struct DecimalCoin {
    pub denom: String,
    pub amount: Decimal,
}

#[derive(Clone, Debug)]
pub enum SudoMsg {
    Settlement { epoch: i64, entries: Vec<SettlementEntry> },
    NewBlock { epoch: i64 },
    BulkOrderPlacements { orders: Vec<OrderPlacement>, deposits: Vec<DepositInfo> },
    BulkOrderCancellations { ids: Vec<u64> },
    Liquidation { requests: Vec<LiquidationRequest> },
    FinalizeBlock { contract_order_results: Vec<ContractOrderResult> },
}

#[derive(Clone, Debug)]
pub enum QueryMsg {
    GetBalance { account: String, symbol: String },
    GetBalances { account: String },
    GetFundingPaymentRates {
        price_denom: String,
        asset_denom: String,
        start_epoch: i64,
        end_epoch: i64,
    },
    GetOrder { account: String, price_denom: String, asset_denom: String },
    GetPortfolioSpecs { account: String },
    GetInsuranceFundBalance { denom: String },
    GetOrderEstimate { order: Order },
    GetConfig {},
}

#[derive(Clone, Debug)]
pub struct GetBalanceResponse {
    pub amount: SignedDecimal,
}

#[derive(Clone, Debug)]
pub struct GetBalancesResponse {
    pub symbols: Vec<String>,
    pub amounts: Vec<SignedDecimal>,
}

#[derive(Clone, Copy, Debug)]
pub struct GetPositionResponse {
    pub long_position: SignedDecimal,
    pub long_position_margin_debt: SignedDecimal,
    pub long_position_last_funding_payment_epoch: i64,
    pub long_position_pnl: SignedDecimal,
    pub short_position: SignedDecimal,
    pub short_position_margin_debt: SignedDecimal,
    pub short_position_last_funding_payment_epoch: i64,
    pub short_position_pnl: SignedDecimal,
}

#[derive(Clone, Debug)]
pub struct GetPositionsResponse {
    pub positions: Vec<GetPositionResponse>,
}

#[derive(Clone, Copy, Debug)]
pub struct GetPortfolioSpecsResponse {
    pub equity: SignedDecimal,
    pub total_position_value: SignedDecimal,
    pub buying_power: SignedDecimal,
    pub unrealized_pnl: SignedDecimal,
    pub leverage: SignedDecimal,
    pub balance: SignedDecimal,
}

#[derive(Clone, Copy, Debug)]
pub struct GetInsuranceFundBalanceResponse {
    pub balance: SignedDecimal,
}

#[derive(Clone, Debug)]
pub struct GetOrderResponse {
    pub orders: Vec<Order>,
}

/// Funding-payment rates as parallel sequences: price differential, sign,
/// epoch.
#[derive(Clone, Debug)]
pub struct GetFundingPaymentRatesResponse {
    pub price_diffs: Vec<Decimal>,
    pub negatives: Vec<bool>,
    pub epochs: Vec<i64>,
}

#[derive(Clone, Debug)]
pub struct GetOrderEstimateResponse {
    pub order_fee_estimate: SignedDecimal,
    pub deposits_required: cosmwasm_std::Coin,
}

#[derive(Clone, Debug)]
pub struct GetConfigResponse {
    pub admin: String,
    pub whitelist: Vec<cosmwasm_std::Addr>,
    pub use_whitelist: bool,
    pub limit_order_fee: SignedDecimal,
    pub market_order_fee: SignedDecimal,
    pub liquidation_order_fee: SignedDecimal,
    pub default_margin_ratios: MarginRatios,
    pub max_leverage: SignedDecimal,
    pub spot_market_contract: String,
}

#[derive(Clone, Debug)]
pub struct BulkOrderPlacementsResponse {
    pub unsuccessful_orders: Vec<UnsuccessfulOrder>,
}

#[derive(Clone, Debug)]
pub struct UnsuccessfulOrder {
    pub id: u64,
    pub reason: String,
}

#[derive(Clone, Debug)]
pub struct LiquidationResponse {
    pub successful_accounts: Vec<String>,
    pub liquidation_orders: Vec<OrderPlacement>,
}

#[derive(Clone, Debug)]
pub struct SettlementEntry {
    pub account: String,
    pub price_denom: String,
    pub asset_denom: String,
    pub quantity: Decimal,
    pub execution_cost_or_proceed: Decimal,
    pub expected_cost_or_proceed: Decimal,
    pub position_direction: PositionDirection,
    pub order_type: OrderType,
    pub order_id: u64,
}

/// An order as the matching venue hands it over; `data` holds the
/// JSON-encoded `OrderData`.
#[derive(Clone, Debug)]
pub struct OrderPlacement {
    pub id: u64,
    pub status: i32,
    pub account: String,
    pub contract_address: String,
    pub price_denom: String,
    pub asset_denom: String,
    pub price: Decimal,
    pub quantity: Decimal,
    pub order_type: i32,
    pub position_direction: i32,
    pub data: String,
    pub status_description: String,
}

/// What an order placement's `data` field encodes.
#[derive(Clone, Copy, Debug, PartialEq, Eq, Structural)]
pub struct OrderData {
    pub leverage: Decimal,
    pub position_effect: PositionEffect,
}

impl OrderPlacement {
    /// The order that this placement stands for, given what its `data` field
    /// decoded to (`None` when it is not a valid `OrderData`). Price and
    /// quantity become non-negative signed decimals, the remaining quantity
    /// starts at the quantity, and the codes map to direction and order type.
    pub fn to_order(&self, order_data: Option<OrderData>) -> (r: Result<Order, ContractError>)
        ensures
            order_data is None ==> r matches Err(ContractError::InvalidOrderData {  }),
            order_data matches Some(d) ==> (r matches Ok(o) && o.id == self.id && o.account@
                == self.account@ && o.price_denom@ == self.price_denom@ && o.asset_denom@
                == self.asset_denom@ && o.price == (SignedDecimal {
                decimal: self.price,
                negative: false,
            }) && o.quantity == (SignedDecimal { decimal: self.quantity, negative: false })
                && o.remaining_quantity == o.quantity && o.direction == direction_of_code(
                self.position_direction,
            ) && o.order_type == order_type_of_code(self.order_type) && o.effect
                == d.position_effect && o.leverage == (SignedDecimal {
                decimal: d.leverage,
                negative: false,
            })),
    {
        let order_data = match order_data {
            Some(data) => data,
            None => return Err(ContractError::InvalidOrderData {  }),
        };
        let order = Order {
            id: self.id,
            account: self.account.clone(),
            price_denom: self.price_denom.clone(),
            asset_denom: self.asset_denom.clone(),
            price: SignedDecimal::new(self.price),
            quantity: SignedDecimal::new(self.quantity),
            remaining_quantity: SignedDecimal::new(self.quantity),
            direction: i32_to_direction(self.position_direction),
            order_type: i32_to_order_type(self.order_type),
            effect: order_data.position_effect,
            leverage: SignedDecimal::new(order_data.leverage),
        };
        Ok(order)
    }
}

#[derive(Clone, Debug)]
pub struct DepositInfo {
    pub account: String,
    pub denom: String,
    pub amount: Decimal,
}

#[derive(Clone, Debug)]
pub struct LiquidationRequest {
    pub requestor: String,
    pub account: String,
}

#[derive(Clone, Debug)]
pub struct ContractOrderResult {
    pub contract_address: String,
    pub order_placement_results: Vec<OrderPlacementResult>,
    pub order_execution_results: Vec<OrderExecutionResult>,
}

#[derive(Clone, Copy, Debug, PartialEq, Eq, Structural)]
pub struct OrderPlacementResult {
    pub order_id: u64,
    pub status_code: i32,
}

#[derive(Clone, Debug)]
pub struct OrderExecutionResult {
    pub order_id: u64,
    pub execution_price: Decimal,
    pub executed_quantity: Decimal,
    pub total_notional: Decimal,
    pub position_direction: String,
}

} // verus!
