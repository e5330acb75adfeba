//! The library's error type.
use crate::decimal::Decimal;
use vstd::prelude::*;

verus! {

#[verifier::external_type_specification]
#[verifier::external_body]
pub struct ExStdError(cosmwasm_std::StdError);

/// Relies on `cosmwasm_std::StdError::generic_err`: a generic error carrying
/// the message.
#[verifier::external_body]
pub(crate) fn generic_error(msg: &str) -> (r: cosmwasm_std::StdError) {
    cosmwasm_std::StdError::generic_err(msg)
}

/// Relies on `cosmwasm_std::StdError::parse_err`: a parse error naming the
/// target type, carrying the message.
#[verifier::external_body]
pub(crate) fn parse_error(target: &str, msg: &str) -> (r: cosmwasm_std::StdError) {
    cosmwasm_std::StdError::parse_err(target, msg)
}

#[derive(Debug, PartialEq)]
pub enum ContractError {
    Std(cosmwasm_std::StdError),
    Unauthorized {},
    SemVer(String),
    InsufficientFundsSend {},
    UnexpectedError {},
    InsufficientCollateral {},
    PrematureLiquidation {},
    DuplicatedLiquidation {},
    FailedLiquidation {},
    FailedToSerialize { err_msg: String },
    FailedToBinary { err_msg: String },
    FailedToGetEquityAndTotalMarketValue { err_msg: String },
    FailedToGetInsuranceFund {},
    FailedToGetOrder { order_id: String },
    FailedToFetchBalances { err_msg: String },
    InsufficientBalance {},
    InsufficientBalanceForFundingPayment {},
    InvalidCoinType {},
    InvalidPositionEffect {},
    InvalidPositionDirection {},
    Invalidcw20token {},
    InvalidOrderData {},
    InsufficientOpenPositionToClose { intended_close_amount: Decimal, can_be_closed: Decimal },
    InvalidDenom { unsupported_denom: String },
    TwapNotExist {},
    OrderNotFound {},
    UnwhitelistedUser {},
    InsufficientLiquidity {},
}

} // verus!
