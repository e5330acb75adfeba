//! Core value types of a leveraged perpetual-futures engine: a fixed-point
//! decimal, a signed decimal built on it, the trading-pair key codec and the
//! order/position data model.

pub mod decimal;
pub mod error;
pub mod msg;
pub mod settlement;
pub mod types;
pub mod utils;
