//! Client core for the Fubon Neo streaming market-data protocol.
//!
//! The library holds the decisions of the client: which handshake to send,
//! how the authentication state moves, when the liveness monitor gives up,
//! which subscriptions a throughput mode refuses, and to which handlers an
//! event goes in which order. Sockets, timers and tasks are the caller's.

use vstd::prelude::*;

pub mod constants;
pub mod error;
pub mod market_data;
pub mod sdk;
pub mod text;
pub mod types;

pub use error::Error;
pub use market_data::{MarketData, Mode, RestClient, WebSocketClient};
pub use types::{
    BSAction,
    CallPut,
    ConditionMarketType,
    ConditionOrderType,
    ConditionPriceType,
    ConditionStatus,
    Direction,
    FutOptMarketType,
    FutOptOrderType,
    FutOptPriceType,
    HistoryStatus,
    LoginCredentials,
    MarketType,
    Operator,
    OrderType,
    PriceType,
    StopSign,
    TimeInForce,
    TradingType,
    TriggerContent,
};

verus! {

/// Library version.
pub const VERSION: &'static str = "2.2.3";

/// Get library version
pub fn version() -> (v: &'static str)
    ensures
        v@ == VERSION@,
{
    VERSION
}

} // verus!
