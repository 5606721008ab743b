//! Plain trading vocabulary shared with the order-entry side.

use vstd::prelude::*;
use crate::text::clone_optional;

verus! {

/// Time in force for orders
#[derive(Debug, Clone, Copy, PartialEq, Eq, Structural)]
pub enum TimeInForce {
    Day,
    Ioc,
    Fok,
    Gtc,
}

/// Order type
#[derive(Debug, Clone, Copy, PartialEq, Eq, Structural)]
pub enum OrderType {
    Market,
    Limit,
    Stop,
    StopLimit,
}

/// Price type
#[derive(Debug, Clone, Copy, PartialEq, Eq, Structural)]
pub enum PriceType {
    Limit,
    Market,
    MarketOnClose,
    LimitOnClose,
}

/// Market type
#[derive(Debug, Clone, Copy, PartialEq, Eq, Structural)]
pub enum MarketType {
    Stock,
    Future,
    Option,
}

/// Buy/Sell action
#[derive(Debug, Clone, Copy, PartialEq, Eq, Structural)]
pub enum BSAction {
    Buy,
    Sell,
}

/// Future/Option market type
#[derive(Debug, Clone, Copy, PartialEq, Eq, Structural)]
pub enum FutOptMarketType {
    Future,
    Option,
}

/// Future/Option order type
#[derive(Debug, Clone, Copy, PartialEq, Eq, Structural)]
pub enum FutOptOrderType {
    Market,
    Limit,
    Stop,
    StopLimit,
}

/// Future/Option price type
#[derive(Debug, Clone, Copy, PartialEq, Eq, Structural)]
pub enum FutOptPriceType {
    Limit,
    Market,
}

/// Call/Put option type
#[derive(Debug, Clone, Copy, PartialEq, Eq, Structural)]
pub enum CallPut {
    Call,
    Put,
}

/// Trigger content for conditional orders
#[derive(Debug, Clone, Copy, PartialEq, Eq, Structural)]
pub enum TriggerContent {
    Price,
    Volume,
}

/// Trading type
#[derive(Debug, Clone, Copy, PartialEq, Eq, Structural)]
pub enum TradingType {
    Normal,
    DayTrade,
    Margin,
    Short,
}

/// Condition operator
#[derive(Debug, Clone, Copy, PartialEq, Eq, Structural)]
pub enum Operator {
    GreaterThan,
    LessThan,
    GreaterEqual,
    LessEqual,
    Equal,
}

/// Condition order type
#[derive(Debug, Clone, Copy, PartialEq, Eq, Structural)]
pub enum ConditionOrderType {
    Stop,
    StopLimit,
    Oco,
}

/// Condition price type
#[derive(Debug, Clone, Copy, PartialEq, Eq, Structural)]
pub enum ConditionPriceType {
    Limit,
    Market,
}

/// Condition market type
#[derive(Debug, Clone, Copy, PartialEq, Eq, Structural)]
pub enum ConditionMarketType {
    Stock,
    Future,
    Option,
}

/// Stop sign
#[derive(Debug, Clone, Copy, PartialEq, Eq, Structural)]
pub enum StopSign {
    Up,
    Down,
}

/// Direction
#[derive(Debug, Clone, Copy, PartialEq, Eq, Structural)]
pub enum Direction {
    Buy,
    Sell,
}

/// Condition status
#[derive(Debug, Clone, Copy, PartialEq, Eq, Structural)]
pub enum ConditionStatus {
    Pending,
    Triggered,
    Cancelled,
    Expired,
}

/// History status
#[derive(Debug, Clone, Copy, PartialEq, Eq, Structural)]
pub enum HistoryStatus {
    Filled,
    PartiallyFilled,
    Cancelled,
    Rejected,
}

/// Login credentials structure
#[derive(Debug)]
pub struct LoginCredentials {
    /// Personal ID for login
    pub personal_id: String,
    /// Password
    pub password: String,
    /// Certificate path
    pub cert_path: String,
    /// Certificate password (optional)
    pub cert_pass: Option<String>,
}

impl Clone for LoginCredentials {
    fn clone(&self) -> (copy: Self)
        ensures
            copy == *self,
    {
        LoginCredentials {
            personal_id: self.personal_id.clone(),
            password: self.password.clone(),
            cert_path: self.cert_path.clone(),
            cert_pass: clone_optional(&self.cert_pass),
        }
    }
}

} // verus!
