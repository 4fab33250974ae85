use vstd::prelude::*;

use std::collections::HashMap;

verus! {

/// Trading hours by market, then by product.
pub type Markets = HashMap<String, HashMap<String, Hours>>;

/// Trading hours of one product on one date.
#[derive(Debug, Clone, PartialEq, Eq)]
pub struct Hours {
    pub date: String,
    pub market_type: MarketType,
    pub exchange: Option<String>,
    pub category: Option<String>,
    pub product: String,
    pub product_name: String,
    pub is_open: bool,
    /// Sessions of the day (pre-market, regular, post-market) by name.
    pub session_hours: HashMap<String, Vec<Interval>>,
}

impl Default for Hours {
    fn default() -> (r: Hours)
        ensures
            r.date@.len() == 0,
            r.market_type == MarketType::Unknown,
            r.exchange is None,
            r.category is None,
            r.product@.len() == 0,
            r.product_name@.len() == 0,
            !r.is_open,
            r.session_hours@.len() == 0,
    {
        Hours {
            date: String::new(),
            market_type: MarketType::Unknown,
            exchange: None,
            category: None,
            product: String::new(),
            product_name: String::new(),
            is_open: false,
            session_hours: HashMap::new(),
        }
    }
}

/// One session, as instants in milliseconds since the Unix epoch (UTC).
#[derive(Debug, Clone, Copy, PartialEq, Eq, Structural)]
pub struct Interval {
    pub start: i64,
    pub end: i64,
}

impl Default for Interval {
    fn default() -> (r: Interval)
        ensures
            r.start == 0,
            r.end == 0,
    {
        Interval { start: 0, end: 0 }
    }
}

/// Market a trading-hours record belongs to.
#[derive(Debug, Clone, Copy, PartialEq, Eq, Structural)]
pub enum MarketType {
    Bond,
    Equity,
    Etf,
    Extended,
    Forex,
    Future,
    FutureOption,
    Fundamental,
    Index,
    Indicator,
    MutualFund,
    Option,
    Unknown,
}

impl Default for MarketType {
    fn default() -> (r: MarketType)
        ensures
            r == MarketType::Unknown,
    {
        MarketType::Unknown
    }
}

} // verus!
