//! Order vocabulary and the payloads the venue's order endpoints accept.

use vstd::prelude::*;
use vstd::string::*;
use crate::text::{upper_of, lower_of, uppercase, lowercase};

verus! {

/// Order direction.
#[derive(Clone, Copy, Debug, PartialEq, Eq, Structural)]
pub enum OrderSide {
    Buy,
    Sell,
}

/// Order kind.
#[derive(Clone, Copy, Debug, PartialEq, Eq, Structural)]
pub enum OrderType {
    Market,
    Limit,
}

/// Hard failures: they abort an operation instead of producing a result.
#[derive(Clone, Debug, PartialEq, Eq)]
pub enum OrderError {
    /// The transport failed; holds the transport's description.
    HttpError(String),
    /// The venue reported an error outside the order result.
    ApiError(String),
    /// The reply body could not be read as JSON.
    InvalidResponse(String),
    /// No session credential has been set.
    AuthRequired,
    /// No contract identifier is cached for the symbol (as the caller gave it).
    ContractNotFound(String),
    /// The venue rejected the order.
    OrderRejected(String),
}

/// A price as the caller supplied it, carried as the IEEE-754 bit pattern of
/// a double. The library never computes with prices; it only passes them on.
#[derive(Clone, Copy, Debug, PartialEq, Eq, Structural)]
pub struct Price {
    pub bits: u64,
}

/// A stop-loss or take-profit order attached to a primary order.
#[derive(Clone, Copy, Debug, PartialEq, Eq, Structural)]
pub struct Bracket {
    /// Distance from the entry, in price ticks.
    pub ticks: i32,
    /// The venue's numeric order kind of the bracket.
    pub kind: u8,
    /// Number of contracts the bracket covers.
    pub size: u32,
    /// Whether the bracket may only reduce the position.
    pub reduce_only: bool,
}

/// The body of a place request.
#[derive(Clone, Debug)]
pub struct OrderPayload {
    pub account_id: u64,
    pub contract_id: i64,
    /// Numeric order kind: 1 for limit, 2 for market.
    pub order_type: u8,
    /// Numeric side: 0 for buy, 1 for sell.
    pub side: u8,
    pub size: u32,
    pub limit_price: Option<Price>,
    pub custom_tag: Option<String>,
    pub stop_loss_bracket: Option<Bracket>,
    pub take_profit_bracket: Option<Bracket>,
}

/// The body of a modify request.
#[derive(Clone, Debug)]
pub struct ModifyPayload {
    pub order_id: String,
    pub price: Option<Price>,
    pub quantity: Option<u32>,
}

/// The body of a cancel request.
#[derive(Clone, Debug)]
pub struct CancelPayload {
    pub order_id: String,
}

/// Numeric kind of a stop-loss bracket.
pub const STOP_LOSS_KIND: u8 = 4;

/// Numeric kind of a take-profit bracket.
pub const TAKE_PROFIT_KIND: u8 = 1;

pub open spec fn buy_word() -> Seq<char> {
    seq!['B', 'U', 'Y']
}

pub open spec fn sell_word() -> Seq<char> {
    seq!['S', 'E', 'L', 'L']
}

pub open spec fn limit_word() -> Seq<char> {
    seq!['l', 'i', 'm', 'i', 't']
}

/// The side a text names: "SELL" in any case is a sell, anything else a buy.
pub open spec fn side_of(s: Seq<char>) -> OrderSide {
    if upper_of(s) == sell_word() {
        OrderSide::Sell
    } else {
        OrderSide::Buy
    }
}

/// A text names a side when it is "BUY" or "SELL" in any case.
pub open spec fn is_side_word(s: Seq<char>) -> bool {
    upper_of(s) == buy_word() || upper_of(s) == sell_word()
}

/// The kind a text names: "limit" in any case is a limit order, anything
/// else a market order.
pub open spec fn order_type_of(s: Seq<char>) -> OrderType {
    if lower_of(s) == limit_word() {
        OrderType::Limit
    } else {
        OrderType::Market
    }
}

pub open spec fn bracket_of(ticks: Option<i32>, kind: u8, size: u32) -> Option<Bracket> {
    match ticks {
        Some(t) => Some(Bracket { ticks: t, kind, size, reduce_only: true }),
        None => None,
    }
}

pub(crate) fn text_is(s: &String, word: &str) -> (r: bool)
    ensures
        r == (s@ == word@),
{
    let w = String::from_str(word);
    *s == w
}

/// The human-readable text of an error.
pub open spec fn error_text(e: OrderError) -> Seq<char> {
    match e {
        OrderError::HttpError(s) => "HTTP request failed: "@ + s@,
        OrderError::ApiError(s) => "API error: "@ + s@,
        OrderError::InvalidResponse(s) => "Failed to parse response: "@ + s@,
        OrderError::AuthRequired => "Authentication token required. Call set_token() first."@,
        OrderError::ContractNotFound(s) => "Contract ID not found for symbol: "@ + s@
            + ". Call set_contract_id() first."@,
        OrderError::OrderRejected(s) => "Order rejected: "@ + s@,
    }
}

impl OrderError {
    /// The human-readable text of the error.
    pub fn to_message(&self) -> (r: String)
        ensures
            r@ == error_text(*self),
    {
        match self {
            OrderError::HttpError(s) => String::from_str("HTTP request failed: ").concat(s.as_str()),
            OrderError::ApiError(s) => String::from_str("API error: ").concat(s.as_str()),
            OrderError::InvalidResponse(s) => String::from_str("Failed to parse response: ").concat(
                s.as_str(),
            ),
            OrderError::AuthRequired => String::from_str(
                "Authentication token required. Call set_token() first.",
            ),
            OrderError::ContractNotFound(s) => String::from_str(
                "Contract ID not found for symbol: ",
            ).concat(s.as_str()).concat(". Call set_contract_id() first."),
            OrderError::OrderRejected(s) => String::from_str("Order rejected: ").concat(s.as_str()),
        }
    }
}

impl OrderSide {
    /// Reads a side from text, case-insensitively; anything but "SELL" is a buy.
    pub fn from_text(s: &str) -> (r: OrderSide)
        ensures
            r == side_of(s@),
    {
        let up = uppercase(s);
        proof {
            reveal_strlit("SELL");
            assert("SELL"@ =~= sell_word());
        }
        if text_is(&up, "SELL") {
            assert(up@ == sell_word());
            OrderSide::Sell
        } else {
            assert(up@ != sell_word());
            OrderSide::Buy
        }
    }

    pub open spec fn spec_code(self) -> u8 {
        match self {
            OrderSide::Buy => 0,
            OrderSide::Sell => 1,
        }
    }

    /// The venue's numeric code for the side.
    pub fn code(&self) -> (r: u8)
        ensures
            r == self.spec_code(),
    {
        match self {
            OrderSide::Buy => 0,
            OrderSide::Sell => 1,
        }
    }
}

impl<'a> From<&'a str> for OrderSide {
    /// Reads a side from text, case-insensitively; anything but "SELL" is a buy.
    fn from(s: &'a str) -> (r: OrderSide) {
        OrderSide::from_text(s)
    }
}

impl<'a> vstd::std_specs::convert::FromSpecImpl<&'a str> for OrderSide {
    open spec fn obeys_from_spec() -> bool {
        true
    }

    open spec fn from_spec(s: &'a str) -> OrderSide {
        side_of(s@)
    }
}

impl OrderType {
    /// Reads an order kind from text, case-insensitively; anything but
    /// "limit" is a market order.
    pub fn from_text(s: &str) -> (r: OrderType)
        ensures
            r == order_type_of(s@),
    {
        let low = lowercase(s);
        proof {
            reveal_strlit("limit");
            assert("limit"@ =~= limit_word());
        }
        if text_is(&low, "limit") {
            assert(low@ == limit_word());
            OrderType::Limit
        } else {
            assert(low@ != limit_word());
            OrderType::Market
        }
    }

    pub open spec fn spec_code(self) -> u8 {
        match self {
            OrderType::Market => 2,
            OrderType::Limit => 1,
        }
    }

    /// The venue's numeric code for the order kind.
    pub fn code(&self) -> (r: u8)
        ensures
            r == self.spec_code(),
    {
        match self {
            OrderType::Market => 2,
            OrderType::Limit => 1,
        }
    }
}

} // verus!
