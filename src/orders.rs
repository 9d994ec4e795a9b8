//! The enumerated arguments of trading and reporting end-points, each with the
//! exact text that the exchange expects for it.

use vstd::prelude::*;

verus! {

/// When submitting a trade instruction: are we buying or selling?
#[derive(PartialEq, Eq, Structural, Clone, Copy, Debug)]
pub enum Instruction {
    /// We are buying.
    BUY,
    /// We are selling.
    SELL,
}

/// The text that the exchange expects for an instruction.
pub open spec fn instruction_text(i: Instruction) -> Seq<char> {
    match i {
        Instruction::BUY => "buy"@,
        Instruction::SELL => "sell"@,
    }
}

impl Instruction {
    /// The exact text that the exchange expects for this instruction.
    pub fn as_kraken_string(&self) -> (r: &'static str)
        ensures
            r@ == instruction_text(*self),
    {
        match self {
            Instruction::BUY => "buy",
            Instruction::SELL => "sell",
        }
    }
}

/// The kind of order to place.
#[derive(PartialEq, Eq, Structural, Clone, Copy, Debug)]
pub enum Order_Type {
    /// Executed as soon as possible at the market price.
    MARKET,
    /// Executed when the price is below the limit when buying, above it when selling.
    LIMIT,
    /// Executed when the price is above the order when buying, below it when selling.
    STOP_LOSS,
    /// Executed when the price is below the order when buying, above it when selling.
    TAKE_PROFIT,
    /// A stop-loss and take-profit order.
    STOP_LOSS_PROFIT,
    /// A stop-loss and take-profit order with a limit.
    STOP_LOSS_PROFIT_LIMIT,
    /// A stop-loss order with a limit price.
    STOP_LOSS_LIMIT,
    /// A take-profit order with a limit price.
    TAKE_PROFIT_LIMIT,
    /// A trailing stop order.
    TRAILING_STOP,
    /// A trailing stop order with a limit price.
    TRAILING_STOP_LIMIT,
    /// A stop-loss order and a limit order.
    STOP_LOSS_AND_LIMIT,
    /// Settles a margin position.
    SETTLE_POSITION,
}

/// The text that the exchange expects for an order type.
pub open spec fn order_type_text(t: Order_Type) -> Seq<char> {
    match t {
        Order_Type::MARKET => "market"@,
        Order_Type::LIMIT => "limit"@,
        Order_Type::STOP_LOSS => "stop-loss"@,
        Order_Type::TAKE_PROFIT => "take-profit"@,
        Order_Type::STOP_LOSS_PROFIT => "stop-loss-profit"@,
        Order_Type::STOP_LOSS_PROFIT_LIMIT => "stop-loss-profit-limit"@,
        Order_Type::STOP_LOSS_LIMIT => "stop-loss-limit"@,
        Order_Type::TAKE_PROFIT_LIMIT => "take-profit-limit"@,
        Order_Type::TRAILING_STOP => "trailing-stop"@,
        Order_Type::TRAILING_STOP_LIMIT => "trailing-stop-limit"@,
        Order_Type::STOP_LOSS_AND_LIMIT => "stop-loss-and-limit"@,
        Order_Type::SETTLE_POSITION => "settle-position"@,
    }
}

impl Order_Type {
    /// The order type precisely as the exchange names it.
    pub fn as_kraken_string(&self) -> (r: &'static str)
        ensures
            r@ == order_type_text(*self),
    {
        match self {
            Order_Type::MARKET => "market",
            Order_Type::LIMIT => "limit",
            Order_Type::STOP_LOSS => "stop-loss",
            Order_Type::TAKE_PROFIT => "take-profit",
            Order_Type::STOP_LOSS_PROFIT => "stop-loss-profit",
            Order_Type::STOP_LOSS_PROFIT_LIMIT => "stop-loss-profit-limit",
            Order_Type::STOP_LOSS_LIMIT => "stop-loss-limit",
            Order_Type::TAKE_PROFIT_LIMIT => "take-profit-limit",
            Order_Type::TRAILING_STOP => "trailing-stop",
            Order_Type::TRAILING_STOP_LIMIT => "trailing-stop-limit",
            Order_Type::STOP_LOSS_AND_LIMIT => "stop-loss-and-limit",
            Order_Type::SETTLE_POSITION => "settle-position",
        }
    }
}

/// The kind of data that a bulk export report holds.
#[derive(PartialEq, Eq, Structural, Clone, Copy, Debug)]
pub enum Report_Type {
    /// Trades.
    TRADES,
    /// Ledgers.
    LEDGERS,
}

/// The text that the exchange expects for a report type.
pub open spec fn report_type_text(t: Report_Type) -> Seq<char> {
    match t {
        Report_Type::TRADES => "trades"@,
        Report_Type::LEDGERS => "ledgers"@,
    }
}

impl Report_Type {
    /// The exact text that the exchange expects for this report type.
    pub fn as_kraken_string(&self) -> (r: &'static str)
        ensures
            r@ == report_type_text(*self),
    {
        match self {
            Report_Type::TRADES => "trades",
            Report_Type::LEDGERS => "ledgers",
        }
    }
}

} // verus!
