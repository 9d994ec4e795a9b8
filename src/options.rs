//! The closed set of optional arguments that end-points accept, and the exact
//! parameter name under which each travels on the wire.

use vstd::prelude::*;

verus! {

/// The optional arguments that some end-points accept. Values are always given
/// as text; each variant's comment says how the exchange reads it.
#[derive(PartialEq, Eq, Structural, Clone, Copy, Debug)]
pub enum API_Option {
    /// Information to be retrieved: "info", "leverage", "fees" or "margin".
    INFO,
    /// Asset class; "currency" is the one value known to be valid.
    ACLASS,
    /// An asset such as "usd", a comma-delimited list of them, or "all".
    ASSET,
    /// Whether to include trades (a boolean as text).
    TRADES,
    /// Restrict results to a user reference ID.
    USERREF,
    /// UNIX timestamp or transaction ID at which results start.
    START,
    /// UNIX timestamp or transaction ID at which results end.
    END,
    /// Offset into the full list of results, for pagination.
    OFS,
    /// Which time stamp to filter on: "open", "close" or "both".
    CLOSE_TIME,
    /// Whether to do profit and loss calculations.
    DO_CALCS,
    /// A trading pair such as "XETCXETH", or a comma-separated list of them.
    PAIR,
    /// Whether to include fee information.
    FEE_INFO,
    /// Comma-delimited order flags: "post", "fcib", "fciq", "nompp".
    OFLAGS,
    /// UNIX timestamp of the start of a report.
    START_TIME,
    /// UNIX timestamp of the end of a report.
    END_TIME,
    /// Report format: "CSV" or "TSV".
    FORMAT,
    /// Comma-delimited list of fields to include in a report.
    FIELDS,
    /// Expiration time: "+<N>" seconds from now, or a UNIX timestamp.
    EXPIRE_TIME,
    /// Validate the order without submitting it.
    VALIDATE,
    /// RFC3339 time after which a new order is to be rejected.
    DEADLINE,
    /// The order type, as given by `Order_Type::as_kraken_string`.
    ORDER_TYPE,
    /// Type of trades, direction of an order, or kind of report removal.
    TYPE,
    /// Order type of a conditional close order.
    CLOSE_TYPE,
    /// Price of a conditional close order.
    CLOSE_PRICE_1,
    /// Second price of a conditional close order.
    CLOSE_PRICE_2,
    /// Limit price for limit orders, trigger price for the other types.
    PRICE,
    /// Limit price for stop-loss-limit and take-profit-limit orders.
    PRICE_2,
    /// Price signal that triggers an order: "index" or "last".
    TRIGGER,
    /// Amount of leverage desired.
    LEVERAGE,
    /// Time in force: "GTC", "IOC" or "GTD".
    TIME_IN_FORCE,
    /// Order quantity in terms of the base asset.
    VOLUME,
    /// Time frame interval in minutes.
    INTERVAL,
    /// Time interval in seconds.
    TIMEOUT,
    /// Return data points since the given UNIX timestamp.
    SINCE,
    /// The maximum number of data to return.
    COUNT,
    /// One or more transaction IDs, or user reference IDs.
    TXID,
    /// Market over which to consolidate open margin positions.
    CONSOLIDATION,
    /// Comma-delimited list of ledger or report IDs.
    ID,
    /// Use pending replace before complete replace.
    CANCEL_RESPONSE,
    /// Kind of a data export report.
    REPORT,
    /// Description of a data export report.
    DESCRIPTION,
}

/// The parameter name that the exchange expects for an option.
pub open spec fn wire_name(o: API_Option) -> Seq<char> {
    match o {
        API_Option::INFO => "info"@,
        API_Option::ACLASS => "aclass"@,
        API_Option::ASSET => "asset"@,
        API_Option::TRADES => "trades"@,
        API_Option::USERREF => "userref"@,
        API_Option::START => "start"@,
        API_Option::END => "end"@,
        API_Option::OFS => "ofs"@,
        API_Option::CLOSE_TIME => "closetime"@,
        API_Option::DO_CALCS => "docalcs"@,
        API_Option::PAIR => "pair"@,
        API_Option::FEE_INFO => "fee-info"@,
        API_Option::OFLAGS => "oflags"@,
        API_Option::START_TIME => "starttm"@,
        API_Option::END_TIME => "endtm"@,
        API_Option::FORMAT => "format"@,
        API_Option::FIELDS => "fields"@,
        API_Option::EXPIRE_TIME => "expiretm"@,
        API_Option::VALIDATE => "validate"@,
        API_Option::DEADLINE => "deadline"@,
        API_Option::ORDER_TYPE => "ordertype"@,
        API_Option::TYPE => "type"@,
        API_Option::CLOSE_TYPE => "close[ordertype]"@,
        API_Option::CLOSE_PRICE_1 => "close[price]"@,
        API_Option::CLOSE_PRICE_2 => "close[price2]"@,
        API_Option::PRICE => "price"@,
        API_Option::PRICE_2 => "price2"@,
        API_Option::TRIGGER => "trigger"@,
        API_Option::LEVERAGE => "leverage"@,
        API_Option::TIME_IN_FORCE => "timeinforce"@,
        API_Option::VOLUME => "volume"@,
        API_Option::INTERVAL => "interval"@,
        API_Option::TIMEOUT => "timeout"@,
        API_Option::SINCE => "since"@,
        API_Option::COUNT => "count"@,
        API_Option::TXID => "txid"@,
        API_Option::CONSOLIDATION => "consolidation"@,
        API_Option::ID => "id"@,
        API_Option::CANCEL_RESPONSE => "cancel_response"@,
        API_Option::REPORT => "report"@,
        API_Option::DESCRIPTION => "description"@,
    }
}

/// The key under which an option is kept in a registry.
#[verifier::opaque]
pub open spec fn option_code(o: API_Option) -> u64 {
    match o {
        API_Option::INFO => 0,
        API_Option::ACLASS => 1,
        API_Option::ASSET => 2,
        API_Option::TRADES => 3,
        API_Option::USERREF => 4,
        API_Option::START => 5,
        API_Option::END => 6,
        API_Option::OFS => 7,
        API_Option::CLOSE_TIME => 8,
        API_Option::DO_CALCS => 9,
        API_Option::PAIR => 10,
        API_Option::FEE_INFO => 11,
        API_Option::OFLAGS => 12,
        API_Option::START_TIME => 13,
        API_Option::END_TIME => 14,
        API_Option::FORMAT => 15,
        API_Option::FIELDS => 16,
        API_Option::EXPIRE_TIME => 17,
        API_Option::VALIDATE => 18,
        API_Option::DEADLINE => 19,
        API_Option::ORDER_TYPE => 20,
        API_Option::TYPE => 21,
        API_Option::CLOSE_TYPE => 22,
        API_Option::CLOSE_PRICE_1 => 23,
        API_Option::CLOSE_PRICE_2 => 24,
        API_Option::PRICE => 25,
        API_Option::PRICE_2 => 26,
        API_Option::TRIGGER => 27,
        API_Option::LEVERAGE => 28,
        API_Option::TIME_IN_FORCE => 29,
        API_Option::VOLUME => 30,
        API_Option::INTERVAL => 31,
        API_Option::TIMEOUT => 32,
        API_Option::SINCE => 33,
        API_Option::COUNT => 34,
        API_Option::TXID => 35,
        API_Option::CONSOLIDATION => 36,
        API_Option::ID => 37,
        API_Option::CANCEL_RESPONSE => 38,
        API_Option::REPORT => 39,
        API_Option::DESCRIPTION => 40,
    }
}

/// Distinct options are kept under distinct keys.
pub proof fn lemma_option_code_injective(a: API_Option, b: API_Option)
    ensures
        option_code(a) == option_code(b) ==> a == b,
{
    reveal(option_code);
}

impl API_Option {
    /// The exact parameter name that the exchange expects for this option.
    pub fn wire_name(&self) -> (r: &'static str)
        ensures
            r@ == wire_name(*self),
    {
        match self {
            API_Option::INFO => "info",
            API_Option::ACLASS => "aclass",
            API_Option::ASSET => "asset",
            API_Option::TRADES => "trades",
            API_Option::USERREF => "userref",
            API_Option::START => "start",
            API_Option::END => "end",
            API_Option::OFS => "ofs",
            API_Option::CLOSE_TIME => "closetime",
            API_Option::DO_CALCS => "docalcs",
            API_Option::PAIR => "pair",
            API_Option::FEE_INFO => "fee-info",
            API_Option::OFLAGS => "oflags",
            API_Option::START_TIME => "starttm",
            API_Option::END_TIME => "endtm",
            API_Option::FORMAT => "format",
            API_Option::FIELDS => "fields",
            API_Option::EXPIRE_TIME => "expiretm",
            API_Option::VALIDATE => "validate",
            API_Option::DEADLINE => "deadline",
            API_Option::ORDER_TYPE => "ordertype",
            API_Option::TYPE => "type",
            API_Option::CLOSE_TYPE => "close[ordertype]",
            API_Option::CLOSE_PRICE_1 => "close[price]",
            API_Option::CLOSE_PRICE_2 => "close[price2]",
            API_Option::PRICE => "price",
            API_Option::PRICE_2 => "price2",
            API_Option::TRIGGER => "trigger",
            API_Option::LEVERAGE => "leverage",
            API_Option::TIME_IN_FORCE => "timeinforce",
            API_Option::VOLUME => "volume",
            API_Option::INTERVAL => "interval",
            API_Option::TIMEOUT => "timeout",
            API_Option::SINCE => "since",
            API_Option::COUNT => "count",
            API_Option::TXID => "txid",
            API_Option::CONSOLIDATION => "consolidation",
            API_Option::ID => "id",
            API_Option::CANCEL_RESPONSE => "cancel_response",
            API_Option::REPORT => "report",
            API_Option::DESCRIPTION => "description",
        }
    }

    /// The key under which this option is kept in a registry.
    pub fn code(&self) -> (r: u64)
        ensures
            r == option_code(*self),
    {
        proof {
            reveal(option_code);
        }
        match self {
            API_Option::INFO => 0,
            API_Option::ACLASS => 1,
            API_Option::ASSET => 2,
            API_Option::TRADES => 3,
            API_Option::USERREF => 4,
            API_Option::START => 5,
            API_Option::END => 6,
            API_Option::OFS => 7,
            API_Option::CLOSE_TIME => 8,
            API_Option::DO_CALCS => 9,
            API_Option::PAIR => 10,
            API_Option::FEE_INFO => 11,
            API_Option::OFLAGS => 12,
            API_Option::START_TIME => 13,
            API_Option::END_TIME => 14,
            API_Option::FORMAT => 15,
            API_Option::FIELDS => 16,
            API_Option::EXPIRE_TIME => 17,
            API_Option::VALIDATE => 18,
            API_Option::DEADLINE => 19,
            API_Option::ORDER_TYPE => 20,
            API_Option::TYPE => 21,
            API_Option::CLOSE_TYPE => 22,
            API_Option::CLOSE_PRICE_1 => 23,
            API_Option::CLOSE_PRICE_2 => 24,
            API_Option::PRICE => 25,
            API_Option::PRICE_2 => 26,
            API_Option::TRIGGER => 27,
            API_Option::LEVERAGE => 28,
            API_Option::TIME_IN_FORCE => 29,
            API_Option::VOLUME => 30,
            API_Option::INTERVAL => 31,
            API_Option::TIMEOUT => 32,
            API_Option::SINCE => 33,
            API_Option::COUNT => 34,
            API_Option::TXID => 35,
            API_Option::CONSOLIDATION => 36,
            API_Option::ID => 37,
            API_Option::CANCEL_RESPONSE => 38,
            API_Option::REPORT => 39,
            API_Option::DESCRIPTION => 40,
        }
    }
}

} // verus!
