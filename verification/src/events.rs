//! One record per kind of market data. Every record names its instrument and
//! carries two clocks: the venue's (`exchange_timestamp`, the ordering key)
//! and the ingesting engine's (`engine_timestamp`, for latency only), both in
//! milliseconds since the Unix epoch.
//!
//! Records are plain data. No relation between fields is enforced here: a
//! bid above its ask or a negative quantity is representable.
use vstd::prelude::*;
use crate::binary64::Binary64;
use crate::identity::{ContractType, Exchange, Side, SocketKind, SymbolPair};
use crate::settlement_currency::{QuoteCurrency, SettlementCurrency};

verus! {

/// Top of the book: best bid and best ask.
#[derive(Debug, Clone, PartialEq, Eq)]
pub struct PriceUpdate {
    pub exchange: Exchange,
    pub symbol: SymbolPair,
    pub contract_type: ContractType,
    pub settlement_currency: SettlementCurrency,
    /// Highest price a buyer currently offers.
    pub bid: Binary64,
    /// Lowest price a seller currently asks.
    pub ask: Binary64,
    pub exchange_timestamp: u64,
    pub engine_timestamp: u64,
    pub data_source: String,
}

/// A full order-book snapshot, never a delta. Each level is
/// `[price, quantity]`.
#[derive(Debug, Clone, PartialEq, Eq)]
pub struct DepthSnapshot {
    pub exchange: Exchange,
    pub symbol: SymbolPair,
    pub contract_type: ContractType,
    pub settlement_currency: SettlementCurrency,
    pub bids: Vec<[Binary64; 2]>,
    pub asks: Vec<[Binary64; 2]>,
    pub exchange_timestamp: u64,
    pub engine_timestamp: u64,
    pub data_source: String,
}

/// One forced liquidation as the venue reported it.
#[derive(Debug, Clone, PartialEq, Eq)]
pub struct LiquidationEvent {
    pub exchange: Exchange,
    pub symbol: SymbolPair,
    pub contract_type: ContractType,
    pub settlement_currency: SettlementCurrency,
    /// `Buy`: a short was liquidated. `Sell`: a long was liquidated.
    pub side: Side,
    /// Price at which the forced order executed.
    pub price: Binary64,
    /// Size in normalized base units.
    pub quantity: Binary64,
    /// Size in the venue's own unit, before any normalization.
    pub raw_quantity: Binary64,
    pub exchange_timestamp: u64,
    pub engine_timestamp: u64,
    pub data_source: String,
}

/// Funding rate of a perpetual contract.
#[derive(Debug, Clone, PartialEq, Eq)]
pub struct FundingRateUpdate {
    pub exchange: Exchange,
    pub symbol: SymbolPair,
    pub contract_type: ContractType,
    pub settlement_currency: SettlementCurrency,
    /// Rate as a fraction, not a percentage.
    pub rate: Binary64,
    /// Length of one funding interval in milliseconds.
    pub interval_ms: u64,
    /// Epoch milliseconds of the next scheduled funding.
    pub next_funding_time: u64,
    pub exchange_timestamp: u64,
    pub engine_timestamp: u64,
    pub data_source: String,
}

/// Mark price used for funding and margin.
#[derive(Debug, Clone, PartialEq, Eq)]
pub struct MarkPriceUpdate {
    pub exchange: Exchange,
    pub symbol: SymbolPair,
    pub contract_type: ContractType,
    pub settlement_currency: SettlementCurrency,
    pub mark_price: Binary64,
    pub exchange_timestamp: u64,
    pub engine_timestamp: u64,
    pub data_source: String,
}

/// Open interest in native units and in US dollars.
#[derive(Debug, Clone, PartialEq, Eq)]
pub struct OpenInterestUpdate {
    pub exchange: Exchange,
    pub symbol: SymbolPair,
    pub contract_type: ContractType,
    pub settlement_currency: SettlementCurrency,
    pub open_interest_native: Binary64,
    pub open_interest_usd: Binary64,
    /// Signed change since the previous update, where the venue gives one.
    pub change: Option<Binary64>,
    pub exchange_timestamp: u64,
    pub engine_timestamp: u64,
    pub data_source: String,
}

/// One executed trade.
#[derive(Debug, Clone, PartialEq, Eq)]
pub struct TradeUpdate {
    pub exchange: Exchange,
    pub symbol: SymbolPair,
    pub contract_type: ContractType,
    pub settlement_currency: SettlementCurrency,
    pub price: Binary64,
    pub quantity: Binary64,
    /// Unified direction of the taker.
    pub side: Side,
    /// The venue's own maker flag, kept because venues differ in how it
    /// relates to the unified side.
    pub is_buyer_maker: bool,
    pub exchange_timestamp: u64,
    pub engine_timestamp: u64,
    pub data_source: String,
}

/// One candle. `is_closed` tells a finished bar from one still forming.
#[derive(Debug, Clone, PartialEq, Eq)]
pub struct KlineUpdate {
    pub exchange: Exchange,
    pub symbol: SymbolPair,
    pub contract_type: ContractType,
    pub settlement_currency: SettlementCurrency,
    /// Label of the bar length, as the venue names it.
    pub interval: String,
    pub open: Binary64,
    pub high: Binary64,
    pub low: Binary64,
    pub close: Binary64,
    pub volume: Binary64,
    pub start_time: u64,
    pub close_time: u64,
    pub is_closed: bool,
    pub engine_timestamp: u64,
    pub data_source: String,
}

/// Static description of one instrument and the connection that serves it.
#[derive(Debug, Clone, PartialEq, Eq)]
pub struct InstrumentSnapshot {
    pub exchange: Exchange,
    pub raw_symbol: String,
    pub canonical_symbol: String,
    pub contract_type: ContractType,
    pub settlement_currency: SettlementCurrency,
    pub quote_currency: QuoteCurrency,
    pub contract_size: Binary64,
    pub tick_size: Binary64,
    pub lot_size: Binary64,
    pub socket: SocketKind,
}

} // verus!
