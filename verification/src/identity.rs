//! Identity and classification of instruments: which pair, on which venue,
//! under which contract regime.
use vstd::prelude::*;
use crate::settlement_currency::SettlementCurrency;

verus! {

/// A trading pair under both of its names.
#[derive(Debug, PartialEq, Eq, Hash)]
pub struct SymbolPair {
    /// Cross-exchange symbol, equal for the same pair on every venue.
    pub canonical: String,
    /// Symbol as the venue itself spells it.
    pub raw: String,
}

/// Margining regime of an instrument.
#[derive(Debug, Clone, Copy, PartialEq, Eq, Hash, Structural)]
pub enum ContractType {
    /// Margined in the quote currency.
    Linear,
    /// Margined in the base currency.
    Inverse,
    /// Unleveraged.
    Spot,
}

/// Unified direction of a trade or of a forced liquidation.
///
/// For a liquidation, `Buy` means that a short position was closed by a
/// forced buy-back and `Sell` that a long position was closed by a forced
/// sale.
#[derive(Debug, Clone, Copy, PartialEq, Eq, Structural)]
pub enum Side {
    Buy,
    Sell,
}

/// Supported venues.
#[derive(Debug, Clone, Copy, PartialEq, Eq, Hash, Structural)]
pub enum Exchange {
    Binance,
    Bybit,
    Kucoin,
    Kraken,
    Deribit,
    Okx,
}

/// Connection class a stream is served from, with the index of the
/// connection within its class.
#[derive(Debug, Clone, Copy, PartialEq, Eq, Hash, Structural)]
pub enum SocketKind {
    BinancePublic { instance: u32 },
    BybitPublic { instance: u32 },
    KucoinPublic { instance: u32 },
    KrakenPublic { instance: u32 },
    DeribitPublic { instance: u32 },
    OkxPublic { instance: u32 },
    OkxBusiness { instance: u32 },
    BinancePublicSpot { instance: u32 },
    BybitPublicSpot { instance: u32 },
    OkxPublicSpot { instance: u32 },
    DeribitPublicSpot { instance: u32 },
    KrakenPublicSpot { instance: u32 },
    DeribitPublicInverse { instance: u32 },
    BinancePublicInverse { instance: u32 },
    BybitPublicInverse { instance: u32 },
}

/// Key that identifies one instrument stream across the whole system.
pub type ExchangeKey = (Exchange, SymbolPair, ContractType, SettlementCurrency);

impl Clone for SymbolPair {
    /// A copy with the same two names.
    fn clone(&self) -> (copy: SymbolPair)
        ensures
            copy == *self,
    {
        SymbolPair { canonical: self.canonical.clone(), raw: self.raw.clone() }
    }
}

} // verus!
