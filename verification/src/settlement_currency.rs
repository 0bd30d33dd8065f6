//! Currencies in which instruments settle and are quoted.
use vstd::prelude::*;

verus! {

/// Currency in which profit, loss and margin of a contract are settled.
#[derive(Debug, Clone, Copy, PartialEq, Eq, Hash, Structural)]
pub enum SettlementCurrency {
    Usdt,
    Usdc,
    Usd,
    Btc,
    Eth,
}

/// Currency in which the price of an instrument is quoted.
#[derive(Debug, Clone, Copy, PartialEq, Eq, Hash, Structural)]
pub enum QuoteCurrency {
    Usdt,
    Usdc,
    Usd,
    Btc,
    Eth,
}

} // verus!
