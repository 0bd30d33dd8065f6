//! Canonical market-data event model shared by exchange connectors and their
//! consumers: instrument identity, event records, the versioned envelope with
//! its topic routing, and the tumbling-window liquidation aggregator.
pub mod binary64;
pub mod clock;
pub mod envelope;
pub mod events;
pub mod identity;
pub mod liquidation;
pub mod settlement_currency;

pub use crate::binary64::Binary64;
pub use crate::clock::{epoch_timestamp, now_ms_utc, ClockError};
pub use crate::envelope::{EngineIngressMessage, IngressEnvelope, SocketTopic};
pub use crate::events::{
    DepthSnapshot, FundingRateUpdate, InstrumentSnapshot, KlineUpdate, LiquidationEvent,
    MarkPriceUpdate, OpenInterestUpdate, PriceUpdate, TradeUpdate,
};
pub use crate::identity::{ContractType, Exchange, ExchangeKey, Side, SocketKind, SymbolPair};
pub use crate::liquidation::{LiquidationSnapshot, LIQUIDATION_WINDOW_MS};
pub use crate::settlement_currency::{QuoteCurrency, SettlementCurrency};
