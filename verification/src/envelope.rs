//! The unit of wire transfer and its routing.
//!
//! An [`IngressEnvelope`] wraps exactly one [`EngineIngressMessage`] under a
//! format version. Consumers subscribe by [`SocketTopic`]; the topic of a
//! message follows from its kind alone, never from its payload.
use vstd::prelude::*;
use crate::events::{
    DepthSnapshot, FundingRateUpdate, KlineUpdate, MarkPriceUpdate, OpenInterestUpdate,
    PriceUpdate, TradeUpdate,
};
use crate::liquidation::LiquidationSnapshot;

verus! {

/// Exactly one event record. Liquidations travel as the windowed summary,
/// not as single events.
#[derive(Debug, Clone, PartialEq, Eq)]
pub enum EngineIngressMessage {
    Price(PriceUpdate),
    Depth(DepthSnapshot),
    Funding(FundingRateUpdate),
    MarkPrice(MarkPriceUpdate),
    OpenInterest(OpenInterestUpdate),
    Trade(TradeUpdate),
    Kline(KlineUpdate),
    Liquidation(LiquidationSnapshot),
}

/// One message under the version of the format it was written in.
///
/// `version` comes first so that a consumer can read it before it touches
/// `message`. A consumer that does not know the version must not interpret
/// the message.
#[derive(Debug, Clone, PartialEq, Eq)]
pub struct IngressEnvelope {
    pub version: u16,
    pub message: EngineIngressMessage,
}

/// Routing key for subscription and fan-out.
///
/// `Debug` is reserved for out-of-band diagnostics: no message kind maps to
/// it.
#[derive(Debug, Clone, Copy, PartialEq, Eq, Hash, Structural)]
pub enum SocketTopic {
    Price,
    Depth,
    Funding,
    MarkPrice,
    OpenInterest,
    Trades,
    Klines,
    Liquidations,
    Debug,
}

impl EngineIngressMessage {
    /// The topic designated for each kind of message.
    pub open spec fn spec_topic(self) -> SocketTopic {
        match self {
            EngineIngressMessage::Price(_) => SocketTopic::Price,
            EngineIngressMessage::Depth(_) => SocketTopic::Depth,
            EngineIngressMessage::Funding(_) => SocketTopic::Funding,
            EngineIngressMessage::MarkPrice(_) => SocketTopic::MarkPrice,
            EngineIngressMessage::OpenInterest(_) => SocketTopic::OpenInterest,
            EngineIngressMessage::Trade(_) => SocketTopic::Trades,
            EngineIngressMessage::Kline(_) => SocketTopic::Klines,
            EngineIngressMessage::Liquidation(_) => SocketTopic::Liquidations,
        }
    }

    /// Whether two messages are of the same kind, whatever they carry.
    pub open spec fn same_kind(self, other: EngineIngressMessage) -> bool {
        match self {
            EngineIngressMessage::Price(_) => other is Price,
            EngineIngressMessage::Depth(_) => other is Depth,
            EngineIngressMessage::Funding(_) => other is Funding,
            EngineIngressMessage::MarkPrice(_) => other is MarkPrice,
            EngineIngressMessage::OpenInterest(_) => other is OpenInterest,
            EngineIngressMessage::Trade(_) => other is Trade,
            EngineIngressMessage::Kline(_) => other is Kline,
            EngineIngressMessage::Liquidation(_) => other is Liquidation,
        }
    }

    /// The topic under which this message is routed.
    pub fn topic(&self) -> (topic: SocketTopic)
        ensures
            topic == self.spec_topic(),
            topic != SocketTopic::Debug,
    {
        match self {
            EngineIngressMessage::Price(_) => SocketTopic::Price,
            EngineIngressMessage::Depth(_) => SocketTopic::Depth,
            EngineIngressMessage::Funding(_) => SocketTopic::Funding,
            EngineIngressMessage::MarkPrice(_) => SocketTopic::MarkPrice,
            EngineIngressMessage::OpenInterest(_) => SocketTopic::OpenInterest,
            EngineIngressMessage::Trade(_) => SocketTopic::Trades,
            EngineIngressMessage::Kline(_) => SocketTopic::Klines,
            EngineIngressMessage::Liquidation(_) => SocketTopic::Liquidations,
        }
    }
}

impl SocketTopic {
    /// The stable name of each topic.
    pub open spec fn spec_name(self) -> Seq<char> {
        match self {
            SocketTopic::Price => "price"@,
            SocketTopic::Depth => "depth"@,
            SocketTopic::Liquidations => "liquidations"@,
            SocketTopic::OpenInterest => "open_interest"@,
            SocketTopic::Funding => "funding"@,
            SocketTopic::MarkPrice => "mark_price"@,
            SocketTopic::Trades => "trades"@,
            SocketTopic::Klines => "klines"@,
            SocketTopic::Debug => "debug"@,
        }
    }

    /// The name under which this topic is subscribed to.
    pub fn name(&self) -> (name: &'static str)
        ensures
            name@ == self.spec_name(),
    {
        match self {
            SocketTopic::Price => "price",
            SocketTopic::Depth => "depth",
            SocketTopic::Liquidations => "liquidations",
            SocketTopic::OpenInterest => "open_interest",
            SocketTopic::Funding => "funding",
            SocketTopic::MarkPrice => "mark_price",
            SocketTopic::Trades => "trades",
            SocketTopic::Klines => "klines",
            SocketTopic::Debug => "debug",
        }
    }
}

/// Whether `c` may occur in a topic name: a lower-case ASCII letter or an
/// underscore.
pub open spec fn is_name_char(c: char) -> bool {
    ('a' <= c && c <= 'z') || c == '_'
}

/// No message is routed to the diagnostic topic.
pub proof fn lemma_topic_is_never_debug(message: EngineIngressMessage)
    ensures
        message.spec_topic() != SocketTopic::Debug,
{
}

/// The topic depends on the kind of a message alone, and different kinds
/// have different topics.
pub proof fn lemma_topic_follows_kind(a: EngineIngressMessage, b: EngineIngressMessage)
    ensures
        a.spec_topic() == b.spec_topic() <==> a.same_kind(b),
{
}

/// Different topics have different names.
pub proof fn lemma_topic_names_differ(a: SocketTopic, b: SocketTopic)
    ensures
        a.spec_name() == b.spec_name() <==> a == b,
{
    reveal_strlit("price");
    reveal_strlit("depth");
    reveal_strlit("liquidations");
    reveal_strlit("open_interest");
    reveal_strlit("funding");
    reveal_strlit("mark_price");
    reveal_strlit("trades");
    reveal_strlit("klines");
    reveal_strlit("debug");
    if a != b {
        assert(a.spec_name().len() != b.spec_name().len() || a.spec_name()[0] != b.spec_name()[0]
            || a.spec_name()[2] != b.spec_name()[2]);
    }
}

/// Topic names are not empty and are written in lower-case ASCII letters
/// and underscores only.
pub proof fn lemma_topic_names_are_lowercase(topic: SocketTopic)
    ensures
        topic.spec_name().len() > 0,
        forall|i: int|
            0 <= i < topic.spec_name().len() ==> is_name_char(#[trigger] topic.spec_name()[i]),
{
    reveal_strlit("price");
    reveal_strlit("depth");
    reveal_strlit("liquidations");
    reveal_strlit("open_interest");
    reveal_strlit("funding");
    reveal_strlit("mark_price");
    reveal_strlit("trades");
    reveal_strlit("klines");
    reveal_strlit("debug");
}

} // verus!
