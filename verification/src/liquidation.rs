//! Tumbling-window aggregation of liquidations.
//!
//! A [`LiquidationSnapshot`] summarizes the liquidations of one instrument
//! over the current window: how many closed shorts and how many closed longs,
//! and the total size of each. A window is a fixed span of venue time. The
//! first event that lies more than the window's length past its start opens
//! a new, empty window that starts at that event; nothing of the old window
//! is kept. An event older than the window's start counts as zero time
//! elapsed and is folded into the open window.
//!
//! Sizes are IEEE 754 numbers held by bit pattern. Their addition is the one
//! operation this module does not perform itself: `update` is handed the
//! adder and states its result in terms of what the adder guarantees.
use vstd::prelude::*;
use crate::binary64::Binary64;
use crate::events::LiquidationEvent;
use crate::identity::{ContractType, Exchange, Side, SymbolPair};
use crate::settlement_currency::SettlementCurrency;

verus! {

/// Length of every aggregation window, in milliseconds.
pub const LIQUIDATION_WINDOW_MS: u64 = 300_000;

/// Rolling summary of the liquidations of one instrument within the current
/// window.
#[derive(Debug, Clone, PartialEq, Eq)]
pub struct LiquidationSnapshot {
    pub exchange: Exchange,
    pub symbol: SymbolPair,
    pub contract_type: ContractType,
    pub settlement_currency: SettlementCurrency,
    /// Venue time at which the current window began.
    pub window_start: u64,
    /// Length of the window in milliseconds.
    pub window_len: u64,
    /// Liquidated shorts in the window.
    pub buy_count: u64,
    /// Liquidated longs in the window.
    pub sell_count: u64,
    pub total_buy_qty: Binary64,
    pub total_sell_qty: Binary64,
    pub raw_total_buy_qty: Binary64,
    pub raw_total_sell_qty: Binary64,
    /// Venue time of the latest event folded in.
    pub exchange_timestamp: u64,
    /// Engine time of the latest event folded in.
    pub engine_timestamp: u64,
}

/// The side that `side` is not.
pub open spec fn opposite(side: Side) -> Side {
    match side {
        Side::Buy => Side::Sell,
        Side::Sell => Side::Buy,
    }
}

/// Milliseconds from `window_start` to `timestamp`, zero where `timestamp`
/// lies before `window_start`.
pub open spec fn elapsed_in_window(window_start: u64, timestamp: u64) -> nat {
    if timestamp >= window_start {
        (timestamp - window_start) as nat
    } else {
        0
    }
}

impl LiquidationSnapshot {
    /// The empty summary that an instrument's first event opens: the
    /// event's identity and clocks, a window that starts at the event, and
    /// nothing counted, not even the event itself.
    pub open spec fn seeded_by(event: LiquidationEvent) -> LiquidationSnapshot {
        LiquidationSnapshot {
            exchange: event.exchange,
            symbol: event.symbol,
            contract_type: event.contract_type,
            settlement_currency: event.settlement_currency,
            window_start: event.exchange_timestamp,
            window_len: LIQUIDATION_WINDOW_MS,
            buy_count: 0,
            sell_count: 0,
            total_buy_qty: Binary64::spec_zero(),
            total_sell_qty: Binary64::spec_zero(),
            raw_total_buy_qty: Binary64::spec_zero(),
            raw_total_sell_qty: Binary64::spec_zero(),
            exchange_timestamp: event.exchange_timestamp,
            engine_timestamp: event.engine_timestamp,
        }
    }

    /// Whether an event at venue time `timestamp` lies past the end of the
    /// current window. An event exactly `window_len` after the start is
    /// still inside.
    pub open spec fn window_expired(self, timestamp: u64) -> bool {
        elapsed_in_window(self.window_start, timestamp) > self.window_len
    }

    /// Number of liquidations counted on `side`.
    pub open spec fn side_count(self, side: Side) -> u64 {
        match side {
            Side::Buy => self.buy_count,
            Side::Sell => self.sell_count,
        }
    }

    /// Total normalized size on `side`.
    pub open spec fn side_total(self, side: Side) -> Binary64 {
        match side {
            Side::Buy => self.total_buy_qty,
            Side::Sell => self.total_sell_qty,
        }
    }

    /// Total venue-unit size on `side`.
    pub open spec fn side_raw_total(self, side: Side) -> Binary64 {
        match side {
            Side::Buy => self.raw_total_buy_qty,
            Side::Sell => self.raw_total_sell_qty,
        }
    }

    /// The summary once its window has been settled for `event` and before
    /// the event is counted: a fresh window starting at the event if the
    /// current one has expired, the current one otherwise, and in both
    /// cases the event's two clocks.
    pub open spec fn settled_for(self, event: LiquidationEvent) -> LiquidationSnapshot {
        if self.window_expired(event.exchange_timestamp) {
            LiquidationSnapshot {
                window_start: event.exchange_timestamp,
                buy_count: 0,
                sell_count: 0,
                total_buy_qty: Binary64::spec_zero(),
                total_sell_qty: Binary64::spec_zero(),
                raw_total_buy_qty: Binary64::spec_zero(),
                raw_total_sell_qty: Binary64::spec_zero(),
                exchange_timestamp: event.exchange_timestamp,
                engine_timestamp: event.engine_timestamp,
                ..self
            }
        } else {
            LiquidationSnapshot {
                exchange_timestamp: event.exchange_timestamp,
                engine_timestamp: event.engine_timestamp,
                ..self
            }
        }
    }

    /// The summary with one more liquidation counted on `side`, whose two
    /// totals become `total` and `raw_total`. The other side is as before.
    pub open spec fn counted(
        self,
        side: Side,
        total: Binary64,
        raw_total: Binary64,
    ) -> LiquidationSnapshot {
        match side {
            Side::Buy => LiquidationSnapshot {
                buy_count: (self.buy_count + 1) as u64,
                total_buy_qty: total,
                raw_total_buy_qty: raw_total,
                ..self
            },
            Side::Sell => LiquidationSnapshot {
                sell_count: (self.sell_count + 1) as u64,
                total_sell_qty: total,
                raw_total_sell_qty: raw_total,
                ..self
            },
        }
    }

    /// Whether folding `event` into `self` can leave `next`, whatever the
    /// adder: the window is settled for the event, the counter of the
    /// event's side has room for one more, and `next` counts the event on
    /// its side with some pair of totals.
    pub open spec fn folds_to(self, event: LiquidationEvent, next: LiquidationSnapshot) -> bool {
        let settled = self.settled_for(event);
        &&& settled.side_count(event.side) < u64::MAX
        &&& next == settled.counted(
            event.side,
            next.side_total(event.side),
            next.side_raw_total(event.side),
        )
    }

    /// Whether folding `event` into `self` with the adder `sum` can leave
    /// `next`: `self` folds to `next`, and each of the two totals on the
    /// event's side is a result of `sum` on the settled total and the
    /// event's size.
    pub open spec fn updates_to<A: Fn(Binary64, Binary64) -> Binary64>(
        self,
        event: LiquidationEvent,
        sum: A,
        next: LiquidationSnapshot,
    ) -> bool {
        let settled = self.settled_for(event);
        &&& self.folds_to(event, next)
        &&& sum.ensures(
            (settled.side_total(event.side), event.quantity),
            next.side_total(event.side),
        )
        &&& sum.ensures(
            (settled.side_raw_total(event.side), event.raw_quantity),
            next.side_raw_total(event.side),
        )
    }

    /// Opens the summary of an instrument from its first event. The event
    /// seeds identity, window and clocks only; it is not counted.
    pub fn new(event: &LiquidationEvent) -> (snapshot: LiquidationSnapshot)
        ensures
            snapshot == LiquidationSnapshot::seeded_by(*event),
    {
        LiquidationSnapshot {
            exchange: event.exchange,
            symbol: event.symbol.clone(),
            contract_type: event.contract_type,
            settlement_currency: event.settlement_currency,
            window_start: event.exchange_timestamp,
            window_len: LIQUIDATION_WINDOW_MS,
            buy_count: 0,
            sell_count: 0,
            total_buy_qty: Binary64::zero(),
            total_sell_qty: Binary64::zero(),
            raw_total_buy_qty: Binary64::zero(),
            raw_total_sell_qty: Binary64::zero(),
            exchange_timestamp: event.exchange_timestamp,
            engine_timestamp: event.engine_timestamp,
        }
    }

    /// Whether `update` may be called with `event`: whether the counter of
    /// the event's side, once the window is settled for the event, has room
    /// for one more.
    pub fn has_room_for(&self, event: &LiquidationEvent) -> (room: bool)
        ensures
            room == (self.settled_for(*event).side_count(event.side) < u64::MAX),
    {
        if event.exchange_timestamp.saturating_sub(self.window_start) > self.window_len {
            true
        } else {
            match event.side {
                Side::Buy => self.buy_count < u64::MAX,
                Side::Sell => self.sell_count < u64::MAX,
            }
        }
    }

    /// Folds one event into the summary.
    ///
    /// The window is settled first: if the event lies more than
    /// `window_len` past `window_start`, the window restarts at the event
    /// with all counters and totals at zero. The summary then takes the
    /// event's two clocks, and the event is counted on its side: the counter
    /// grows by one, and each of the side's two totals becomes
    /// `sum(total, size)`.
    ///
    /// `sum` is the addition of two IEEE 754 numbers given by bit pattern.
    /// The counter of the event's side must have room for one more, which
    /// `has_room_for` tells.
    pub fn update<A>(&mut self, event: &LiquidationEvent, sum: A) where
        A: Fn(Binary64, Binary64) -> Binary64,

        requires
            old(self).settled_for(*event).side_count(event.side) < u64::MAX,
            sum.requires((old(self).settled_for(*event).side_total(event.side), event.quantity)),
            sum.requires(
                (old(self).settled_for(*event).side_raw_total(event.side), event.raw_quantity),
            ),
        ensures
            old(self).updates_to(*event, sum, *final(self)),
    {
        if event.exchange_timestamp.saturating_sub(self.window_start) > self.window_len {
            self.window_start = event.exchange_timestamp;
            self.buy_count = 0;
            self.sell_count = 0;
            self.total_buy_qty = Binary64::zero();
            self.total_sell_qty = Binary64::zero();
            self.raw_total_buy_qty = Binary64::zero();
            self.raw_total_sell_qty = Binary64::zero();
        }
        self.exchange_timestamp = event.exchange_timestamp;
        self.engine_timestamp = event.engine_timestamp;
        match event.side {
            Side::Buy => {
                self.buy_count += 1;
                self.total_buy_qty = sum(self.total_buy_qty, event.quantity);
                self.raw_total_buy_qty = sum(self.raw_total_buy_qty, event.raw_quantity);
            },
            Side::Sell => {
                self.sell_count += 1;
                self.total_sell_qty = sum(self.total_sell_qty, event.quantity);
                self.raw_total_sell_qty = sum(self.raw_total_sell_qty, event.raw_quantity);
            },
        }
    }
}

/// A window has expired for an event exactly when the event's venue time is
/// greater than the window's start plus its length. The end itself is still
/// inside.
pub proof fn lemma_window_expires_strictly_after_end(snapshot: LiquidationSnapshot, timestamp: u64)
    ensures
        snapshot.window_expired(timestamp) <==> timestamp > snapshot.window_start
            + snapshot.window_len,
{
}

/// An event older than the window's start has zero time elapsed and never
/// expires the window, whatever the window's length.
pub proof fn lemma_earlier_event_keeps_window(snapshot: LiquidationSnapshot, timestamp: u64)
    requires
        timestamp < snapshot.window_start,
    ensures
        elapsed_in_window(snapshot.window_start, timestamp) == 0,
        !snapshot.window_expired(timestamp),
{
}

/// Folding an event whose venue time is older than the window's start keeps
/// the window and everything counted in it.
pub proof fn lemma_update_with_earlier_event(
    pre: LiquidationSnapshot,
    event: LiquidationEvent,
    next: LiquidationSnapshot,
)
    requires
        pre.folds_to(event, next),
        event.exchange_timestamp < pre.window_start,
    ensures
        next.window_start == pre.window_start,
        next.side_count(event.side) == pre.side_count(event.side) + 1,
        next.side_count(opposite(event.side)) == pre.side_count(opposite(event.side)),
        next.side_total(opposite(event.side)) == pre.side_total(opposite(event.side)),
        next.side_raw_total(opposite(event.side)) == pre.side_raw_total(opposite(event.side)),
{
}

/// With a window of `LIQUIDATION_WINDOW_MS`, an event one millisecond past
/// the window's end restarts the window at the event. Nothing of the old
/// window is left: all six counters and totals are zero when the event is
/// counted, so the event is the only one in the new window and its sizes
/// are summed onto zero.
pub proof fn lemma_update_past_window_end<A: Fn(Binary64, Binary64) -> Binary64>(
    pre: LiquidationSnapshot,
    event: LiquidationEvent,
    sum: A,
    next: LiquidationSnapshot,
)
    requires
        pre.updates_to(event, sum, next),
        pre.window_len == LIQUIDATION_WINDOW_MS,
        event.exchange_timestamp == pre.window_start + LIQUIDATION_WINDOW_MS + 1,
    ensures
        pre.window_expired(event.exchange_timestamp),
        pre.settled_for(event).buy_count == 0,
        pre.settled_for(event).sell_count == 0,
        pre.settled_for(event).total_buy_qty == Binary64::spec_zero(),
        pre.settled_for(event).total_sell_qty == Binary64::spec_zero(),
        pre.settled_for(event).raw_total_buy_qty == Binary64::spec_zero(),
        pre.settled_for(event).raw_total_sell_qty == Binary64::spec_zero(),
        next.window_start == event.exchange_timestamp,
        next.side_count(event.side) == 1,
        sum.ensures((Binary64::spec_zero(), event.quantity), next.side_total(event.side)),
        sum.ensures((Binary64::spec_zero(), event.raw_quantity), next.side_raw_total(event.side)),
        next.side_count(opposite(event.side)) == 0,
        next.side_total(opposite(event.side)) == Binary64::spec_zero(),
        next.side_raw_total(opposite(event.side)) == Binary64::spec_zero(),
{
}

/// With a window of `LIQUIDATION_WINDOW_MS`, an event exactly at the
/// window's end does not restart the window: it is folded into the open
/// one.
pub proof fn lemma_update_at_window_end<A: Fn(Binary64, Binary64) -> Binary64>(
    pre: LiquidationSnapshot,
    event: LiquidationEvent,
    sum: A,
    next: LiquidationSnapshot,
)
    requires
        pre.updates_to(event, sum, next),
        pre.window_len == LIQUIDATION_WINDOW_MS,
        event.exchange_timestamp == pre.window_start + LIQUIDATION_WINDOW_MS,
    ensures
        !pre.window_expired(event.exchange_timestamp),
        next.window_start == pre.window_start,
        next.side_count(event.side) == pre.side_count(event.side) + 1,
        sum.ensures(
            (pre.side_total(event.side), event.quantity),
            next.side_total(event.side),
        ),
        sum.ensures(
            (pre.side_raw_total(event.side), event.raw_quantity),
            next.side_raw_total(event.side),
        ),
        next.side_count(opposite(event.side)) == pre.side_count(opposite(event.side)),
        next.side_total(opposite(event.side)) == pre.side_total(opposite(event.side)),
        next.side_raw_total(opposite(event.side)) == pre.side_raw_total(opposite(event.side)),
{
}

/// Within an open window, an event changes the counter and the totals of
/// its own side only. A liquidated short adds one to `buy_count` and its
/// sizes to the two buy totals, and leaves the three sell-side fields as
/// they were; a liquidated long does the same with the sides exchanged.
pub proof fn lemma_update_touches_one_side<A: Fn(Binary64, Binary64) -> Binary64>(
    pre: LiquidationSnapshot,
    event: LiquidationEvent,
    sum: A,
    next: LiquidationSnapshot,
)
    requires
        pre.updates_to(event, sum, next),
        !pre.window_expired(event.exchange_timestamp),
    ensures
        event.side == Side::Buy ==> {
            &&& next.buy_count == pre.buy_count + 1
            &&& sum.ensures((pre.total_buy_qty, event.quantity), next.total_buy_qty)
            &&& sum.ensures((pre.raw_total_buy_qty, event.raw_quantity), next.raw_total_buy_qty)
            &&& next.sell_count == pre.sell_count
            &&& next.total_sell_qty == pre.total_sell_qty
            &&& next.raw_total_sell_qty == pre.raw_total_sell_qty
        },
        event.side == Side::Sell ==> {
            &&& next.sell_count == pre.sell_count + 1
            &&& sum.ensures((pre.total_sell_qty, event.quantity), next.total_sell_qty)
            &&& sum.ensures((pre.raw_total_sell_qty, event.raw_quantity), next.raw_total_sell_qty)
            &&& next.buy_count == pre.buy_count
            &&& next.total_buy_qty == pre.total_buy_qty
            &&& next.raw_total_buy_qty == pre.raw_total_buy_qty
        },
{
}

/// Whether or not the window restarts, the side that an event is not on
/// holds after the fold what the settled window held on it.
pub proof fn lemma_update_keeps_settled_opposite_side(
    pre: LiquidationSnapshot,
    event: LiquidationEvent,
    next: LiquidationSnapshot,
)
    requires
        pre.folds_to(event, next),
    ensures
        next.side_count(event.side) == pre.settled_for(event).side_count(event.side) + 1,
        next.side_count(opposite(event.side)) == pre.settled_for(event).side_count(
            opposite(event.side),
        ),
        next.side_total(opposite(event.side)) == pre.settled_for(event).side_total(
            opposite(event.side),
        ),
        next.side_raw_total(opposite(event.side)) == pre.settled_for(event).side_raw_total(
            opposite(event.side),
        ),
{
}

/// The first fold after opening a summary, made with the event that opened
/// it, stays in the opening window and leaves exactly that event counted.
pub proof fn lemma_seed_is_counted_by_its_own_fold(
    event: LiquidationEvent,
    next: LiquidationSnapshot,
)
    requires
        LiquidationSnapshot::seeded_by(event).folds_to(event, next),
    ensures
        LiquidationSnapshot::seeded_by(event).side_count(event.side) == 0,
        next.window_start == event.exchange_timestamp,
        next.side_count(event.side) == 1,
        next.side_count(opposite(event.side)) == 0,
        next.side_total(opposite(event.side)) == Binary64::spec_zero(),
        next.side_raw_total(opposite(event.side)) == Binary64::spec_zero(),
{
}

/// After every fold the summary carries the two clocks of the event just
/// folded, whether or not the window restarted.
pub proof fn lemma_update_takes_event_clocks(
    pre: LiquidationSnapshot,
    event: LiquidationEvent,
    next: LiquidationSnapshot,
)
    requires
        pre.folds_to(event, next),
    ensures
        next.exchange_timestamp == event.exchange_timestamp,
        next.engine_timestamp == event.engine_timestamp,
{
}

/// A fold never changes which instrument the summary is about, nor the
/// length of its window.
pub proof fn lemma_update_keeps_identity(
    pre: LiquidationSnapshot,
    event: LiquidationEvent,
    next: LiquidationSnapshot,
)
    requires
        pre.folds_to(event, next),
    ensures
        next.exchange == pre.exchange,
        next.symbol == pre.symbol,
        next.contract_type == pre.contract_type,
        next.settlement_currency == pre.settlement_currency,
        next.window_len == pre.window_len,
{
}

} // verus!
