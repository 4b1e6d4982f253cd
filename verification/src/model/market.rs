//! Market records.
use crate::clock::Moment;
use crate::decimal::Decimal;
use crate::value::Value;
use vstd::prelude::*;

verus! {

/// The side of an order.
#[derive(Clone, Copy, Debug, PartialEq, Eq, Structural)]
pub enum Direction {
    Buy,
    Sell,
}

impl DeepView for Direction {
    type V = Direction;

    open spec fn deep_view(&self) -> Direction {
        *self
    }
}

impl View for Direction {
    type V = Direction;

    open spec fn view(&self) -> Direction {
        *self
    }
}

impl Value for Direction {
    fn dup(&self) -> (r: Self) {
        *self
    }

    fn same(&self, other: &Self) -> (r: bool) {
        *self == *other
    }
}

/// One bar of market data.
pub struct MarketBar {
    pub timestamp: Moment,
    pub symbol: String,
    pub open: Decimal,
    pub high: Decimal,
    pub low: Decimal,
    pub close: Decimal,
    pub volume: i64,
    pub amount: Option<Decimal>,
}

/// The content of [`MarketBar`].
#[verifier::ext_equal]
pub struct MarketBarView {
    pub timestamp: Moment,
    pub symbol: Seq<char>,
    pub open: Decimal,
    pub high: Decimal,
    pub low: Decimal,
    pub close: Decimal,
    pub volume: i64,
    pub amount: Option<Decimal>,
}

impl DeepView for MarketBar {
    type V = MarketBarView;

    open spec fn deep_view(&self) -> MarketBarView {
        MarketBarView {
            timestamp: self.timestamp,
            symbol: self.symbol.deep_view(),
            open: self.open,
            high: self.high,
            low: self.low,
            close: self.close,
            volume: self.volume,
            amount: self.amount.deep_view(),
        }
    }
}

impl View for MarketBar {
    type V = MarketBarView;

    open spec fn view(&self) -> MarketBarView {
        self.deep_view()
    }
}

impl Value for MarketBar {
    fn dup(&self) -> (r: Self) {
        MarketBar {
            timestamp: self.timestamp,
            symbol: self.symbol.dup(),
            open: self.open,
            high: self.high,
            low: self.low,
            close: self.close,
            volume: self.volume,
            amount: self.amount.dup(),
        }
    }

    fn same(&self, other: &Self) -> (r: bool) {
        self.timestamp.same(&other.timestamp)
            && self.symbol.same(&other.symbol)
            && self.open.same(&other.open)
            && self.high.same(&other.high)
            && self.low.same(&other.low)
            && self.close.same(&other.close)
            && self.volume == other.volume
            && self.amount.same(&other.amount)
    }
}

impl Clone for MarketBar {
    fn clone(&self) -> (r: Self)
        ensures
            r@ == self@,
    {
        self.dup()
    }
}

/// A market bar that has been received and not yet processed.
pub struct PendingMarketEvidence {
    pub event_id: String,
    pub evidence_sha256: String,
    pub bar: MarketBar,
}

/// The content of [`PendingMarketEvidence`].
#[verifier::ext_equal]
pub struct PendingMarketEvidenceView {
    pub event_id: Seq<char>,
    pub evidence_sha256: Seq<char>,
    pub bar: MarketBarView,
}

impl DeepView for PendingMarketEvidence {
    type V = PendingMarketEvidenceView;

    open spec fn deep_view(&self) -> PendingMarketEvidenceView {
        PendingMarketEvidenceView {
            event_id: self.event_id.deep_view(),
            evidence_sha256: self.evidence_sha256.deep_view(),
            bar: self.bar.deep_view(),
        }
    }
}

impl View for PendingMarketEvidence {
    type V = PendingMarketEvidenceView;

    open spec fn view(&self) -> PendingMarketEvidenceView {
        self.deep_view()
    }
}

impl Value for PendingMarketEvidence {
    fn dup(&self) -> (r: Self) {
        PendingMarketEvidence {
            event_id: self.event_id.dup(),
            evidence_sha256: self.evidence_sha256.dup(),
            bar: self.bar.dup(),
        }
    }

    fn same(&self, other: &Self) -> (r: bool) {
        self.event_id.same(&other.event_id)
            && self.evidence_sha256.same(&other.evidence_sha256)
            && self.bar.same(&other.bar)
    }
}

impl Clone for PendingMarketEvidence {
    fn clone(&self) -> (r: Self)
        ensures
            r@ == self@,
    {
        self.dup()
    }
}

} // verus!
