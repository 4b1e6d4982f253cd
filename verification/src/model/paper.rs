//! What a broker reports, and what pricing says of its fills.
use crate::decimal::Decimal;
use crate::model::ledger::LotQuantityAllocation;
use crate::model::ledger::LotQuantityAllocationView;
use crate::model::notices::FillCharges;
use crate::value::Value;
use vstd::prelude::*;

verus! {

/// A fill as a broker reports it.
pub struct FillReport {
    pub fill_id: String,
    pub quantity: i64,
    pub price: Decimal,
    pub final_fill: bool,
}

/// The content of [`FillReport`].
#[verifier::ext_equal]
pub struct FillReportView {
    pub fill_id: Seq<char>,
    pub quantity: i64,
    pub price: Decimal,
    pub final_fill: bool,
}

impl DeepView for FillReport {
    type V = FillReportView;

    open spec fn deep_view(&self) -> FillReportView {
        FillReportView {
            fill_id: self.fill_id.deep_view(),
            quantity: self.quantity,
            price: self.price,
            final_fill: self.final_fill,
        }
    }
}

impl View for FillReport {
    type V = FillReportView;

    open spec fn view(&self) -> FillReportView {
        self.deep_view()
    }
}

impl Value for FillReport {
    fn dup(&self) -> (r: Self) {
        FillReport {
            fill_id: self.fill_id.dup(),
            quantity: self.quantity,
            price: self.price,
            final_fill: self.final_fill,
        }
    }

    fn same(&self, other: &Self) -> (r: bool) {
        self.fill_id.same(&other.fill_id)
            && self.quantity == other.quantity
            && self.price.same(&other.price)
            && self.final_fill == other.final_fill
    }
}

impl Clone for FillReport {
    fn clone(&self) -> (r: Self)
        ensures
            r@ == self@,
    {
        self.dup()
    }
}

/// What the pricing rules say of a fill.
pub struct FillAppraisal {
    /// The charges of the fill, after those of the fills before it.
    pub charges: Option<FillCharges>,
    /// The parts of the planned allocations that the fill closes.
    pub allocations: Option<Vec<LotQuantityAllocation>>,
    /// How the fees of the fill are shared among those parts.
    pub fee_split: Option<Vec<Decimal>>,
}

/// The content of [`FillAppraisal`].
#[verifier::ext_equal]
pub struct FillAppraisalView {
    pub charges: Option<FillCharges>,
    pub allocations: Option<Seq<LotQuantityAllocationView>>,
    pub fee_split: Option<Seq<Decimal>>,
}

impl DeepView for FillAppraisal {
    type V = FillAppraisalView;

    open spec fn deep_view(&self) -> FillAppraisalView {
        FillAppraisalView {
            charges: self.charges.deep_view(),
            allocations: self.allocations.deep_view(),
            fee_split: self.fee_split.deep_view(),
        }
    }
}

impl View for FillAppraisal {
    type V = FillAppraisalView;

    open spec fn view(&self) -> FillAppraisalView {
        self.deep_view()
    }
}

impl Value for FillAppraisal {
    fn dup(&self) -> (r: Self) {
        FillAppraisal {
            charges: self.charges.dup(),
            allocations: self.allocations.dup(),
            fee_split: self.fee_split.dup(),
        }
    }

    fn same(&self, other: &Self) -> (r: bool) {
        self.charges.same(&other.charges)
            && self.allocations.same(&other.allocations)
            && self.fee_split.same(&other.fee_split)
    }
}

impl Clone for FillAppraisal {
    fn clone(&self) -> (r: Self)
        ensures
            r@ == self@,
    {
        self.dup()
    }
}

} // verus!
