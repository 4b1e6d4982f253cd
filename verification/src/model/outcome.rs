//! The outcome of a decision.
use crate::value::Value;
use vstd::prelude::*;

verus! {

/// How an authorized quantity is disposed of.
#[derive(Clone, Copy, Debug, PartialEq, Eq, Structural)]
pub enum RightDecision {
    /// Trade a part and keep the rest.
    Exercise { exercise_quantity: i64, defer_quantity: i64 },
    /// Keep all of it.
    Defer { defer_quantity: i64 },
}

impl DeepView for RightDecision {
    type V = RightDecision;

    open spec fn deep_view(&self) -> RightDecision {
        *self
    }
}

impl View for RightDecision {
    type V = RightDecision;

    open spec fn view(&self) -> RightDecision {
        *self
    }
}

impl Value for RightDecision {
    fn dup(&self) -> (r: Self) {
        *self
    }

    fn same(&self, other: &Self) -> (r: bool) {
        *self == *other
    }
}

} // verus!
