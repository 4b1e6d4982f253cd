//! The life of an order and of a grid level.
use crate::domain::DomainError;
use crate::model::ledger::{Order, OrderStatus, OrderView};
use vstd::prelude::*;

verus! {

impl OrderStatus {
    /// The steps that an order may take.
    pub open spec fn may_become(self, next: OrderStatus) -> bool {
        match self {
            OrderStatus::Created => next == OrderStatus::Submitted,
            OrderStatus::Submitted => next == OrderStatus::Accepted || next == OrderStatus::Rejected
                || next == OrderStatus::CancelPending,
            OrderStatus::Accepted => next == OrderStatus::PartiallyFilled || next
                == OrderStatus::Filled || next == OrderStatus::CancelPending || next
                == OrderStatus::Rejected,
            OrderStatus::PartiallyFilled => next == OrderStatus::PartiallyFilled || next
                == OrderStatus::Filled || next == OrderStatus::CancelPending,
            OrderStatus::CancelPending => next == OrderStatus::Cancelled || next
                == OrderStatus::PartiallyFilled || next == OrderStatus::Filled,
            OrderStatus::Filled | OrderStatus::Rejected | OrderStatus::Cancelled => false,
        }
    }

    /// Whether nothing follows.
    pub open spec fn terminal(self) -> bool {
        self == OrderStatus::Filled || self == OrderStatus::Rejected || self
            == OrderStatus::Cancelled
    }

    pub fn can_transition(self, next: OrderStatus) -> (r: bool)
        ensures
            r == self.may_become(next),
    {
        match self {
            OrderStatus::Created => matches!(next, OrderStatus::Submitted),
            OrderStatus::Submitted => matches!(
                next,
                OrderStatus::Accepted | OrderStatus::Rejected | OrderStatus::CancelPending
            ),
            OrderStatus::Accepted => matches!(
                next,
                OrderStatus::PartiallyFilled | OrderStatus::Filled | OrderStatus::CancelPending
                    | OrderStatus::Rejected
            ),
            OrderStatus::PartiallyFilled => matches!(
                next,
                OrderStatus::PartiallyFilled | OrderStatus::Filled | OrderStatus::CancelPending
            ),
            OrderStatus::CancelPending => matches!(
                next,
                OrderStatus::Cancelled | OrderStatus::PartiallyFilled | OrderStatus::Filled
            ),
            OrderStatus::Filled | OrderStatus::Rejected | OrderStatus::Cancelled => false,
        }
    }

    /// Whether the order still waits for something.
    pub open spec fn open(self) -> bool {
        !self.terminal()
    }

    /// Whether the order still waits for something.
    pub fn is_open(self) -> (r: bool)
        ensures
            r == self.open(),
    {
        !matches!(self, OrderStatus::Filled | OrderStatus::Rejected | OrderStatus::Cancelled)
    }
}

/// An order that was filled, rejected or cancelled never changes its status.
pub proof fn law_terminal_orders_stay(status: OrderStatus, next: OrderStatus)
    requires
        status.terminal(),
    ensures
        !status.may_become(next),
{
}

/// A status that is not terminal has a step out of it.
pub proof fn law_open_orders_can_move(status: OrderStatus)
    requires
        status.open(),
    ensures
        exists|next: OrderStatus| status.may_become(next),
{
    match status {
        OrderStatus::Created => assert(status.may_become(OrderStatus::Submitted)),
        OrderStatus::Submitted => assert(status.may_become(OrderStatus::Accepted)),
        OrderStatus::Accepted => assert(status.may_become(OrderStatus::Filled)),
        OrderStatus::PartiallyFilled => assert(status.may_become(OrderStatus::Filled)),
        OrderStatus::CancelPending => assert(status.may_become(OrderStatus::Cancelled)),
        _ => {},
    }
}

/// Where each status comes from: an order is handed over once, the broker accepts what
/// was handed over, refuses what it has not begun to fill, fills what it accepted even
/// while a cancellation waits, and cancels only what it was asked to cancel.
pub proof fn law_order_steps(from: OrderStatus)
    ensures
        !from.may_become(OrderStatus::Created),
        from.may_become(OrderStatus::Submitted) <==> from == OrderStatus::Created,
        from.may_become(OrderStatus::Accepted) <==> from == OrderStatus::Submitted,
        from.may_become(OrderStatus::Rejected) <==> from == OrderStatus::Submitted || from
            == OrderStatus::Accepted,
        from.may_become(OrderStatus::Filled) <==> from == OrderStatus::Accepted || from
            == OrderStatus::PartiallyFilled || from == OrderStatus::CancelPending,
        from.may_become(OrderStatus::PartiallyFilled) <==> from.may_become(OrderStatus::Filled),
        from.may_become(OrderStatus::CancelPending) <==> from == OrderStatus::Submitted || from
            == OrderStatus::Accepted || from == OrderStatus::PartiallyFilled,
        from.may_become(OrderStatus::Cancelled) <==> from == OrderStatus::CancelPending,
        from.open() <==> from != OrderStatus::Filled && from != OrderStatus::Rejected && from
            != OrderStatus::Cancelled,
{
}

impl Order {
    /// Moves the order to another status.
    ///
    /// An order that may not take the step is left as it is, and the refused step
    /// is returned.
    pub fn transition(&mut self, next: OrderStatus) -> (r: Result<(), DomainError>)
        ensures
            match r {
                Ok(_) => old(self)@.status.may_become(next) && final(self)@ == (OrderView {
                    status: next,
                    ..old(self)@
                }),
                Err(e) => !old(self)@.status.may_become(next) && e
                    == DomainError::InvalidOrderTransition(old(self)@.status, next) && final(self)@
                    == old(self)@,
            },
    {
        if !self.status.can_transition(next) {
            return Err(DomainError::InvalidOrderTransition(self.status, next));
        }
        self.status = next;
        Ok(())
    }
}

} // verus!
