//! What an operator may ask of the adapter.
use crate::model::market::Direction;
use crate::model::remote::{SimulationOrderRecord, SimulationOrderRecordView};
use crate::text::text_eq;
use vstd::prelude::*;

verus! {

/// Why a request of an operator is refused.
#[derive(Clone, Copy, Debug, PartialEq, Eq, Structural)]
pub enum OperateError {
    /// The direction is neither `buy` nor `sell`.
    Direction,
    /// The age of an order is out of range.
    Age,
    /// The pause between cycles is out of range.
    Pause,
    /// The time to hold a connection is out of range.
    Hold,
}

/// The direction that a word names.
pub fn parse_direction(word: &str) -> (r: Result<Direction, OperateError>)
    ensures
        r == (if word@ == "buy"@ {
            Ok::<Direction, OperateError>(Direction::Buy)
        } else if word@ == "sell"@ {
            Ok::<Direction, OperateError>(Direction::Sell)
        } else {
            Err::<Direction, OperateError>(OperateError::Direction)
        }),
{
    if text_eq(word, "buy") {
        Ok(Direction::Buy)
    } else if text_eq(word, "sell") {
        Ok(Direction::Sell)
    } else {
        Err(OperateError::Direction)
    }
}

/// Accepts a positive age of an order.
pub fn validate_intent_age(maximum_age_seconds: i64) -> (r: Result<(), OperateError>)
    ensures
        r == (if maximum_age_seconds > 0 {
            Ok::<(), OperateError>(())
        } else {
            Err::<(), OperateError>(OperateError::Age)
        }),
{
    if maximum_age_seconds <= 0 {
        return Err(OperateError::Age);
    }
    Ok(())
}

/// Accepts the limits of a worker: orders of 1 to 600 seconds, pauses of 1 to 60.
pub fn validate_worker_limits(maximum_age_seconds: i64, poll_interval_seconds: u64) -> (r: Result<
    (),
    OperateError,
>)
    ensures
        r == (if !(1 <= maximum_age_seconds <= 600) {
            Err::<(), OperateError>(OperateError::Age)
        } else if !(1 <= poll_interval_seconds <= 60) {
            Err::<(), OperateError>(OperateError::Pause)
        } else {
            Ok::<(), OperateError>(())
        }),
{
    if maximum_age_seconds < 1 || maximum_age_seconds > 600 {
        return Err(OperateError::Age);
    }
    if poll_interval_seconds < 1 || poll_interval_seconds > 60 {
        return Err(OperateError::Pause);
    }
    Ok(())
}

/// Accepts a connection that is held for at most two minutes.
pub fn validate_hold(hold_seconds: u64) -> (r: Result<(), OperateError>)
    ensures
        r == (if hold_seconds <= 120 {
            Ok::<(), OperateError>(())
        } else {
            Err::<(), OperateError>(OperateError::Hold)
        }),
{
    if hold_seconds > 120 {
        return Err(OperateError::Hold);
    }
    Ok(())
}

/// Whether a remote order shows that a contract was cancelled.
pub open spec fn shows_cancelled(r: SimulationOrderRecordView, contract: Seq<char>) -> bool {
    r.contract_id == contract && r.cancelled_quantity > 0 && r.remark.contains('撤')
}

fn has_cancel_mark(remark: &str) -> (r: bool)
    ensures
        r == remark@.contains('撤'),
{
    let n: usize = remark.unicode_len();
    let mut i: usize = 0;
    while i < n
        invariant
            i <= n == remark@.len(),
            forall|j: int| 0 <= j < i ==> #[trigger] remark@[j] != '撤',
        decreases n - i,
    {
        if remark.get_char(i) == '撤' {
            return true;
        }
        i = i + 1;
    }
    false
}

/// Whether one of the remote orders shows that a contract was cancelled.
pub fn reached_cancelled(records: &Vec<SimulationOrderRecord>, contract_id: &str) -> (r: bool)
    ensures
        r == exists|i: int|
            0 <= i < records.deep_view().len() && shows_cancelled(
                #[trigger] records.deep_view()[i],
                contract_id@,
            ),
{
    let ghost all = records.deep_view();
    let mut i: usize = 0;
    while i < records.len()
        invariant
            i <= records.len(),
            all == records.deep_view(),
            forall|j: int| 0 <= j < i ==> !shows_cancelled(#[trigger] all[j], contract_id@),
        decreases records.len() - i,
    {
        assert(all[i as int] == records[i as int]@);
        let record = &records[i];
        if text_eq(record.contract_id.as_str(), contract_id) && record.cancelled_quantity > 0
            && has_cancel_mark(record.remark.as_str()) {
            assert(shows_cancelled(all[i as int], contract_id@));
            return true;
        }
        i = i + 1;
    }
    false
}

} // verus!
