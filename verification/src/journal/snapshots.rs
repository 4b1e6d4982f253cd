//! Snapshots of the state, which only speed up what the journal says.
use crate::digest::{text_digest, text_sha256};
use crate::journal::query::{latest, Journal, JournalView};
use crate::model::ledger::{StrategyState, StrategyStateView};
use crate::text::text_eq;
use crate::value::Value;
use vstd::prelude::*;

verus! {

/// A stored snapshot with the state that its text decodes to, if it does.
pub struct SnapshotRow {
    pub run_id: String,
    pub sequence_number: i64,
    pub state_json: String,
    pub checksum: String,
    pub state: Option<StrategyState>,
}

/// The content of [`SnapshotRow`].
pub struct SnapshotRowView {
    pub run_id: Seq<char>,
    pub sequence_number: i64,
    pub state_json: Seq<char>,
    pub checksum: Seq<char>,
    pub state: Option<StrategyStateView>,
}

impl DeepView for SnapshotRow {
    type V = SnapshotRowView;

    open spec fn deep_view(&self) -> SnapshotRowView {
        SnapshotRowView {
            run_id: self.run_id@,
            sequence_number: self.sequence_number,
            state_json: self.state_json@,
            checksum: self.checksum@,
            state: self.state.deep_view(),
        }
    }
}

/// Why a snapshot is not stored.
#[derive(Clone, Copy, Debug, PartialEq, Eq, Structural)]
pub enum SnapshotError {
    /// The journal is not at the sequence number of the snapshot.
    Stale,
    /// Another snapshot stands at this sequence number.
    Conflict,
}

/// Whether a snapshot can stand for the journal up to its sequence number.
pub open spec fn usable(row: SnapshotRowView, run_id: Seq<char>, journal_sequence: i64) -> bool {
    &&& 0 <= row.sequence_number <= journal_sequence
    &&& row.checksum == text_digest(row.state_json)
    &&& row.state matches Some(state)
    &&& state.run_id == run_id
}

/// The usable snapshot of a run with the largest sequence number among the
/// first `n` rows.
pub open spec fn best_snapshot(
    rows: Seq<SnapshotRowView>,
    run_id: Seq<char>,
    journal_sequence: i64,
    n: nat,
) -> Option<int>
    decreases n,
{
    if n == 0 {
        None
    } else {
        let row = rows[n - 1];
        let before = best_snapshot(rows, run_id, journal_sequence, (n - 1) as nat);
        if row.run_id == run_id && usable(row, run_id, journal_sequence) && (before is None
            || rows[before->0].sequence_number < row.sequence_number) {
            Some(n - 1)
        } else {
            before
        }
    }
}

/// Whether a snapshot of a run had to be passed over.
pub open spec fn passed_over(
    rows: Seq<SnapshotRowView>,
    run_id: Seq<char>,
    journal_sequence: i64,
    best: Option<int>,
) -> bool {
    exists|i: int|
        0 <= i < rows.len() && (#[trigger] rows[i]).run_id == run_id && !usable(
            rows[i],
            run_id,
            journal_sequence,
        ) && (best is None || rows[best->0].sequence_number < rows[i].sequence_number)
}

/// The snapshot of a run at a sequence number among the first `n` rows.
pub open spec fn snapshot_at(
    rows: Seq<SnapshotRowView>,
    run_id: Seq<char>,
    sequence: i64,
    n: nat,
) -> Option<int>
    decreases n,
{
    if n == 0 {
        None
    } else if rows[n - 1].run_id == run_id && rows[n - 1].sequence_number == sequence {
        Some(n - 1)
    } else {
        snapshot_at(rows, run_id, sequence, (n - 1) as nat)
    }
}

/// What follows from storing a snapshot: the rows with it, the rows as they
/// were where the same snapshot stands there already, or why it is refused.
pub open spec fn snapshot_saved(
    j: JournalView,
    rows: Seq<SnapshotRowView>,
    state: StrategyStateView,
    encoded: Seq<char>,
    sequence: i64,
) -> Result<Seq<SnapshotRowView>, SnapshotError> {
    if latest(j.log, state.run_id) != sequence {
        Err(SnapshotError::Stale)
    } else {
        match snapshot_at(rows, state.run_id, sequence, rows.len()) {
            Some(i) => if rows[i].checksum == text_digest(encoded) {
                Ok(rows)
            } else {
                Err(SnapshotError::Conflict)
            },
            None => Ok(
                rows.push(
                    SnapshotRowView {
                        run_id: state.run_id,
                        sequence_number: sequence,
                        state_json: encoded,
                        checksum: text_digest(encoded),
                        state: Some(state),
                    },
                ),
            ),
        }
    }
}

impl SnapshotRow {
    fn is_usable(&self, run_id: &str, journal_sequence: i64) -> (r: bool)
        ensures
            r == usable(self.deep_view(), run_id@, journal_sequence),
    {
        if self.sequence_number < 0 || self.sequence_number > journal_sequence {
            return false;
        }
        let expected = text_sha256(self.state_json.as_str());
        if !text_eq(self.checksum.as_str(), expected.as_str()) {
            return false;
        }
        match &self.state {
            Some(state) => text_eq(state.run_id.as_str(), run_id),
            None => false,
        }
    }
}

proof fn lemma_best_bound(
    rows: Seq<SnapshotRowView>,
    run_id: Seq<char>,
    journal_sequence: i64,
    n: nat,
)
    requires
        n <= rows.len(),
    ensures
        best_snapshot(rows, run_id, journal_sequence, n) matches Some(i) ==> {
            &&& 0 <= i < n
            &&& rows[i].run_id == run_id
            &&& usable(rows[i], run_id, journal_sequence)
        },
    decreases n,
{
    if n > 0 {
        lemma_best_bound(rows, run_id, journal_sequence, (n - 1) as nat);
    }
}

impl Journal {
    /// The usable snapshot of a run with the largest sequence number, and whether
    /// one that is not usable was passed over for it.
    pub fn latest_snapshot(&self, rows: &Vec<SnapshotRow>, run_id: &str) -> (r: (
        Option<usize>,
        bool,
    ))
        ensures
            ({
                let best = best_snapshot(
                    rows.deep_view(),
                    run_id@,
                    latest(self@.log, run_id@),
                    rows.deep_view().len(),
                );
                &&& match best {
                    Some(i) => r.0 matches Some(x) && x == i && i < rows.len() && rows.deep_view()[i].state
                        is Some,
                    None => r.0 is None,
                }
                &&& r.1 == passed_over(
                    rows.deep_view(),
                    run_id@,
                    latest(self@.log, run_id@),
                    best,
                )
            }),
    {
        let ghost all = rows.deep_view();
        let journal_sequence: i64 = self.latest_sequence(run_id);
        let mut best: Option<usize> = None;
        let mut i: usize = 0;
        while i < rows.len()
            invariant
                i <= rows.len(),
                all == rows.deep_view(),
                match best_snapshot(all, run_id@, journal_sequence, i as nat) {
                    Some(x) => best matches Some(b) && b == x && x < i && all[x].state is Some,
                    None => best is None,
                },
            decreases rows.len() - i,
        {
            assert(all[i as int] == rows[i as int].deep_view());
            let newer = match best {
                Some(b) => {
                    assert(all[b as int] == rows[b as int].deep_view());
                    rows[b].sequence_number < rows[i].sequence_number
                },
                None => true,
            };
            if newer && text_eq(rows[i].run_id.as_str(), run_id) && rows[i].is_usable(
                run_id,
                journal_sequence,
            ) {
                best = Some(i);
            }
            i = i + 1;
        }
        let ghost chosen = best_snapshot(all, run_id@, journal_sequence, all.len());
        let mut passed = false;
        let mut k: usize = 0;
        while k < rows.len()
            invariant
                k <= rows.len(),
                all == rows.deep_view(),
                match chosen {
                    Some(x) => best matches Some(b) && b == x && x < rows.len(),
                    None => best is None,
                },
                passed == exists|m: int|
                    0 <= m < k && (#[trigger] all[m]).run_id == run_id@ && !usable(
                        all[m],
                        run_id@,
                        journal_sequence,
                    ) && (chosen is None || all[chosen->0].sequence_number
                        < all[m].sequence_number),
            decreases rows.len() - k,
        {
            assert(all[k as int] == rows[k as int].deep_view());
            let newer = match best {
                Some(b) => {
                    assert(all[b as int] == rows[b as int].deep_view());
                    rows[b].sequence_number < rows[k].sequence_number
                },
                None => true,
            };
            if newer && text_eq(rows[k].run_id.as_str(), run_id) && !rows[k].is_usable(
                run_id,
                journal_sequence,
            ) {
                passed = true;
            }
            k = k + 1;
        }
        (best, passed)
    }

    /// Stores a snapshot of a state at the end of its run. The same snapshot may
    /// be stored again, another one at the same place may not.
    pub fn save_snapshot_validated(
        &self,
        rows: &mut Vec<SnapshotRow>,
        state: &StrategyState,
        encoded: &str,
        sequence: i64,
    ) -> (r: Result<(), SnapshotError>)
        ensures
            match snapshot_saved(self@, old(rows).deep_view(), state@, encoded@, sequence) {
                Ok(n) => r is Ok && final(rows).deep_view() == n,
                Err(e) => r == Err::<(), SnapshotError>(e) && *final(rows) == *old(rows),
            },
    {
        let run_id = state.run_id.as_str();
        if self.latest_sequence(run_id) != sequence {
            return Err(SnapshotError::Stale);
        }
        let checksum = text_sha256(encoded);
        let ghost all = rows.deep_view();
        let mut n: usize = rows.len();
        while n > 0
            invariant
                n <= rows.len(),
                all == rows.deep_view(),
                *rows == *old(rows),
                run_id@ == state@.run_id,
                checksum@ == text_digest(encoded@),
                latest(self@.log, state@.run_id) == sequence,
                snapshot_at(all, run_id@, sequence, all.len()) == snapshot_at(
                    all,
                    run_id@,
                    sequence,
                    n as nat,
                ),
            decreases n,
        {
            assert(all[n - 1] == rows[n - 1].deep_view());
            if text_eq(rows[n - 1].run_id.as_str(), run_id) && rows[n - 1].sequence_number
                == sequence {
                if text_eq(rows[n - 1].checksum.as_str(), checksum.as_str()) {
                    return Ok(());
                }
                return Err(SnapshotError::Conflict);
            }
            n = n - 1;
        }
        let row = SnapshotRow {
            run_id: state.run_id.dup(),
            sequence_number: sequence,
            state_json: encoded.to_owned(),
            checksum,
            state: Some(state.dup()),
        };
        rows.push(row);
        assert(rows.deep_view() =~= all.push(row.deep_view()));
        Ok(())
    }
}

/// A snapshot that was stored can be stored again, and that changes nothing.
pub proof fn law_snapshots_are_idempotent(
    j: JournalView,
    rows: Seq<SnapshotRowView>,
    state: StrategyStateView,
    encoded: Seq<char>,
    sequence: i64,
)
    ensures
        snapshot_saved(j, rows, state, encoded, sequence) matches Ok(after) ==> snapshot_saved(
            j,
            after,
            state,
            encoded,
            sequence,
        ) == Ok::<Seq<SnapshotRowView>, SnapshotError>(after),
{
}

/// The snapshot that is chosen is usable, and no usable one of the run is newer.
pub proof fn law_newest_usable_snapshot_is_chosen(
    rows: Seq<SnapshotRowView>,
    run_id: Seq<char>,
    journal_sequence: i64,
    n: nat,
    i: int,
)
    requires
        n <= rows.len(),
        0 <= i < n,
        rows[i].run_id == run_id,
        usable(rows[i], run_id, journal_sequence),
    ensures
        best_snapshot(rows, run_id, journal_sequence, n) matches Some(b) && usable(
            rows[b],
            run_id,
            journal_sequence,
        ) && rows[b].sequence_number >= rows[i].sequence_number,
    decreases n,
{
    lemma_best_bound(rows, run_id, journal_sequence, n);
    if i < n - 1 {
        law_newest_usable_snapshot_is_chosen(
            rows,
            run_id,
            journal_sequence,
            (n - 1) as nat,
            i,
        );
    }
}

} // verus!
