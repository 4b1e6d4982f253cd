//! The journal and the questions that single out its rows.
use crate::clock::Moment;
use crate::event::kinds::EventType;
use crate::event::payload::{EventEnvelope, EventEnvelopeView, Payload, PayloadView};
use crate::model::market::Direction;
use crate::text::text_eq;
use crate::value::Value;
use vstd::prelude::*;

verus! {

/// The rows of a journal in the order in which they were appended.
pub type Log = Seq<EventEnvelopeView>;

/// An event that was offered again.
pub struct Duplicate {
    pub run_id: String,
    pub idempotency_key: String,
}

/// The content of [`Duplicate`].
pub struct DuplicateView {
    pub run_id: Seq<char>,
    pub idempotency_key: Seq<char>,
}

impl DeepView for Duplicate {
    type V = DuplicateView;

    open spec fn deep_view(&self) -> DuplicateView {
        DuplicateView { run_id: self.run_id@, idempotency_key: self.idempotency_key@ }
    }
}

/// Whether two rows may stand in a journal one after the other: in a run the
/// sequence grows and no key comes twice, and no identifier comes twice at all.
pub open spec fn may_follow(a: EventEnvelopeView, b: EventEnvelopeView) -> bool {
    &&& a.event_id != b.event_id
    &&& a.run_id == b.run_id ==> a.sequence_number < b.sequence_number && a.idempotency_key
        != b.idempotency_key
}

/// Whether the rows are those of a journal.
pub open spec fn in_order(log: Log) -> bool {
    forall|i: int, j: int|
        0 <= i < j < log.len() ==> may_follow(#[trigger] log[i], #[trigger] log[j])
}

/// An append-only journal of events of any number of runs.
pub struct Journal {
    rows: Vec<EventEnvelope>,
    repeats: Vec<Duplicate>,
}

/// The content of a journal.
#[verifier::ext_equal]
pub struct JournalView {
    pub log: Log,
    pub repeats: Seq<DuplicateView>,
}

impl View for Journal {
    type V = JournalView;

    closed spec fn view(&self) -> JournalView {
        JournalView { log: self.rows.deep_view(), repeats: self.repeats.deep_view() }
    }
}

/// The grid index that a payload names.
pub open spec fn named_index(p: PayloadView) -> Option<i64> {
    match p {
        PayloadView::LevelAt(x) => x.grid_index,
        PayloadView::Right(x) => Some(x.grid_index as i64),
        PayloadView::Fill(x) => x.grid_index,
        _ => None,
    }
}

/// Whether an event is the fill of a sell order.
pub open spec fn sell_filled(e: EventEnvelopeView) -> bool {
    &&& e.event_type == EventType::OrderPartiallyFilled || e.event_type == EventType::OrderFilled
    &&& e.payload matches PayloadView::Fill(x)
    &&& x.fill matches Some(fill)
    &&& fill.direction == Direction::Sell
}

/// What rows to look for. What is not given may be anything.
pub struct Query<'a> {
    pub run_id: Option<&'a str>,
    pub kind: Option<EventType>,
    pub key: Option<&'a str>,
    pub event_id: Option<&'a str>,
    pub correlation: Option<&'a str>,
    pub symbol: Option<&'a str>,
    pub time: Option<Moment>,
    pub index: Option<i64>,
    pub after: Option<i64>,
    pub through: Option<i64>,
    pub sells: bool,
}

/// The content of a query.
pub struct QueryView {
    pub run_id: Option<Seq<char>>,
    pub kind: Option<EventType>,
    pub key: Option<Seq<char>>,
    pub event_id: Option<Seq<char>>,
    pub correlation: Option<Seq<char>>,
    pub symbol: Option<Seq<char>>,
    pub time: Option<Moment>,
    pub index: Option<i64>,
    pub after: Option<i64>,
    pub through: Option<i64>,
    pub sells: bool,
}

/// The text of an option.
pub open spec fn text_of(t: Option<&str>) -> Option<Seq<char>> {
    match t {
        Some(x) => Some(x@),
        None => None,
    }
}

impl<'a> View for Query<'a> {
    type V = QueryView;

    open spec fn view(&self) -> QueryView {
        QueryView {
            run_id: text_of(self.run_id),
            kind: self.kind,
            key: text_of(self.key),
            event_id: text_of(self.event_id),
            correlation: text_of(self.correlation),
            symbol: text_of(self.symbol),
            time: self.time,
            index: self.index,
            after: self.after,
            through: self.through,
            sells: self.sells,
        }
    }
}

/// A query for any row.
pub open spec fn any() -> QueryView {
    QueryView {
        run_id: None,
        kind: None,
        key: None,
        event_id: None,
        correlation: None,
        symbol: None,
        time: None,
        index: None,
        after: None,
        through: None,
        sells: false,
    }
}

/// A query for the rows of a run.
pub open spec fn of_run(run_id: Seq<char>) -> QueryView {
    QueryView { run_id: Some(run_id), ..any() }
}

/// A query for the rows of a run and a kind.
pub open spec fn of_kind(run_id: Seq<char>, kind: EventType) -> QueryView {
    QueryView { kind: Some(kind), ..of_run(run_id) }
}

/// A query for the rows of a run, a kind, a symbol and a time.
pub open spec fn at_time(run_id: Seq<char>, kind: EventType, symbol: Seq<char>, time: Moment) -> QueryView {
    QueryView { symbol: Some(symbol), time: Some(time), ..of_kind(run_id, kind) }
}

/// Whether a row is one that a query looks for.
pub open spec fn fits(e: EventEnvelopeView, q: QueryView) -> bool {
    &&& q.run_id is Some ==> e.run_id == q.run_id->0
    &&& q.kind is Some ==> e.event_type == q.kind->0
    &&& q.key is Some ==> e.idempotency_key == q.key->0
    &&& q.event_id is Some ==> e.event_id == q.event_id->0
    &&& q.correlation is Some ==> e.correlation_id == q.correlation->0
    &&& q.symbol is Some ==> e.symbol == q.symbol->0
    &&& q.time is Some ==> e.event_time == q.time->0
    &&& q.index is Some ==> named_index(e.payload) == Some(q.index->0)
    &&& q.after is Some ==> e.sequence_number > q.after->0
    &&& q.through is Some ==> e.sequence_number <= q.through->0
    &&& q.sells ==> sell_filled(e)
}

/// The first of the rows from `from` on that a query looks for.
pub open spec fn first_from(log: Log, q: QueryView, from: int) -> Option<int>
    decreases log.len() - from,
{
    if from < 0 || from >= log.len() {
        None
    } else if fits(log[from], q) {
        Some(from)
    } else {
        first_from(log, q, from + 1)
    }
}

/// The last of the first `n` rows that a query looks for.
pub open spec fn last_before(log: Log, q: QueryView, n: nat) -> Option<int>
    decreases n,
{
    if n == 0 {
        None
    } else if fits(log[n - 1], q) {
        Some(n - 1)
    } else {
        last_before(log, q, (n - 1) as nat)
    }
}

/// How many of the first `n` rows a query looks for.
pub open spec fn count_before(log: Log, q: QueryView, n: nat) -> nat
    decreases n,
{
    if n == 0 {
        0
    } else {
        count_before(log, q, (n - 1) as nat) + if fits(log[n - 1], q) {
            1nat
        } else {
            0nat
        }
    }
}

/// Those of the first `n` rows that a query looks for.
pub open spec fn rows_before(log: Log, q: QueryView, n: nat) -> Log
    decreases n,
{
    if n == 0 {
        Seq::empty()
    } else if fits(log[n - 1], q) {
        rows_before(log, q, (n - 1) as nat).push(log[n - 1])
    } else {
        rows_before(log, q, (n - 1) as nat)
    }
}

/// Whether there is a row that a query looks for.
pub open spec fn some_row(log: Log, q: QueryView) -> bool {
    exists|i: int| 0 <= i < log.len() && fits(#[trigger] log[i], q)
}

/// The sequence number of the last row of a run, or zero.
pub open spec fn latest(log: Log, run_id: Seq<char>) -> i64 {
    match last_before(log, of_run(run_id), log.len()) {
        Some(i) => log[i].sequence_number,
        None => 0,
    }
}

/// The last `limit` of the rows.
pub open spec fn last_rows(rows: Log, limit: nat) -> Log {
    if rows.len() <= limit {
        rows
    } else {
        rows.subrange(rows.len() - limit, rows.len() as int)
    }
}

/// The first `limit` of the rows.
pub open spec fn first_rows(rows: Log, limit: nat) -> Log {
    if rows.len() <= limit {
        rows
    } else {
        rows.subrange(0, limit as int)
    }
}

pub proof fn lemma_last_before(log: Log, q: QueryView, n: nat)
    requires
        n <= log.len(),
    ensures
        match last_before(log, q, n) {
            Some(i) => 0 <= i < n && fits(log[i], q) && forall|j: int|
                i < j < n ==> !fits(#[trigger] log[j], q),
            None => forall|j: int| 0 <= j < n ==> !fits(#[trigger] log[j], q),
        },
    decreases n,
{
    if n > 0 && !fits(log[n - 1], q) {
        lemma_last_before(log, q, (n - 1) as nat);
    }
}

pub proof fn lemma_first_from(log: Log, q: QueryView, from: int)
    requires
        0 <= from <= log.len(),
    ensures
        match first_from(log, q, from) {
            Some(i) => from <= i < log.len() && fits(log[i], q) && forall|j: int|
                from <= j < i ==> !fits(#[trigger] log[j], q),
            None => forall|j: int| from <= j < log.len() ==> !fits(#[trigger] log[j], q),
        },
    decreases log.len() - from,
{
    if from < log.len() && !fits(log[from], q) {
        lemma_first_from(log, q, from + 1);
    }
}

pub proof fn lemma_rows_bound(log: Log, q: QueryView, n: nat)
    requires
        n <= log.len(),
    ensures
        rows_before(log, q, n).len() <= n,
        rows_before(log, q, n).len() == count_before(log, q, n),
    decreases n,
{
    if n > 0 {
        lemma_rows_bound(log, q, (n - 1) as nat);
    }
}

fn option_fits(t: Option<&str>, text: &str) -> (r: bool)
    ensures
        r == (t is Some ==> text@ == t->0@),
{
    match t {
        Some(x) => text_eq(text, x),
        None => true,
    }
}

impl Payload {
    /// The grid index that the payload names.
    pub fn grid_index(&self) -> (r: Option<i64>)
        ensures
            r == named_index(self@),
    {
        match self {
            Payload::LevelAt(x) => x.grid_index,
            Payload::Right(x) => Some(x.grid_index as i64),
            Payload::Fill(x) => x.grid_index,
            _ => None,
        }
    }
}

impl EventEnvelope {
    fn is_sell_fill(&self) -> (r: bool)
        ensures
            r == sell_filled(self@),
    {
        match self.event_type {
            EventType::OrderPartiallyFilled | EventType::OrderFilled => match &self.payload {
                Payload::Fill(x) => match &x.fill {
                    Some(fill) => matches!(fill.direction, Direction::Sell),
                    None => false,
                },
                _ => false,
            },
            _ => false,
        }
    }

    /// Whether the event is one that a query looks for.
    pub fn is_wanted(&self, q: &Query) -> (r: bool)
        ensures
            r == fits(self@, q@),
    {
        let kind = match q.kind {
            Some(kind) => self.event_type == kind,
            None => true,
        };
        let time = match &q.time {
            Some(time) => self.event_time.same(time),
            None => true,
        };
        let index = match q.index {
            Some(index) => match self.payload.grid_index() {
                Some(named) => named == index,
                None => false,
            },
            None => true,
        };
        let after = match q.after {
            Some(x) => self.sequence_number > x,
            None => true,
        };
        let through = match q.through {
            Some(x) => self.sequence_number <= x,
            None => true,
        };
        kind && time && index && after && through && (!q.sells || self.is_sell_fill())
            && option_fits(q.run_id, self.run_id.as_str()) && option_fits(
            q.key,
            self.idempotency_key.as_str(),
        ) && option_fits(q.event_id, self.event_id.as_str()) && option_fits(
            q.correlation,
            self.correlation_id.as_str(),
        ) && option_fits(q.symbol, self.symbol.as_str())
    }

    fn may_precede(&self, other: &EventEnvelope) -> (r: bool)
        ensures
            r == may_follow(self@, other@),
    {
        !text_eq(self.event_id.as_str(), other.event_id.as_str()) && (!text_eq(
            self.run_id.as_str(),
            other.run_id.as_str(),
        ) || (self.sequence_number < other.sequence_number && !text_eq(
            self.idempotency_key.as_str(),
            other.idempotency_key.as_str(),
        )))
    }
}

/// A query for any row.
pub fn anything<'a>() -> (r: Query<'a>)
    ensures
        r@ == any(),
{
    Query {
        run_id: None,
        kind: None,
        key: None,
        event_id: None,
        correlation: None,
        symbol: None,
        time: None,
        index: None,
        after: None,
        through: None,
        sells: false,
    }
}

/// A query for the rows of a run.
pub fn in_run<'a>(run_id: &'a str) -> (r: Query<'a>)
    ensures
        r@ == of_run(run_id@),
{
    let mut q = anything();
    q.run_id = Some(run_id);
    q
}

/// A query for the rows of a run and a kind.
pub fn of_type<'a>(run_id: &'a str, kind: EventType) -> (r: Query<'a>)
    ensures
        r@ == of_kind(run_id@, kind),
{
    let mut q = in_run(run_id);
    q.kind = Some(kind);
    q
}

/// A query for the rows of a run, a kind, a symbol and a time.
pub fn at_moment<'a>(run_id: &'a str, kind: EventType, symbol: &'a str, time: Moment) -> (r: Query<'a>)
    ensures
        r@ == at_time(run_id@, kind, symbol@, time),
{
    let mut q = of_type(run_id, kind);
    q.symbol = Some(symbol);
    q.time = Some(time);
    q
}

fn rows_in_order(rows: &Vec<EventEnvelope>) -> (r: bool)
    ensures
        r == in_order(rows.deep_view()),
{
    let ghost all = rows.deep_view();
    let mut j: usize = 0;
    while j < rows.len()
        invariant
            j <= rows.len(),
            all == rows.deep_view(),
            forall|a: int, b: int|
                0 <= a < b < j ==> may_follow(#[trigger] all[a], #[trigger] all[b]),
        decreases rows.len() - j,
    {
        let mut i: usize = 0;
        while i < j
            invariant
                i <= j < rows.len(),
                all == rows.deep_view(),
                forall|a: int| 0 <= a < i ==> may_follow(#[trigger] all[a], all[j as int]),
            decreases j - i,
        {
            assert(all[i as int] == rows[i as int]@ && all[j as int] == rows[j as int]@);
            if !rows[i].may_precede(&rows[j]) {
                return false;
            }
            i = i + 1;
        }
        j = j + 1;
    }
    true
}

impl Journal {
    #[verifier::type_invariant]
    spec fn inv(self) -> bool {
        in_order(self.rows.deep_view())
    }

    /// A journal without rows.
    pub fn new() -> (r: Self)
        ensures
            r@.log == Seq::<EventEnvelopeView>::empty(),
            r@.repeats == Seq::<DuplicateView>::empty(),
    {
        let r = Journal { rows: Vec::new(), repeats: Vec::new() };
        assert(r.rows.deep_view() =~= Seq::<EventEnvelopeView>::empty());
        assert(r.repeats.deep_view() =~= Seq::<DuplicateView>::empty());
        r
    }

    /// The journal with these rows, if they are those of a journal.
    pub fn load(rows: Vec<EventEnvelope>, repeats: Vec<Duplicate>) -> (r: Option<Journal>)
        ensures
            r is Some == in_order(rows.deep_view()),
            r matches Some(j) ==> j@.log == rows.deep_view() && j@.repeats == repeats.deep_view(),
    {
        if rows_in_order(&rows) {
            Some(Journal { rows, repeats })
        } else {
            None
        }
    }

    /// What every journal keeps.
    pub fn order_known(&self)
        ensures
            in_order(self@.log),
    {
        proof {
            use_type_invariant(self);
        }
    }

    /// How many rows there are.
    pub fn len(&self) -> (r: usize)
        ensures
            r == self@.log.len(),
    {
        self.rows.len()
    }

    /// How many events were offered again.
    pub fn repeats_len(&self) -> (r: usize)
        ensures
            r == self@.repeats.len(),
    {
        self.repeats.len()
    }

    /// Adds a row at the end.
    pub(crate) fn push_row(&mut self, e: EventEnvelope)
        requires
            in_order(old(self)@.log.push(e@)),
        ensures
            final(self)@ == (JournalView { log: old(self)@.log.push(e@), ..old(self)@ }),
    {
        let ghost log = self@.log;
        let mut rows: Vec<EventEnvelope> = Vec::new();
        std::mem::swap(&mut rows, &mut self.rows);
        rows.push(e);
        assert(rows.deep_view() =~= log.push(e@));
        self.rows = rows;
    }

    /// Notes an event that was offered again.
    pub(crate) fn push_repeat(&mut self, again: Duplicate)
        ensures
            final(self)@ == (JournalView {
                repeats: old(self)@.repeats.push(again.deep_view()),
                ..old(self)@
            }),
    {
        proof {
            use_type_invariant(&*self);
        }
        let ghost before = self@.repeats;
        let mut repeats: Vec<Duplicate> = Vec::new();
        std::mem::swap(&mut repeats, &mut self.repeats);
        repeats.push(again);
        assert(repeats.deep_view() =~= before.push(again.deep_view()));
        self.repeats = repeats;
    }

    /// Takes back everything after the first rows and repeats.
    pub(crate) fn take_back(&mut self, rows_before: usize, repeats_before: usize)
        requires
            rows_before <= old(self)@.log.len(),
            repeats_before <= old(self)@.repeats.len(),
        ensures
            final(self)@.log == old(self)@.log.subrange(0, rows_before as int),
            final(self)@.repeats == old(self)@.repeats.subrange(0, repeats_before as int),
    {
        proof {
            use_type_invariant(&*self);
        }
        let ghost log = self@.log;
        let ghost again = self@.repeats;
        let mut rows: Vec<EventEnvelope> = Vec::new();
        std::mem::swap(&mut rows, &mut self.rows);
        rows.truncate(rows_before);
        assert(rows.deep_view() =~= log.subrange(0, rows_before as int));
        self.rows = rows;
        let mut repeats: Vec<Duplicate> = Vec::new();
        std::mem::swap(&mut repeats, &mut self.repeats);
        repeats.truncate(repeats_before);
        assert(repeats.deep_view() =~= again.subrange(0, repeats_before as int));
        self.repeats = repeats;
    }

    /// A row by its position.
    pub fn row(&self, i: usize) -> (r: &EventEnvelope)
        requires
            i < self@.log.len(),
        ensures
            r@ == self@.log[i as int],
    {
        assert(self.rows.deep_view()[i as int] == self.rows[i as int]@);
        &self.rows[i]
    }

    /// The first row from a position on that a query looks for.
    pub fn first_row(&self, q: &Query, from: usize) -> (r: Option<usize>)
        requires
            from <= self@.log.len(),
        ensures
            match first_from(self@.log, q@, from as int) {
                Some(i) => r matches Some(x) && x == i && i < self@.log.len(),
                None => r is None,
            },
    {
        let mut i: usize = from;
        while i < self.len()
            invariant
                from <= i <= self@.log.len(),
                first_from(self@.log, q@, from as int) == first_from(self@.log, q@, i as int),
            decreases self@.log.len() - i,
        {
            if self.row(i).is_wanted(q) {
                return Some(i);
            }
            i = i + 1;
        }
        None
    }

    /// The last row that a query looks for.
    pub fn last_row(&self, q: &Query) -> (r: Option<usize>)
        ensures
            match last_before(self@.log, q@, self@.log.len()) {
                Some(i) => r matches Some(x) && x == i && i < self@.log.len(),
                None => r is None,
            },
    {
        let mut n: usize = self.len();
        while n > 0
            invariant
                n <= self@.log.len(),
                last_before(self@.log, q@, self@.log.len()) == last_before(
                    self@.log,
                    q@,
                    n as nat,
                ),
            decreases n,
        {
            if self.row(n - 1).is_wanted(q) {
                return Some(n - 1);
            }
            n = n - 1;
        }
        None
    }

    /// How many rows a query looks for.
    pub fn count(&self, q: &Query) -> (r: usize)
        ensures
            r == count_before(self@.log, q@, self@.log.len()),
    {
        let mut total: usize = 0;
        let mut i: usize = 0;
        while i < self.len()
            invariant
                i <= self@.log.len(),
                total <= i,
                total == count_before(self@.log, q@, i as nat),
            decreases self@.log.len() - i,
        {
            if self.row(i).is_wanted(q) {
                total = total + 1;
            }
            i = i + 1;
        }
        total
    }

    /// Whether there is a row that a query looks for.
    pub fn has_row(&self, q: &Query) -> (r: bool)
        ensures
            r == some_row(self@.log, q@),
    {
        proof {
            lemma_last_before(self@.log, q@, self@.log.len());
        }
        self.last_row(q).is_some()
    }

    /// The rows that a query looks for.
    pub fn rows_for(&self, q: &Query) -> (r: Vec<EventEnvelope>)
        ensures
            r.deep_view() == rows_before(self@.log, q@, self@.log.len()),
    {
        let mut out: Vec<EventEnvelope> = Vec::new();
        assert(out.deep_view() =~= Seq::<EventEnvelopeView>::empty());
        let mut i: usize = 0;
        while i < self.len()
            invariant
                i <= self@.log.len(),
                out.deep_view() == rows_before(self@.log, q@, i as nat),
            decreases self@.log.len() - i,
        {
            let row = self.row(i);
            if row.is_wanted(q) {
                let ghost before = out.deep_view();
                out.push(row.dup());
                assert(out.deep_view() =~= before.push(self@.log[i as int]));
            }
            i = i + 1;
        }
        out
    }

    /// The sequence number of the last row of a run, or zero.
    pub fn latest_sequence(&self, run_id: &str) -> (r: i64)
        ensures
            r == latest(self@.log, run_id@),
    {
        match self.last_row(&in_run(run_id)) {
            Some(i) => self.row(i).sequence_number,
            None => 0,
        }
    }

    /// How many rows of a kind a run has.
    pub fn event_count_by_type(&self, run_id: &str, event_type: EventType) -> (r: usize)
        ensures
            r == count_before(self@.log, of_kind(run_id@, event_type), self@.log.len()),
    {
        self.count(&of_type(run_id, event_type))
    }

    /// How many rows of a kind a run has, and the sequence number of the last.
    pub fn event_type_summary(&self, run_id: &str, event_type: EventType) -> (r: (
        usize,
        Option<i64>,
    ))
        ensures
            r.0 == count_before(self@.log, of_kind(run_id@, event_type), self@.log.len()),
            r.1 == (match last_before(
                self@.log,
                of_kind(run_id@, event_type),
                self@.log.len(),
            ) {
                Some(i) => Some(self@.log[i].sequence_number),
                None => None,
            }),
    {
        let q = of_type(run_id, event_type);
        let last = match self.last_row(&q) {
            Some(i) => Some(self.row(i).sequence_number),
            None => None,
        };
        (self.count(&q), last)
    }

    /// The first row of a kind.
    pub fn first_event_by_type(&self, run_id: &str, event_type: EventType) -> (r: Option<
        &EventEnvelope,
    >)
        ensures
            match first_from(self@.log, of_kind(run_id@, event_type), 0) {
                Some(i) => r matches Some(e) && e@ == self@.log[i],
                None => r is None,
            },
    {
        match self.first_row(&of_type(run_id, event_type), 0) {
            Some(i) => Some(self.row(i)),
            None => None,
        }
    }

    /// The payload of the first row of a kind.
    pub fn first_payload_by_type(&self, run_id: &str, event_type: EventType) -> (r: Option<&Payload>)
        ensures
            match first_from(self@.log, of_kind(run_id@, event_type), 0) {
                Some(i) => r matches Some(p) && p@ == self@.log[i].payload,
                None => r is None,
            },
    {
        match self.first_event_by_type(run_id, event_type) {
            Some(e) => Some(&e.payload),
            None => None,
        }
    }

    /// Whether a run has a row with a key.
    pub fn has_idempotency_key(&self, run_id: &str, key: &str) -> (r: bool)
        ensures
            r == some_row(self@.log, with_key(run_id@, key@)),
    {
        self.has_row(&keyed(run_id, key))
    }

    /// The row of a run with a key.
    pub fn event_by_idempotency_key(&self, run_id: &str, key: &str) -> (r: Option<&EventEnvelope>)
        ensures
            match last_before(self@.log, with_key(run_id@, key@), self@.log.len()) {
                Some(i) => r matches Some(e) && e@ == self@.log[i],
                None => r is None,
            },
    {
        match self.last_row(&keyed(run_id, key)) {
            Some(i) => Some(self.row(i)),
            None => None,
        }
    }

    /// The payload of the row of a run with a key.
    pub fn payload_by_idempotency_key(&self, run_id: &str, key: &str) -> (r: Option<&Payload>)
        ensures
            match last_before(self@.log, with_key(run_id@, key@), self@.log.len()) {
                Some(i) => r matches Some(p) && p@ == self@.log[i].payload,
                None => r is None,
            },
    {
        match self.event_by_idempotency_key(run_id, key) {
            Some(e) => Some(&e.payload),
            None => None,
        }
    }

    /// The correlation of the row of a run with a key.
    pub fn correlation_by_idempotency_key(&self, run_id: &str, key: &str) -> (r: Option<String>)
        ensures
            r.deep_view() == (match last_before(
                self@.log,
                with_key(run_id@, key@),
                self@.log.len(),
            ) {
                Some(i) => Some(self@.log[i].correlation_id),
                None => None,
            }),
    {
        match self.event_by_idempotency_key(run_id, key) {
            Some(e) => Some(e.correlation_id.dup()),
            None => None,
        }
    }

    /// The identifier of the last row of a run with a correlation.
    pub fn latest_event_id_for_correlation(&self, run_id: &str, correlation_id: &str) -> (r: Option<
        String,
    >)
        ensures
            r.deep_view() == latest_cause(self@.log, run_id@, correlation_id@),
    {
        let mut q = in_run(run_id);
        q.correlation = Some(correlation_id);
        match self.last_row(&q) {
            Some(i) => Some(self.row(i).event_id.dup()),
            None => None,
        }
    }

    /// The last `limit` rows of a kind, the oldest first.
    pub fn recent_payloads_by_type(&self, run_id: &str, event_type: EventType, limit: usize) -> (r:
        Vec<EventEnvelope>)
        ensures
            r.deep_view() == last_rows(
                rows_before(self@.log, of_kind(run_id@, event_type), self@.log.len()),
                limit as nat,
            ),
    {
        let all = self.rows_for(&of_type(run_id, event_type));
        if all.len() <= limit {
            return all;
        }
        let start: usize = all.len() - limit;
        let ghost wanted = last_rows(all.deep_view(), limit as nat);
        let mut out: Vec<EventEnvelope> = Vec::new();
        assert(out.deep_view() =~= wanted.subrange(0, 0));
        let mut i: usize = 0;
        while i < limit
            invariant
                i <= limit,
                start == all.len() - limit,
                wanted == last_rows(all.deep_view(), limit as nat),
                all.len() > limit,
                out.deep_view() == wanted.subrange(0, i as int),
            decreases limit - i,
        {
            let ghost before = out.deep_view();
            out.push(all[start + i].dup());
            assert(all.deep_view()[start + i] == all[start + i]@);
            assert(out.deep_view() =~= before.push(wanted[i as int]));
            assert(out.deep_view() =~= wanted.subrange(0, i + 1));
            i = i + 1;
        }
        assert(out.deep_view() =~= wanted);
        out
    }

    /// Whether a level was touched at a time.
    pub fn has_grid_touch(&self, run_id: &str, symbol: &str, event_time: Moment, grid_index: i32) -> (r:
        bool)
        ensures
            r == some_row(self@.log, touch_at(run_id@, symbol@, event_time, grid_index)),
    {
        let mut q = at_moment(run_id, EventType::GridLevelTouched, symbol, event_time);
        q.index = Some(grid_index as i64);
        self.has_row(&q)
    }

    /// Whether a stage of a bar has been recorded.
    pub fn has_market_stage(
        &self,
        run_id: &str,
        event_type: EventType,
        symbol: &str,
        event_time: Moment,
    ) -> (r: bool)
        ensures
            r == some_row(self@.log, at_time(run_id@, event_type, symbol@, event_time)),
    {
        self.has_row(&at_moment(run_id, event_type, symbol, event_time))
    }

    /// The bar that was last received for a time.
    pub fn market_payload_at(&self, run_id: &str, symbol: &str, event_time: Moment) -> (r: Option<
        &EventEnvelope,
    >)
        ensures
            match last_before(
                self@.log,
                at_time(run_id@, EventType::MarketDataReceived, symbol@, event_time),
                self@.log.len(),
            ) {
                Some(i) => r matches Some(e) && e@ == self@.log[i],
                None => r is None,
            },
    {
        match self.last_row(
            &at_moment(run_id, EventType::MarketDataReceived, symbol, event_time),
        ) {
            Some(i) => Some(self.row(i)),
            None => None,
        }
    }

    /// When the last sell order of a run was filled.
    pub fn latest_sell_fill_time(&self, run_id: &str) -> (r: Option<Moment>)
        ensures
            r == last_sale(self@.log, run_id@),
    {
        let mut q = in_run(run_id);
        q.sells = true;
        match self.last_row(&q) {
            Some(i) => Some(self.row(i).event_time),
            None => None,
        }
    }

    /// When a level was last armed again.
    pub fn latest_grid_rearm_time(&self, run_id: &str, symbol: &str, grid_index: i32) -> (r: Option<
        Moment,
    >)
        ensures
            r == last_rearm(self@.log, run_id@, symbol@, grid_index),
    {
        let mut q = of_type(run_id, EventType::GridLevelRearmed);
        q.symbol = Some(symbol);
        q.index = Some(grid_index as i64);
        match self.last_row(&q) {
            Some(i) => Some(self.row(i).event_time),
            None => None,
        }
    }

    /// How often events of a run were offered again.
    pub fn duplicate_count(&self, run_id: &str) -> (r: u64)
        ensures
            r == repeats_of(self@.repeats, run_id@, self@.repeats.len()),
    {
        let ghost all = self.repeats.deep_view();
        let mut total: u64 = 0;
        let mut i: usize = 0;
        while i < self.repeats.len()
            invariant
                i <= self.repeats.len(),
                all == self.repeats.deep_view(),
                total <= i,
                total == repeats_of(all, run_id@, i as nat),
            decreases self.repeats.len() - i,
        {
            assert(all[i as int] == self.repeats[i as int].deep_view());
            if text_eq(self.repeats[i].run_id.as_str(), run_id) {
                total = total + 1;
            }
            i = i + 1;
        }
        total
    }
}

/// A query for the row of a run with a key.
pub open spec fn with_key(run_id: Seq<char>, key: Seq<char>) -> QueryView {
    QueryView { key: Some(key), ..of_run(run_id) }
}

fn keyed<'a>(run_id: &'a str, key: &'a str) -> (r: Query<'a>)
    ensures
        r@ == with_key(run_id@, key@),
{
    let mut q = in_run(run_id);
    q.key = Some(key);
    q
}

/// The identifier of the last row of a run with a correlation.
pub open spec fn latest_cause(log: Log, run_id: Seq<char>, correlation: Seq<char>) -> Option<
    Seq<char>,
> {
    match last_before(
        log,
        (QueryView { correlation: Some(correlation), ..of_run(run_id) }),
        log.len(),
    ) {
        Some(i) => Some(log[i].event_id),
        None => None,
    }
}

/// A query for the touch of a level at a time.
pub open spec fn touch_at(run_id: Seq<char>, symbol: Seq<char>, time: Moment, index: i32) -> QueryView {
    QueryView {
        index: Some(index as i64),
        ..at_time(run_id, EventType::GridLevelTouched, symbol, time)
    }
}

/// When the last sell order of a run was filled.
pub open spec fn last_sale(log: Log, run_id: Seq<char>) -> Option<Moment> {
    match last_before(log, (QueryView { sells: true, ..of_run(run_id) }), log.len()) {
        Some(i) => Some(log[i].event_time),
        None => None,
    }
}

/// When a level was last armed again.
pub open spec fn last_rearm(log: Log, run_id: Seq<char>, symbol: Seq<char>, index: i32) -> Option<
    Moment,
> {
    match last_before(
        log,
        (QueryView {
            symbol: Some(symbol),
            index: Some(index as i64),
            ..of_kind(run_id, EventType::GridLevelRearmed)
        }),
        log.len(),
    ) {
        Some(i) => Some(log[i].event_time),
        None => None,
    }
}

/// How many of the first `n` repeats are of a run.
pub open spec fn repeats_of(repeats: Seq<DuplicateView>, run_id: Seq<char>, n: nat) -> nat
    decreases n,
{
    if n == 0 {
        0
    } else {
        repeats_of(repeats, run_id, (n - 1) as nat) + if repeats[n - 1].run_id == run_id {
            1nat
        } else {
            0nat
        }
    }
}

} // verus!
