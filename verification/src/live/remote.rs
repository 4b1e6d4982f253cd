//! The orders that a remote account shows, held against the orders that were
//! staged for it.
use crate::decimal::{over, plus, times, Decimal};
use crate::event::kinds::EventType;
use crate::event::payload::{EventEnvelope, EventEnvelopeView, Payload, PayloadView};
use crate::model::ledger::{Fill, FillView};
use crate::model::market::Direction;
use crate::model::remote::{
    ModeledFill, ModeledFillView, RemoteFill, RemoteFillView, SimulationOrderRecord,
    SimulationOrderRecordView, StagedCancelState, StagedIntent, StagedIntentState,
    StagedIntentView, StagedTerminalResolution,
};
use crate::table::{holds_key, lookup, with, Table};
use crate::text::{join, text_eq};
use crate::value::{text_list_contains, Value};
use vstd::prelude::*;

verus! {

/// Why the remote orders cannot be judged, or are not those that are modeled.
#[derive(Clone, Copy, Debug, PartialEq, Eq, Structural)]
pub enum RemoteError {
    /// The cancelled part is not one of the order.
    Partition,
    /// A filled order has no price.
    NoPrice,
    /// The price of a filled order cannot be read.
    BadPrice,
    /// The price of a filled order is not positive.
    NonPositivePrice,
    /// Two staged orders are bound to one contract.
    BoundTwice,
    /// A modeled fill event carries no fill.
    NoFill,
    /// A modeled amount is too large.
    Notional,
    /// The fills of a modeled order change their direction.
    DirectionChanged,
    /// A modeled quantity is too large.
    Quantity,
    /// A contract was filled that is not filled in the model.
    NotModeled,
    /// The modeled fill is not that of the whole order.
    PartlyModeled,
    /// The modeled price is not a number.
    ModeledPrice,
    /// The evidence of a fill is missing.
    NoEvidence,
    /// The evidence of a fill cannot be read.
    BadEvidence,
    /// The evidence is that of another contract.
    EvidenceContract,
    /// The evidence holds a fill of another order, or one twice.
    EvidenceFill,
    /// The quantity of the evidence is too large.
    EvidenceQuantity,
    /// The amount of the evidence is too large.
    EvidenceAmount,
    /// The evidence has another quantity than the model.
    EvidenceTotal,
    /// The price of the evidence is not a number.
    EvidencePrice,
    /// The remote price is worse than the modeled one.
    Worse,
    /// A contract was cancelled that is filled in the model.
    CancelledAfterFill,
}

/// How a remote order ended.
#[derive(Clone, Copy, Debug, PartialEq, Eq, Structural)]
pub enum RemoteTerminal {
    Filled,
    Cancelled,
}

/// The price that a filled order shows.
pub open spec fn shown_price(r: SimulationOrderRecordView) -> Result<Decimal, RemoteError> {
    match r.fill_price {
        None => Err(RemoteError::NoPrice),
        Some(text) => match crate::decimal::from_parts(crate::decimal::read_decimal(text)) {
            None => Err(RemoteError::BadPrice),
            Some(price) => Ok(price),
        },
    }
}

/// How a remote order ended, if it did.
pub open spec fn terminal(r: SimulationOrderRecordView) -> Result<
    Option<RemoteTerminal>,
    RemoteError,
> {
    if r.quantity <= 0 || r.cancelled_quantity < 0 || r.cancelled_quantity > r.quantity {
        Err(RemoteError::Partition)
    } else if r.remark == "全部撤单"@ && r.cancelled_quantity == r.quantity {
        Ok(Some(RemoteTerminal::Cancelled))
    } else if r.remark == "全部成交"@ && r.cancelled_quantity == 0 {
        match shown_price(r) {
            Err(e) => Err(e),
            Ok(price) => if price.m() <= 0 {
                Err(RemoteError::NonPositivePrice)
            } else {
                Ok(Some(RemoteTerminal::Filled))
            },
        }
    } else {
        Ok(None)
    }
}

fn price_shown(record: &SimulationOrderRecord) -> (r: Result<Decimal, RemoteError>)
    ensures
        r == shown_price(record@),
{
    match &record.fill_price {
        None => Err(RemoteError::NoPrice),
        Some(text) => match Decimal::parse(text.as_str()) {
            None => Err(RemoteError::BadPrice),
            Some(price) => Ok(price),
        },
    }
}

/// How a remote order ended, if it did.
pub fn remote_terminal(record: &SimulationOrderRecord) -> (r: Result<
    Option<RemoteTerminal>,
    RemoteError,
>)
    ensures
        r == terminal(record@),
{
    if record.quantity <= 0 || record.cancelled_quantity < 0 || record.cancelled_quantity
        > record.quantity {
        return Err(RemoteError::Partition);
    }
    if text_eq(record.remark.as_str(), "全部撤单") && record.cancelled_quantity == record.quantity {
        return Ok(Some(RemoteTerminal::Cancelled));
    }
    if text_eq(record.remark.as_str(), "全部成交") && record.cancelled_quantity == 0 {
        let price = price_shown(record)?;
        if !price.is_positive() {
            return Err(RemoteError::NonPositivePrice);
        }
        return Ok(Some(RemoteTerminal::Filled));
    }
    Ok(None)
}

/// Whether a remote order is the one that was staged.
pub open spec fn matches_intent(r: SimulationOrderRecordView, i: StagedIntentView) -> bool {
    r.symbol == i.symbol && r.direction == i.direction && r.quantity == i.quantity
        && r.order_price.units() == i.limit_price.units()
}

/// Whether a remote order is the one that was staged.
pub fn remote_order_matches_intent(record: &SimulationOrderRecord, intent: &StagedIntent) -> (r:
    bool)
    ensures
        r == matches_intent(record@, intent@),
{
    text_eq(record.symbol.as_str(), intent.symbol.as_str()) && record.direction == intent.direction
        && record.quantity == intent.quantity && record.order_price.equals(&intent.limit_price)
}

/// Whether a contract is among the first `n` remote orders.
pub open spec fn seen(records: Seq<SimulationOrderRecordView>, n: int, contract: Seq<char>) -> bool {
    exists|j: int| 0 <= j < n && (#[trigger] records[j]).contract_id == contract
}

fn is_seen(records: &Vec<SimulationOrderRecord>, n: usize, contract: &str) -> (r: bool)
    requires
        n <= records@.len(),
    ensures
        r == seen(records.deep_view(), n as int, contract@),
{
    let ghost all = records.deep_view();
    let mut j: usize = 0;
    while j < n
        invariant
            j <= n <= records@.len(),
            all == records.deep_view(),
            forall|k: int| 0 <= k < j ==> (#[trigger] all[k]).contract_id != contract@,
        decreases n - j,
    {
        assert(all[j as int] == records[j as int]@);
        if text_eq(records[j].contract_id.as_str(), contract) {
            return true;
        }
        j = j + 1;
    }
    false
}

/// The contracts that are open and not among the known ones, of the first `n`
/// remote orders.
pub open spec fn open_contracts(
    records: Seq<SimulationOrderRecordView>,
    known: Seq<Seq<char>>,
    n: nat,
) -> Seq<Seq<char>>
    decreases n,
{
    if n == 0 {
        Seq::empty()
    } else {
        let before = open_contracts(records, known, (n - 1) as nat);
        let r = records[n - 1];
        if !(terminal(r) matches Ok(Some(_))) && !known.contains(r.contract_id) {
            before.push(r.contract_id)
        } else {
            before
        }
    }
}

/// The contracts that are open, or cannot be judged, and are not known.
pub fn untracked_open_contracts(
    records: &Vec<SimulationOrderRecord>,
    known_contracts: &Vec<String>,
) -> (r: Vec<String>)
    ensures
        r.deep_view() == open_contracts(
            records.deep_view(),
            known_contracts.deep_view(),
            records.deep_view().len(),
        ),
{
    let ghost all = records.deep_view();
    let ghost known = known_contracts.deep_view();
    let mut out: Vec<String> = Vec::new();
    assert(out.deep_view() =~= Seq::<Seq<char>>::empty());
    let mut i: usize = 0;
    while i < records.len()
        invariant
            i <= records.len(),
            all == records.deep_view(),
            known == known_contracts.deep_view(),
            out.deep_view() == open_contracts(all, known, i as nat),
        decreases records.len() - i,
    {
        assert(all[i as int] == records[i as int]@);
        let ended = match remote_terminal(&records[i]) {
            Ok(Some(_)) => true,
            _ => false,
        };
        let ghost before = out.deep_view();
        if !ended && !text_list_contains(known_contracts, records[i].contract_id.as_str()) {
            out.push(records[i].contract_id.dup());
            assert(out.deep_view() =~= before.push(all[i as int].contract_id));
        }
        i = i + 1;
    }
    out
}

/// Whether nobody knows what became of a staged order.
pub open spec fn ambiguous(i: StagedIntentView) -> bool {
    i.state == StagedIntentState::Ambiguous || (i.cancel_state == StagedCancelState::Ambiguous
        && i.terminal_resolution == StagedTerminalResolution::Unresolved)
}

/// The contracts that staged orders are bound to.
pub ghost enum Bindings {
    /// Each contract with its staged order.
    Bound(Seq<(Seq<char>, StagedIntentView)>),
    /// The staged order of which nobody knows what became.
    Ambiguous(Seq<char>),
    /// Two staged orders are bound to one contract.
    Twice,
}

/// The contracts that the first `n` staged orders are bound to.
pub open spec fn bindings(intents: Seq<StagedIntentView>, n: nat) -> Bindings
    decreases n,
{
    if n == 0 {
        Bindings::Bound(Seq::empty())
    } else {
        match bindings(intents, (n - 1) as nat) {
            Bindings::Bound(known) => {
                let i = intents[n - 1];
                if ambiguous(i) {
                    Bindings::Ambiguous(i.intent_id)
                } else {
                    match i.remote_contract_id {
                        None => Bindings::Bound(known),
                        Some(contract) => if holds_key::<String, StagedIntentView>(
                            known,
                            contract,
                        ) {
                            Bindings::Twice
                        } else {
                            Bindings::Bound(with::<String, StagedIntentView>(known, contract, i))
                        },
                    }
                }
            },
            stopped => stopped,
        }
    }
}

proof fn lemma_bindings_stop(intents: Seq<StagedIntentView>, n: nat, m: nat)
    requires
        n <= m,
        !(bindings(intents, n) is Bound),
    ensures
        bindings(intents, m) == bindings(intents, n),
    decreases m - n,
{
    if n < m {
        lemma_bindings_stop(intents, n, (m - 1) as nat);
    }
}

/// What is wrong with a remote order of a bound contract, if anything is.
pub open spec fn bound_violation(
    r: SimulationOrderRecordView,
    i: StagedIntentView,
    ended: Option<RemoteTerminal>,
    require_terminal: bool,
) -> Option<Seq<char>> {
    if !matches_intent(r, i) {
        Some(r.contract_id + " no longer matches its durable order intent"@)
    } else if i.cancel_state == StagedCancelState::Ambiguous && ended == Some(
        RemoteTerminal::Filled,
    ) && i.terminal_resolution == StagedTerminalResolution::Filled {
        None
    } else if i.cancel_state == StagedCancelState::Cancelled {
        if ended == Some(RemoteTerminal::Cancelled) {
            None
        } else {
            Some(r.contract_id + " is durably CANCELLED but the UI is not fully cancelled"@)
        }
    } else if i.cancel_state == StagedCancelState::NotRequested && ended == Some(
        RemoteTerminal::Cancelled,
    ) {
        Some(r.contract_id + " was cancelled without a durable cancel request"@)
    } else if i.cancel_state == StagedCancelState::Cancelling && ended == Some(
        RemoteTerminal::Filled,
    ) {
        Some(r.contract_id + " filled while durable cancellation is pending"@)
    } else if ended is None && require_terminal {
        Some(r.contract_id + " remains non-terminal after durable outbox reconciliation"@)
    } else {
        None
    }
}

/// What is wrong with the remote order at `n`, if anything is.
pub open spec fn record_violation(
    records: Seq<SimulationOrderRecordView>,
    known: Seq<(Seq<char>, StagedIntentView)>,
    require_terminal: bool,
    n: int,
) -> Result<Option<Seq<char>>, RemoteError> {
    let r = records[n];
    if seen(records, n, r.contract_id) {
        Ok(Some(r.contract_id + " appears more than once in the reviewed order table"@))
    } else {
        match terminal(r) {
            Err(e) => Err(e),
            Ok(ended) => match lookup::<String, StagedIntentView>(known, r.contract_id) {
                None => if ended is None {
                    Ok(
                        Some(
                            r.contract_id + " is untracked and non-terminal ("@ + r.remark + ")"@,
                        ),
                    )
                } else {
                    Ok(None)
                },
                Some(i) => Ok(bound_violation(r, i, ended, require_terminal)),
            },
        }
    }
}

/// What is wrong with the first `n` remote orders.
pub open spec fn record_violations(
    records: Seq<SimulationOrderRecordView>,
    known: Seq<(Seq<char>, StagedIntentView)>,
    require_terminal: bool,
    n: nat,
) -> Result<Seq<Seq<char>>, RemoteError>
    decreases n,
{
    if n == 0 {
        Ok(Seq::empty())
    } else {
        match record_violations(records, known, require_terminal, (n - 1) as nat) {
            Err(e) => Err(e),
            Ok(list) => match record_violation(records, known, require_terminal, n - 1) {
                Err(e) => Err(e),
                Ok(None) => Ok(list),
                Ok(Some(text)) => Ok(list.push(text)),
            },
        }
    }
}

proof fn lemma_violations_stop(
    records: Seq<SimulationOrderRecordView>,
    known: Seq<(Seq<char>, StagedIntentView)>,
    require_terminal: bool,
    n: nat,
    m: nat,
)
    requires
        n <= m,
        record_violations(records, known, require_terminal, n) is Err,
    ensures
        record_violations(records, known, require_terminal, m) == record_violations(
            records,
            known,
            require_terminal,
            n,
        ),
    decreases m - n,
{
    if n < m {
        lemma_violations_stop(records, known, require_terminal, n, (m - 1) as nat);
    }
}

/// Whether a staged order needs no remote order: its fill is stored.
pub open spec fn stored_fill(i: StagedIntentView) -> bool {
    i.terminal_resolution == StagedTerminalResolution::Filled && i.has_terminal_evidence
}

/// The violations of the first `n` bound contracts: those that are missing.
pub open spec fn missing_contracts(
    records: Seq<SimulationOrderRecordView>,
    known: Seq<(Seq<char>, StagedIntentView)>,
    n: nat,
) -> Seq<Seq<char>>
    decreases n,
{
    if n == 0 {
        Seq::empty()
    } else {
        let before = missing_contracts(records, known, (n - 1) as nat);
        let entry = known[n - 1];
        if seen(records, records.len() as int, entry.0) || stored_fill(entry.1) {
            before
        } else {
            before.push(entry.0 + " is durably bound but missing from the reviewed order table"@)
        }
    }
}

/// What is wrong with the remote orders.
pub open spec fn contract_violations(
    records: Seq<SimulationOrderRecordView>,
    intents: Seq<StagedIntentView>,
    require_terminal: bool,
) -> Result<Seq<Seq<char>>, RemoteError> {
    match bindings(intents, intents.len()) {
        Bindings::Twice => Err(RemoteError::BoundTwice),
        Bindings::Ambiguous(id) => Ok(seq![id + " is AMBIGUOUS"@]),
        Bindings::Bound(known) => match record_violations(
            records,
            known,
            require_terminal,
            records.len(),
        ) {
            Err(e) => Err(e),
            Ok(list) => Ok(list + missing_contracts(records, known, known.len())),
        },
    }
}

fn judge_bound(
    record: &SimulationOrderRecord,
    intent: &StagedIntent,
    ended: Option<RemoteTerminal>,
    require_terminal: bool,
) -> (r: Option<String>)
    ensures
        r.deep_view() == bound_violation(record@, intent@, ended, require_terminal),
{
    let id = record.contract_id.as_str();
    if !remote_order_matches_intent(record, intent) {
        return Some(join(id, " no longer matches its durable order intent"));
    }
    let filled = ended == Some(RemoteTerminal::Filled);
    let cancelled = ended == Some(RemoteTerminal::Cancelled);
    if intent.cancel_state == StagedCancelState::Ambiguous && filled && intent.terminal_resolution
        == StagedTerminalResolution::Filled {
        return None;
    }
    if intent.cancel_state == StagedCancelState::Cancelled {
        if cancelled {
            return None;
        }
        return Some(join(id, " is durably CANCELLED but the UI is not fully cancelled"));
    }
    if intent.cancel_state == StagedCancelState::NotRequested && cancelled {
        return Some(join(id, " was cancelled without a durable cancel request"));
    }
    if intent.cancel_state == StagedCancelState::Cancelling && filled {
        return Some(join(id, " filled while durable cancellation is pending"));
    }
    if ended.is_none() && require_terminal {
        return Some(join(id, " remains non-terminal after durable outbox reconciliation"));
    }
    None
}

fn judge_record(
    records: &Vec<SimulationOrderRecord>,
    known: &Table<String, StagedIntent>,
    require_terminal: bool,
    n: usize,
) -> (r: Result<Option<String>, RemoteError>)
    requires
        n < records@.len(),
    ensures
        match record_violation(records.deep_view(), known@, require_terminal, n as int) {
            Ok(v) => r matches Ok(x) && x.deep_view() == v,
            Err(e) => r matches Err(x) && x == e,
        },
{
    let ghost all = records.deep_view();
    assert(all[n as int] == records[n as int]@);
    let record = &records[n];
    let id = record.contract_id.as_str();
    if is_seen(records, n, id) {
        return Ok(Some(join(id, " appears more than once in the reviewed order table")));
    }
    let ended = remote_terminal(record)?;
    match known.get(&record.contract_id) {
        None => {
            if ended.is_none() {
                let opened = join(id, " is untracked and non-terminal (");
                let named = join(opened.as_str(), record.remark.as_str());
                Ok(Some(join(named.as_str(), ")")))
            } else {
                Ok(None)
            }
        },
        Some(intent) => Ok(judge_bound(record, intent, ended, require_terminal)),
    }
}

/// What is wrong with the remote orders, each as a sentence.
pub fn remote_contract_violations_with_mode(
    records: &Vec<SimulationOrderRecord>,
    intents: &Vec<StagedIntent>,
    require_bound_terminal: bool,
) -> (r: Result<Vec<String>, RemoteError>)
    ensures
        match contract_violations(
            records.deep_view(),
            intents.deep_view(),
            require_bound_terminal,
        ) {
            Ok(list) => r matches Ok(x) && x.deep_view() == list,
            Err(e) => r matches Err(x) && x == e,
        },
{
    let ghost staged = intents.deep_view();
    let ghost all = records.deep_view();
    let mut known: Table<String, StagedIntent> = Table::new();
    let mut i: usize = 0;
    while i < intents.len()
        invariant
            i <= intents.len(),
            staged == intents.deep_view(),
            bindings(staged, i as nat) == Bindings::Bound(known@),
        decreases intents.len() - i,
    {
        assert(staged[i as int] == intents[i as int]@);
        let intent = &intents[i];
        let ghost one_more = bindings(staged, (i + 1) as nat);
        if intent.state == StagedIntentState::Ambiguous || (intent.cancel_state
            == StagedCancelState::Ambiguous && intent.terminal_resolution
            == StagedTerminalResolution::Unresolved) {
            proof {
                lemma_bindings_stop(staged, (i + 1) as nat, staged.len());
            }
            let mut out: Vec<String> = Vec::new();
            out.push(join(intent.intent_id.as_str(), " is AMBIGUOUS"));
            assert(out.deep_view() =~= seq![staged[i as int].intent_id + " is AMBIGUOUS"@]);
            return Ok(out);
        }
        if let Some(contract) = &intent.remote_contract_id {
            if known.contains(contract) {
                proof {
                    lemma_bindings_stop(staged, (i + 1) as nat, staged.len());
                }
                return Err(RemoteError::BoundTwice);
            }
            known.put(contract.dup(), intent.dup());
        }
        i = i + 1;
    }
    let ghost bound = known@;
    let mut out: Vec<String> = Vec::new();
    assert(out.deep_view() =~= Seq::<Seq<char>>::empty());
    let mut k: usize = 0;
    while k < records.len()
        invariant
            k <= records.len(),
            all == records.deep_view(),
            staged == intents.deep_view(),
            bound == known@,
            bindings(staged, staged.len()) == Bindings::Bound(bound),
            record_violations(all, bound, require_bound_terminal, k as nat) == Ok::<
                Seq<Seq<char>>,
                RemoteError,
            >(out.deep_view()),
        decreases records.len() - k,
    {
        let ghost before = out.deep_view();
        match judge_record(records, &known, require_bound_terminal, k) {
            Err(e) => {
                proof {
                    lemma_violations_stop(
                        all,
                        bound,
                        require_bound_terminal,
                        (k + 1) as nat,
                        all.len(),
                    );
                }
                return Err(e);
            },
            Ok(None) => {},
            Ok(Some(text)) => {
                let ghost t = text@;
                out.push(text);
                assert(out.deep_view() =~= before.push(t));
            },
        }
        k = k + 1;
    }
    let ghost of_records = out.deep_view();
    let end: usize = known.len();
    let mut m: usize = 0;
    assert(of_records + missing_contracts(all, bound, 0) =~= of_records);
    while m < end
        invariant
            m <= end == bound.len(),
            all == records.deep_view(),
            bound == known@,
            out.deep_view() == of_records + missing_contracts(all, bound, m as nat),
        decreases end - m,
    {
        let id = known.key_at(m);
        let intent = known.value_at(m);
        let ghost before = out.deep_view();
        if !is_seen(records, records.len(), id.as_str()) && !(intent.terminal_resolution
            == StagedTerminalResolution::Filled && intent.has_terminal_evidence) {
            let text = join(
                id.as_str(),
                " is durably bound but missing from the reviewed order table",
            );
            let ghost t = text@;
            out.push(text);
            assert(out.deep_view() =~= before.push(t));
            assert(out.deep_view() =~= of_records + missing_contracts(all, bound, (m + 1) as nat));
        }
        m = m + 1;
    }
    Ok(out)
}

/// What is wrong with the remote orders where every bound one has to have ended.
pub fn remote_contract_violations(
    records: &Vec<SimulationOrderRecord>,
    intents: &Vec<StagedIntent>,
) -> (r: Result<Vec<String>, RemoteError>)
    ensures
        match contract_violations(records.deep_view(), intents.deep_view(), true) {
            Ok(list) => r matches Ok(x) && x.deep_view() == list,
            Err(e) => r matches Err(x) && x == e,
        },
{
    remote_contract_violations_with_mode(records, intents, true)
}

/// The fill that an event records, if it is one of an order.
pub open spec fn recorded_fill(e: EventEnvelopeView) -> Result<Option<FillView>, RemoteError> {
    if e.event_type == EventType::OrderPartiallyFilled || e.event_type == EventType::OrderFilled {
        match e.payload {
            PayloadView::Fill(n) => match n.fill {
                Some(f) => Ok(Some(f)),
                None => Err(RemoteError::NoFill),
            },
            _ => Err(RemoteError::NoFill),
        }
    } else {
        Ok(None)
    }
}

/// What was modeled of the fills of an order, with one more fill.
pub open spec fn one_more_fill(held: Option<ModeledFillView>, f: FillView) -> Result<
    ModeledFillView,
    RemoteError,
> {
    match times(f.price, Decimal::whole(f.quantity as int)) {
        None => Err(RemoteError::Notional),
        Some(amount) => {
            let before = match held {
                Some(m) => m,
                None => ModeledFillView {
                    direction: f.direction,
                    quantity: 0,
                    notional: Decimal::zero(),
                },
            };
            if before.direction != f.direction {
                Err(RemoteError::DirectionChanged)
            } else if !(i64::MIN <= before.quantity + f.quantity <= i64::MAX) {
                Err(RemoteError::Quantity)
            } else {
                match plus(before.notional, amount) {
                    None => Err(RemoteError::Notional),
                    Some(notional) => Ok(
                        ModeledFillView {
                            direction: before.direction,
                            quantity: (before.quantity + f.quantity) as i64,
                            notional,
                        },
                    ),
                }
            }
        },
    }
}

/// What the first `n` events modeled of the fills of each order.
pub open spec fn modeled(events: Seq<EventEnvelopeView>, n: nat) -> Result<
    Seq<(Seq<char>, ModeledFillView)>,
    RemoteError,
>
    decreases n,
{
    if n == 0 {
        Ok(Seq::empty())
    } else {
        match modeled(events, (n - 1) as nat) {
            Err(e) => Err(e),
            Ok(fills) => match recorded_fill(events[n - 1]) {
                Err(e) => Err(e),
                Ok(None) => Ok(fills),
                Ok(Some(f)) => match one_more_fill(
                    lookup::<String, ModeledFillView>(fills, f.order_id),
                    f,
                ) {
                    Err(e) => Err(e),
                    Ok(m) => Ok(with::<String, ModeledFillView>(fills, f.order_id, m)),
                },
            },
        }
    }
}

proof fn lemma_modeled_stops(events: Seq<EventEnvelopeView>, n: nat, m: nat)
    requires
        n <= m,
        modeled(events, n) is Err,
    ensures
        modeled(events, m) == modeled(events, n),
    decreases m - n,
{
    if n < m {
        lemma_modeled_stops(events, n, (m - 1) as nat);
    }
}

fn add_fill(held: Option<&ModeledFill>, f: &Fill) -> (r: Result<ModeledFill, RemoteError>)
    ensures
        match one_more_fill(
            match held {
                Some(m) => Some(m@),
                None => None,
            },
            f@,
        ) {
            Ok(m) => r matches Ok(x) && x@ == m,
            Err(e) => r matches Err(x) && x == e,
        },
{
    let amount = match f.price.checked_mul(Decimal::from_i64(f.quantity)) {
        Some(amount) => amount,
        None => {
            return Err(RemoteError::Notional);
        },
    };
    let (quantity, notional): (i64, Decimal) = match held {
        Some(m) => {
            if m.direction != f.direction {
                return Err(RemoteError::DirectionChanged);
            }
            (m.quantity, m.notional)
        },
        None => (0, Decimal::nil()),
    };
    let quantity: i64 = match quantity.checked_add(f.quantity) {
        Some(q) => q,
        None => {
            return Err(RemoteError::Quantity);
        },
    };
    match notional.checked_add(amount) {
        Some(notional) => Ok(ModeledFill { direction: f.direction, quantity, notional }),
        None => Err(RemoteError::Notional),
    }
}

/// What some events modeled of the fills of each order.
pub fn load_modeled_fills(events: &Vec<EventEnvelope>) -> (r: Result<
    Table<String, ModeledFill>,
    RemoteError,
>)
    ensures
        match modeled(events.deep_view(), events.deep_view().len()) {
            Ok(fills) => r matches Ok(x) && x@ == fills,
            Err(e) => r matches Err(x) && x == e,
        },
{
    let ghost all = events.deep_view();
    let mut fills: Table<String, ModeledFill> = Table::new();
    let mut i: usize = 0;
    while i < events.len()
        invariant
            i <= events.len(),
            all == events.deep_view(),
            modeled(all, i as nat) == Ok::<Seq<(Seq<char>, ModeledFillView)>, RemoteError>(fills@),
        decreases events.len() - i,
    {
        assert(all[i as int] == events[i as int]@);
        let event = &events[i];
        if event.event_type == EventType::OrderPartiallyFilled || event.event_type
            == EventType::OrderFilled {
            let fill = match &event.payload {
                Payload::Fill(n) => n.fill.as_ref(),
                _ => None,
            };
            let fill = match fill {
                Some(f) => f,
                None => {
                    proof {
                        lemma_modeled_stops(all, (i + 1) as nat, all.len());
                    }
                    return Err(RemoteError::NoFill);
                },
            };
            match add_fill(fills.get(&fill.order_id), fill) {
                Ok(m) => {
                    fills.put(fill.order_id.dup(), m);
                },
                Err(e) => {
                    proof {
                        lemma_modeled_stops(all, (i + 1) as nat, all.len());
                    }
                    return Err(e);
                },
            }
        }
        i = i + 1;
    }
    Ok(fills)
}

/// The last remote order of a contract.
pub open spec fn last_record(
    records: Seq<SimulationOrderRecordView>,
    contract: Seq<char>,
    n: nat,
) -> Option<SimulationOrderRecordView>
    decreases n,
{
    if n == 0 {
        None
    } else if records[n - 1].contract_id == contract {
        Some(records[n - 1])
    } else {
        last_record(records, contract, (n - 1) as nat)
    }
}

fn find_record<'a>(records: &'a Vec<SimulationOrderRecord>, contract: &str) -> (r: Option<
    &'a SimulationOrderRecord,
>)
    ensures
        match r {
            Some(x) => last_record(records.deep_view(), contract@, records.deep_view().len())
                == Some(x@),
            None => last_record(records.deep_view(), contract@, records.deep_view().len()) is None,
        },
{
    let ghost all = records.deep_view();
    let mut n: usize = records.len();
    while n > 0
        invariant
            n <= records.len(),
            all == records.deep_view(),
            last_record(all, contract@, all.len()) == last_record(all, contract@, n as nat),
        decreases n,
    {
        assert(all[n - 1] == records[n - 1]@);
        if text_eq(records[n - 1].contract_id.as_str(), contract) {
            return Some(&records[n - 1]);
        }
        n = n - 1;
    }
    None
}

/// Whether a fill of the evidence is one of a staged order, and new among the
/// first `n`.
pub open spec fn evidence_fill_fits(
    fills: Seq<RemoteFillView>,
    contract: Seq<char>,
    i: StagedIntentView,
    n: int,
) -> bool {
    let f = fills[n];
    f.contract_id == contract && f.symbol == i.symbol && f.direction == i.direction && !(exists|
        j: int,
    |
        0 <= j < n && (#[trigger] fills[j]).fill_id == f.fill_id)
}

/// The quantity and the amount of the first `n` fills of the evidence.
pub open spec fn evidence_totals(
    fills: Seq<RemoteFillView>,
    contract: Seq<char>,
    i: StagedIntentView,
    n: nat,
) -> Result<(i64, Decimal), RemoteError>
    decreases n,
{
    if n == 0 {
        Ok((0i64, Decimal::zero()))
    } else {
        match evidence_totals(fills, contract, i, (n - 1) as nat) {
            Err(e) => Err(e),
            Ok((quantity, amount)) => if !evidence_fill_fits(fills, contract, i, n - 1) {
                Err(RemoteError::EvidenceFill)
            } else if !(i64::MIN <= quantity + fills[n - 1].quantity <= i64::MAX) {
                Err(RemoteError::EvidenceQuantity)
            } else {
                match plus(amount, fills[n - 1].amount) {
                    None => Err(RemoteError::EvidenceAmount),
                    Some(more) => Ok(((quantity + fills[n - 1].quantity) as i64, more)),
                }
            },
        }
    }
}

proof fn lemma_evidence_stops(
    fills: Seq<RemoteFillView>,
    contract: Seq<char>,
    i: StagedIntentView,
    n: nat,
    m: nat,
)
    requires
        n <= m,
        evidence_totals(fills, contract, i, n) is Err,
    ensures
        evidence_totals(fills, contract, i, m) == evidence_totals(fills, contract, i, n),
    decreases m - n,
{
    if n < m {
        lemma_evidence_stops(fills, contract, i, n, (m - 1) as nat);
    }
}

/// The price of the stored evidence of a fill.
pub open spec fn evidence_price(contract: Seq<char>, i: StagedIntentView, quantity: i64) -> Result<
    Decimal,
    RemoteError,
> {
    if !i.has_terminal_evidence {
        Err(RemoteError::NoEvidence)
    } else {
        match i.terminal_evidence {
            None => Err(RemoteError::BadEvidence),
            Some(v) => if v.evidence_contract_version != 1 || v.contract_id != contract {
                Err(RemoteError::EvidenceContract)
            } else {
                match evidence_totals(v.fills, contract, i, v.fills.len()) {
                    Err(e) => Err(e),
                    Ok((total, amount)) => if total != quantity {
                        Err(RemoteError::EvidenceTotal)
                    } else {
                        match over(amount, Decimal::whole(total as int)) {
                            None => Err(RemoteError::EvidencePrice),
                            Some(price) => Ok(price),
                        }
                    },
                }
            },
        }
    }
}

fn has_fill_id(fills: &Vec<RemoteFill>, n: usize, id: &str) -> (r: bool)
    requires
        n <= fills@.len(),
    ensures
        r == exists|j: int| 0 <= j < n && (#[trigger] fills.deep_view()[j]).fill_id == id@,
{
    let ghost all = fills.deep_view();
    let mut j: usize = 0;
    while j < n
        invariant
            j <= n <= fills@.len(),
            all == fills.deep_view(),
            forall|k: int| 0 <= k < j ==> (#[trigger] all[k]).fill_id != id@,
        decreases n - j,
    {
        assert(all[j as int] == fills[j as int]@);
        if text_eq(fills[j].fill_id.as_str(), id) {
            return true;
        }
        j = j + 1;
    }
    false
}

fn total_evidence(fills: &Vec<RemoteFill>, contract: &str, intent: &StagedIntent) -> (r: Result<
    (i64, Decimal),
    RemoteError,
>)
    ensures
        r == evidence_totals(fills.deep_view(), contract@, intent@, fills.deep_view().len()),
{
    let ghost all = fills.deep_view();
    let mut quantity: i64 = 0;
    let mut amount = Decimal::nil();
    let mut n: usize = 0;
    while n < fills.len()
        invariant
            n <= fills.len(),
            all == fills.deep_view(),
            evidence_totals(all, contract@, intent@, n as nat) == Ok::<(i64, Decimal), RemoteError>(
                (quantity, amount),
            ),
        decreases fills.len() - n,
    {
        assert(all[n as int] == fills[n as int]@);
        let f = &fills[n];
        let ghost more = (n + 1) as nat;
        let fits = text_eq(f.contract_id.as_str(), contract) && text_eq(
            f.symbol.as_str(),
            intent.symbol.as_str(),
        ) && f.direction == intent.direction && !has_fill_id(fills, n, f.fill_id.as_str());
        assert(fits == evidence_fill_fits(all, contract@, intent@, n as int));
        proof {
            if evidence_totals(all, contract@, intent@, more) is Err {
                lemma_evidence_stops(all, contract@, intent@, more, all.len());
            }
        }
        if !fits {
            return Err(RemoteError::EvidenceFill);
        }
        quantity = match quantity.checked_add(f.quantity) {
            Some(q) => q,
            None => {
                return Err(RemoteError::EvidenceQuantity);
            },
        };
        amount = match amount.checked_add(f.amount) {
            Some(a) => a,
            None => {
                return Err(RemoteError::EvidenceAmount);
            },
        };
        n = n + 1;
    }
    Ok((quantity, amount))
}

fn price_of_evidence(contract: &str, intent: &StagedIntent, quantity: i64) -> (r: Result<
    Decimal,
    RemoteError,
>)
    ensures
        r == evidence_price(contract@, intent@, quantity),
{
    if !intent.has_terminal_evidence {
        return Err(RemoteError::NoEvidence);
    }
    match &intent.terminal_evidence {
        None => Err(RemoteError::BadEvidence),
        Some(v) => {
            if v.evidence_contract_version != 1 || !text_eq(v.contract_id.as_str(), contract) {
                return Err(RemoteError::EvidenceContract);
            }
            let (total, amount): (i64, Decimal) = total_evidence(&v.fills, contract, intent)?;
            if total != quantity {
                return Err(RemoteError::EvidenceTotal);
            }
            match amount.checked_div(Decimal::from_i64(total)) {
                None => Err(RemoteError::EvidencePrice),
                Some(price) => Ok(price),
            }
        },
    }
}

/// How the contract of a staged order ended: as its remote order shows, or as
/// it is stored where there is none.
pub open spec fn ended_as(record: Option<SimulationOrderRecordView>, i: StagedIntentView) -> Result<
    Option<RemoteTerminal>,
    RemoteError,
> {
    match record {
        Some(r) => terminal(r),
        None => if i.terminal_resolution == StagedTerminalResolution::Filled {
            Ok(Some(RemoteTerminal::Filled))
        } else {
            Ok(None)
        },
    }
}

/// The price that a filled contract was filled at.
pub open spec fn remote_price(
    record: Option<SimulationOrderRecordView>,
    contract: Seq<char>,
    i: StagedIntentView,
    quantity: i64,
) -> Result<Decimal, RemoteError> {
    if i.terminal_resolution == StagedTerminalResolution::Filled {
        evidence_price(contract, i, quantity)
    } else {
        match record {
            None => Err(RemoteError::NoPrice),
            Some(r) => shown_price(r),
        }
    }
}

/// Whether a price is no worse than the modeled one.
pub open spec fn no_worse(direction: Direction, price: Decimal, modeled_price: Decimal) -> bool {
    match direction {
        Direction::Buy => price.units() <= modeled_price.units(),
        Direction::Sell => price.units() >= modeled_price.units(),
    }
}

/// Why a filled contract is not covered by the model, if it is not.
pub open spec fn filled_fault(
    record: Option<SimulationOrderRecordView>,
    contract: Seq<char>,
    i: StagedIntentView,
    held: Option<ModeledFillView>,
) -> Option<RemoteError> {
    match held {
        None => Some(RemoteError::NotModeled),
        Some(m) => if m.direction != i.direction || m.quantity != i.quantity {
            Some(RemoteError::PartlyModeled)
        } else {
            match over(m.notional, Decimal::whole(m.quantity as int)) {
                None => Some(RemoteError::ModeledPrice),
                Some(average) => match remote_price(record, contract, i, m.quantity) {
                    Err(e) => Some(e),
                    Ok(price) => if no_worse(m.direction, price, average) {
                        None
                    } else {
                        Some(RemoteError::Worse)
                    },
                },
            }
        },
    }
}

/// Why a staged order is not covered by the model, if it is not.
pub open spec fn dominance_fault(
    records: Seq<SimulationOrderRecordView>,
    i: StagedIntentView,
    fills: Seq<(Seq<char>, ModeledFillView)>,
) -> Option<RemoteError> {
    match i.remote_contract_id {
        None => None,
        Some(contract) => {
            let record = last_record(records, contract, records.len());
            let held = lookup::<String, ModeledFillView>(fills, i.order_id);
            match ended_as(record, i) {
                Err(e) => Some(e),
                Ok(Some(RemoteTerminal::Filled)) => filled_fault(record, contract, i, held),
                Ok(Some(RemoteTerminal::Cancelled)) => if held is Some {
                    Some(RemoteError::CancelledAfterFill)
                } else {
                    None
                },
                Ok(None) => None,
            }
        },
    }
}

/// The first fault of the first `n` staged orders.
pub open spec fn first_dominance_fault(
    records: Seq<SimulationOrderRecordView>,
    intents: Seq<StagedIntentView>,
    fills: Seq<(Seq<char>, ModeledFillView)>,
    n: nat,
) -> Option<RemoteError>
    decreases n,
{
    if n == 0 {
        None
    } else {
        match first_dominance_fault(records, intents, fills, (n - 1) as nat) {
            Some(e) => Some(e),
            None => dominance_fault(records, intents[n - 1], fills),
        }
    }
}

proof fn lemma_dominance_stops(
    records: Seq<SimulationOrderRecordView>,
    intents: Seq<StagedIntentView>,
    fills: Seq<(Seq<char>, ModeledFillView)>,
    n: nat,
    m: nat,
)
    requires
        n <= m,
        first_dominance_fault(records, intents, fills, n) is Some,
    ensures
        first_dominance_fault(records, intents, fills, m) == first_dominance_fault(
            records,
            intents,
            fills,
            n,
        ),
    decreases m - n,
{
    if n < m {
        lemma_dominance_stops(records, intents, fills, n, (m - 1) as nat);
    }
}

fn check_filled(
    record: Option<&SimulationOrderRecord>,
    contract: &str,
    intent: &StagedIntent,
    held: Option<&ModeledFill>,
) -> (r: Option<RemoteError>)
    ensures
        r == filled_fault(
            match record {
                Some(x) => Some(x@),
                None => None,
            },
            contract@,
            intent@,
            match held {
                Some(x) => Some(x@),
                None => None,
            },
        ),
{
    let m = match held {
        Some(m) => m,
        None => {
            return Some(RemoteError::NotModeled);
        },
    };
    if m.direction != intent.direction || m.quantity != intent.quantity {
        return Some(RemoteError::PartlyModeled);
    }
    let average = match m.notional.checked_div(Decimal::from_i64(m.quantity)) {
        Some(average) => average,
        None => {
            return Some(RemoteError::ModeledPrice);
        },
    };
    let found = if intent.terminal_resolution == StagedTerminalResolution::Filled {
        price_of_evidence(contract, intent, m.quantity)
    } else {
        match record {
            None => Err(RemoteError::NoPrice),
            Some(x) => price_shown(x),
        }
    };
    let price = match found {
        Ok(price) => price,
        Err(e) => {
            return Some(e);
        },
    };
    let fair = match m.direction {
        Direction::Buy => price.at_most(&average),
        Direction::Sell => average.at_most(&price),
    };
    if fair {
        None
    } else {
        Some(RemoteError::Worse)
    }
}

fn check_dominance(
    records: &Vec<SimulationOrderRecord>,
    intent: &StagedIntent,
    fills: &Table<String, ModeledFill>,
) -> (r: Option<RemoteError>)
    ensures
        r == dominance_fault(records.deep_view(), intent@, fills@),
{
    let contract = match &intent.remote_contract_id {
        Some(contract) => contract.as_str(),
        None => {
            return None;
        },
    };
    let record = find_record(records, contract);
    let held = fills.get(&intent.order_id);
    let ended = match record {
        Some(x) => remote_terminal(x),
        None => if intent.terminal_resolution == StagedTerminalResolution::Filled {
            Ok(Some(RemoteTerminal::Filled))
        } else {
            Ok(None)
        },
    };
    match ended {
        Err(e) => Some(e),
        Ok(Some(RemoteTerminal::Filled)) => check_filled(record, contract, intent, held),
        Ok(Some(RemoteTerminal::Cancelled)) => if held.is_some() {
            Some(RemoteError::CancelledAfterFill)
        } else {
            None
        },
        Ok(None) => None,
    }
}

/// Checks that the model covers every remote fill: it recorded the whole fill, at
/// a price that is no better for the account than the remote one.
pub fn verify_remote_fill_dominance(
    records: &Vec<SimulationOrderRecord>,
    intents: &Vec<StagedIntent>,
    modeled_fills: &Table<String, ModeledFill>,
) -> (r: Result<(), RemoteError>)
    ensures
        r == (match first_dominance_fault(
            records.deep_view(),
            intents.deep_view(),
            modeled_fills@,
            intents.deep_view().len(),
        ) {
            Some(e) => Err::<(), RemoteError>(e),
            None => Ok::<(), RemoteError>(()),
        }),
{
    let ghost all = intents.deep_view();
    let mut i: usize = 0;
    while i < intents.len()
        invariant
            i <= intents.len(),
            all == intents.deep_view(),
            first_dominance_fault(records.deep_view(), all, modeled_fills@, i as nat) is None,
        decreases intents.len() - i,
    {
        assert(all[i as int] == intents[i as int]@);
        if let Some(e) = check_dominance(records, &intents[i], modeled_fills) {
            proof {
                lemma_dominance_stops(
                    records.deep_view(),
                    all,
                    modeled_fills@,
                    (i + 1) as nat,
                    all.len(),
                );
            }
            return Err(e);
        }
        i = i + 1;
    }
    Ok(())
}

/// Why the remote account does not let the strategy act.
pub enum PermitRefusal {
    /// The remote orders are not those that were staged.
    Violations(Vec<String>),
    /// The remote orders cannot be judged or are not covered by the model.
    Fault(RemoteError),
}

/// That the remote account lets the strategy act.
#[derive(Clone, Copy, Debug)]
pub struct RemoteTerminalPermit {
    granted: (),
}

/// Whether the remote account lets the strategy act.
pub open spec fn permitted(
    records: Seq<SimulationOrderRecordView>,
    intents: Seq<StagedIntentView>,
    fills: Seq<(Seq<char>, ModeledFillView)>,
) -> bool {
    (contract_violations(records, intents, true) matches Ok(list) && list.len() == 0)
        && first_dominance_fault(records, intents, fills, intents.len()) is None
}

/// Lets the strategy act where every remote order is one that was staged, has
/// ended and is covered by the model.
pub fn remote_terminal_permit_for_modeled(
    records: &Vec<SimulationOrderRecord>,
    intents: &Vec<StagedIntent>,
    modeled_fills: &Table<String, ModeledFill>,
) -> (r: Result<RemoteTerminalPermit, PermitRefusal>)
    ensures
        r is Ok == permitted(records.deep_view(), intents.deep_view(), modeled_fills@),
        r matches Err(PermitRefusal::Violations(list)) ==> contract_violations(
            records.deep_view(),
            intents.deep_view(),
            true,
        ) == Ok::<Seq<Seq<char>>, RemoteError>(list.deep_view()) && list@.len() > 0,
        r matches Err(PermitRefusal::Fault(e)) ==> (match contract_violations(
            records.deep_view(),
            intents.deep_view(),
            true,
        ) {
            Err(x) => x == e,
            Ok(list) => list.len() == 0 && first_dominance_fault(
                records.deep_view(),
                intents.deep_view(),
                modeled_fills@,
                intents.deep_view().len(),
            ) == Some(e),
        }),
{
    let violations = match remote_contract_violations_with_mode(records, intents, true) {
        Ok(list) => list,
        Err(e) => {
            return Err(PermitRefusal::Fault(e));
        },
    };
    if violations.len() > 0 {
        return Err(PermitRefusal::Violations(violations));
    }
    match verify_remote_fill_dominance(records, intents, modeled_fills) {
        Err(e) => Err(PermitRefusal::Fault(e)),
        Ok(()) => Ok(RemoteTerminalPermit { granted: () }),
    }
}

proof fn lemma_no_violations(
    records: Seq<SimulationOrderRecordView>,
    known: Seq<(Seq<char>, StagedIntentView)>,
    require_terminal: bool,
    n: nat,
    k: int,
)
    requires
        0 <= k < n,
        record_violations(records, known, require_terminal, n) matches Ok(list) && list.len() == 0,
    ensures
        record_violation(records, known, require_terminal, k) == Ok::<
            Option<Seq<char>>,
            RemoteError,
        >(None),
    decreases n,
{
    if k < n - 1 {
        lemma_no_violations(records, known, require_terminal, (n - 1) as nat, k);
    }
}

/// Where the strategy may act, every remote order has ended, and no contract
/// shows twice.
pub proof fn law_permits_leave_nothing_open(
    records: Seq<SimulationOrderRecordView>,
    intents: Seq<StagedIntentView>,
    fills: Seq<(Seq<char>, ModeledFillView)>,
    k: int,
)
    requires
        permitted(records, intents, fills),
        0 <= k < records.len(),
    ensures
        terminal(records[k]) matches Ok(Some(_)),
        !seen(records, k, records[k].contract_id),
{
    match bindings(intents, intents.len()) {
        Bindings::Bound(known) => {
            lemma_no_violations(records, known, true, records.len(), k);
        },
        _ => {},
    }
}

pub proof fn lemma_no_dominance_faults(
    records: Seq<SimulationOrderRecordView>,
    intents: Seq<StagedIntentView>,
    fills: Seq<(Seq<char>, ModeledFillView)>,
    n: nat,
    k: int,
)
    requires
        0 <= k < n,
        first_dominance_fault(records, intents, fills, n) is None,
    ensures
        dominance_fault(records, intents[k], fills) is None,
    decreases n,
{
    if k < n - 1 {
        lemma_no_dominance_faults(records, intents, fills, (n - 1) as nat, k);
    }
}

/// Where the strategy may act, a remote order that was filled is filled in the
/// model, with the same direction and quantity, and one that was cancelled is
/// not filled there.
pub proof fn law_permits_cover_every_fill(
    records: Seq<SimulationOrderRecordView>,
    intents: Seq<StagedIntentView>,
    fills: Seq<(Seq<char>, ModeledFillView)>,
    k: int,
)
    requires
        permitted(records, intents, fills),
        0 <= k < intents.len(),
        intents[k].remote_contract_id is Some,
    ensures
        ({
            let i = intents[k];
            let record = last_record(records, i.remote_contract_id->0, records.len());
            let held = lookup::<String, ModeledFillView>(fills, i.order_id);
            &&& ended_as(record, i) == Ok::<Option<RemoteTerminal>, RemoteError>(
                Some(RemoteTerminal::Filled),
            ) ==> held is Some && held->0.direction == i.direction && held->0.quantity == i.quantity
            &&& ended_as(record, i) == Ok::<Option<RemoteTerminal>, RemoteError>(
                Some(RemoteTerminal::Cancelled),
            ) ==> held is None
        }),
{
    lemma_no_dominance_faults(records, intents, fills, intents.len(), k);
}

} // verus!
