//! The inbox of commands: each is accepted once, in its turn, and carried out
//! before the next.
use crate::digest::{text_digest, text_sha256};
use crate::json::{quote, quoted};
use crate::model::commands::{
    ControlRow, ControlRowView, PendingWebCommand, PendingWebCommandView, ReceiptRow,
    ReceiptRowView, WebCommandOffer, WebCommandOfferView, WebCommandReceipt,
    WebCommandReceiptView, WebPlaybackControl,
};
use crate::text::{
    int_text, join, lemma_text_less_irreflexive, lemma_text_less_total,
    lemma_text_less_transitive, nat_text, signed_text, text_before, text_eq, text_less,
    unsigned_text,
};
use crate::value::Value;
use vstd::prelude::*;

verus! {

/// Why the inbox refuses.
#[derive(Clone, Copy, Debug, PartialEq, Eq, Structural)]
pub enum InboxError {
    /// The identifier of a request stands for another content.
    ContentChanged,
    /// The identifier of a request is taken in another run.
    RequestTaken,
    /// The stored target cannot be read.
    InvalidTarget,
    /// A command that was carried out lacks its response.
    MissingResponse,
    /// The stored state of a command is unknown.
    InvalidState,
    /// Another command of the run has not been carried out.
    AnotherPending,
    /// The run has gone on since the command was made.
    StaleSequence,
    /// Another command came in between.
    StaleVersion,
    /// Playback is active.
    PlaybackActive,
    /// Playback is not active.
    PlaybackInactive,
    /// There are no versions left.
    VersionExhausted,
    /// The target is too large.
    TargetTooLarge,
    /// The interval is too large.
    IntervalTooLarge,
    /// The stored interval cannot be read.
    InvalidInterval,
    /// There is no such command to complete.
    NotPending,
}

/// What came of a command that was offered.
pub enum WebCommandClaim {
    /// It had been accepted already.
    Existing(WebCommandReceipt),
    /// It has been accepted now.
    Claimed(WebCommandReceipt),
}

/// The content of [`WebCommandClaim`].
pub enum WebCommandClaimView {
    Existing(WebCommandReceiptView),
    Claimed(WebCommandReceiptView),
}

impl View for WebCommandClaim {
    type V = WebCommandClaimView;

    open spec fn view(&self) -> WebCommandClaimView {
        match *self {
            WebCommandClaim::Existing(r) => WebCommandClaimView::Existing(r@),
            WebCommandClaim::Claimed(r) => WebCommandClaimView::Claimed(r@),
        }
    }
}

/// The commands and the playback of all runs.
pub struct WebInbox {
    pub commands: Vec<ReceiptRow>,
    pub controls: Vec<ControlRow>,
}

/// The content of [`WebInbox`].
#[verifier::ext_equal]
pub struct WebInboxView {
    pub commands: Seq<ReceiptRowView>,
    pub controls: Seq<ControlRowView>,
}

impl View for WebInbox {
    type V = WebInboxView;

    open spec fn view(&self) -> WebInboxView {
        WebInboxView {
            commands: self.commands.deep_view(),
            controls: self.controls.deep_view(),
        }
    }
}

/// What a plan binds together, in JSON.
pub open spec fn plan_text(
    request_sha256: Seq<char>,
    command: Seq<char>,
    expected_sequence: i64,
    expected_version: i64,
    accepted_version: i64,
    target_processed_bars: u64,
    config_sha256: Seq<char>,
    algorithm_sha256: Seq<char>,
) -> Seq<char> {
    "{\"accepted_version\":"@ + int_text(accepted_version as int) + ",\"algorithm_sha256\":"@
        + quoted(algorithm_sha256) + ",\"command\":"@ + quoted(command) + ",\"config_sha256\":"@
        + quoted(config_sha256) + ",\"expected_sequence\":"@ + int_text(expected_sequence as int)
        + ",\"expected_version\":"@ + int_text(expected_version as int) + ",\"request_sha256\":"@
        + quoted(request_sha256) + ",\"target_processed_bars\":"@ + nat_text(
        target_processed_bars as nat,
    ) + "}"@
}

/// The digest of the plan of a command.
pub fn web_command_plan_sha256(
    request_sha256: &str,
    command: &str,
    expected_sequence: i64,
    expected_version: i64,
    accepted_version: i64,
    target_processed_bars: u64,
    runtime_identity: (&str, &str),
) -> (r: String)
    ensures
        r@ == text_digest(
            plan_text(
                request_sha256@,
                command@,
                expected_sequence,
                expected_version,
                accepted_version,
                target_processed_bars,
                runtime_identity.0@,
                runtime_identity.1@,
            ),
        ),
{
    let (config_sha256, algorithm_sha256) = runtime_identity;
    let t = join("{\"accepted_version\":", signed_text(accepted_version).as_str());
    let t = join(t.as_str(), ",\"algorithm_sha256\":");
    let t = join(t.as_str(), quote(algorithm_sha256).as_str());
    let t = join(t.as_str(), ",\"command\":");
    let t = join(t.as_str(), quote(command).as_str());
    let t = join(t.as_str(), ",\"config_sha256\":");
    let t = join(t.as_str(), quote(config_sha256).as_str());
    let t = join(t.as_str(), ",\"expected_sequence\":");
    let t = join(t.as_str(), signed_text(expected_sequence).as_str());
    let t = join(t.as_str(), ",\"expected_version\":");
    let t = join(t.as_str(), signed_text(expected_version).as_str());
    let t = join(t.as_str(), ",\"request_sha256\":");
    let t = join(t.as_str(), quote(request_sha256).as_str());
    let t = join(t.as_str(), ",\"target_processed_bars\":");
    let t = join(t.as_str(), unsigned_text(target_processed_bars as u128).as_str());
    let t = join(t.as_str(), "}");
    text_sha256(t.as_str())
}

/// The command of a run with an identifier among the first `n`.
pub open spec fn command_at(
    rows: Seq<ReceiptRowView>,
    run_id: Seq<char>,
    request_id: Seq<char>,
    n: nat,
) -> Option<int>
    decreases n,
{
    if n == 0 {
        None
    } else if rows[n - 1].run_id == run_id && rows[n - 1].request_id == request_id {
        Some(n - 1)
    } else {
        command_at(rows, run_id, request_id, (n - 1) as nat)
    }
}

/// The playback of a run among the first `n`.
pub open spec fn control_at(rows: Seq<ControlRowView>, run_id: Seq<char>, n: nat) -> Option<int>
    decreases n,
{
    if n == 0 {
        None
    } else if rows[n - 1].run_id == run_id {
        Some(n - 1)
    } else {
        control_at(rows, run_id, (n - 1) as nat)
    }
}

/// Whether a command has not been carried out.
pub open spec fn pending(row: ReceiptRowView) -> bool {
    row.receipt_state == "PENDING"@
}

/// Whether a command has been carried out.
pub open spec fn carried_out(row: ReceiptRowView) -> bool {
    row.receipt_state == "COMPLETED"@
}

/// Whether a run has a command that has not been carried out.
pub open spec fn run_pending(rows: Seq<ReceiptRowView>, run_id: Seq<char>) -> bool {
    exists|i: int| 0 <= i < rows.len() && (#[trigger] rows[i]).run_id == run_id && pending(rows[i])
}

/// The response that a row has come to.
pub open spec fn response_of(row: ReceiptRowView) -> Result<Option<Seq<char>>, InboxError> {
    if pending(row) {
        Ok(None)
    } else if carried_out(row) {
        match row.response_json {
            Some(t) => Ok(Some(t)),
            None => Err(InboxError::MissingResponse),
        }
    } else {
        Err(InboxError::InvalidState)
    }
}

/// The receipt of a row with a response.
pub open spec fn receipt_with(row: ReceiptRowView, response: Option<Seq<char>>) -> WebCommandReceiptView {
    WebCommandReceiptView {
        request_sha256: row.request_sha256,
        command: row.command,
        expected_sequence: row.expected_sequence,
        expected_version: row.expected_version,
        accepted_version: row.accepted_version,
        target_processed_bars: row.target_processed_bars as u64,
        completed_response_json: response,
        request_json: row.request_json,
        plan_sha256: row.plan_sha256,
        config_sha256: row.config_sha256,
        algorithm_sha256: row.algorithm_sha256,
    }
}

/// The receipt of a row.
pub open spec fn receipt_of(row: ReceiptRowView) -> Result<WebCommandReceiptView, InboxError> {
    match response_of(row) {
        Err(e) => Err(e),
        Ok(response) => if row.target_processed_bars < 0 {
            Err(InboxError::InvalidTarget)
        } else {
            Ok(receipt_with(row, response))
        },
    }
}

/// The receipt of a command that is offered again.
pub open spec fn reclaimed(row: ReceiptRowView, offer: WebCommandOfferView) -> Result<
    WebCommandReceiptView,
    InboxError,
> {
    if row.request_sha256 != offer.request_sha256 || row.command != offer.command
        || row.expected_sequence != offer.expected_sequence || row.expected_version
        != offer.expected_version {
        Err(InboxError::ContentChanged)
    } else if row.target_processed_bars < 0 {
        Err(InboxError::InvalidTarget)
    } else {
        match response_of(row) {
            Err(e) => Err(e),
            Ok(response) => Ok(receipt_with(row, response)),
        }
    }
}

/// How the playback of a run stands.
pub open spec fn playback(controls: Seq<ControlRowView>, run_id: Seq<char>) -> (i64, bool) {
    match control_at(controls, run_id, controls.len()) {
        Some(i) => (controls[i].command_version, controls[i].active),
        None => (0i64, false),
    }
}

/// Why a new command is refused, if it is.
pub open spec fn claim_fault(inbox: WebInboxView, sequence: i64, offer: WebCommandOfferView) -> Option<
    InboxError,
> {
    let (version, active) = playback(inbox.controls, offer.run_id);
    if run_pending(inbox.commands, offer.run_id) {
        Some(InboxError::AnotherPending)
    } else if offer.require_exact_sequence && sequence != offer.expected_sequence {
        Some(InboxError::StaleSequence)
    } else if version != offer.expected_version {
        Some(InboxError::StaleVersion)
    } else if offer.require_inactive && active {
        Some(InboxError::PlaybackActive)
    } else if offer.require_active && !active {
        Some(InboxError::PlaybackInactive)
    } else if version == i64::MAX {
        Some(InboxError::VersionExhausted)
    } else if offer.target_processed_bars > i64::MAX {
        Some(InboxError::TargetTooLarge)
    } else if exists|i: int|
        0 <= i < inbox.commands.len() && (#[trigger] inbox.commands[i]).request_id
            == offer.request_id {
        Some(InboxError::RequestTaken)
    } else if offer.interval_ms > i64::MAX {
        Some(InboxError::IntervalTooLarge)
    } else {
        None
    }
}

/// The row of a command that is accepted.
pub open spec fn accepted_row(
    offer: WebCommandOfferView,
    version: i64,
    now: Seq<char>,
) -> ReceiptRowView {
    ReceiptRowView {
        run_id: offer.run_id,
        request_id: offer.request_id,
        request_sha256: offer.request_sha256,
        command: offer.command,
        expected_sequence: offer.expected_sequence,
        expected_version: offer.expected_version,
        accepted_version: version,
        target_processed_bars: offer.target_processed_bars as i64,
        receipt_state: "PENDING"@,
        response_json: None,
        request_json: Some(offer.request_json),
        plan_sha256: Some(
            text_digest(
                plan_text(
                    offer.request_sha256,
                    offer.command,
                    offer.expected_sequence,
                    offer.expected_version,
                    version,
                    offer.target_processed_bars,
                    offer.config_sha256,
                    offer.algorithm_sha256,
                ),
            ),
        ),
        config_sha256: Some(offer.config_sha256),
        algorithm_sha256: Some(offer.algorithm_sha256),
        created_at: now,
    }
}

/// The playback of all runs with that of one run as given.
pub open spec fn controls_with(controls: Seq<ControlRowView>, row: ControlRowView) -> Seq<
    ControlRowView,
> {
    match control_at(controls, row.run_id, controls.len()) {
        Some(i) => controls.update(i, row),
        None => controls.push(row),
    }
}

/// What follows from a command that is offered.
pub open spec fn claimed(
    inbox: WebInboxView,
    sequence: i64,
    offer: WebCommandOfferView,
    now: Seq<char>,
) -> Result<(WebInboxView, WebCommandClaimView), InboxError> {
    match command_at(inbox.commands, offer.run_id, offer.request_id, inbox.commands.len()) {
        Some(i) => match reclaimed(inbox.commands[i], offer) {
            Err(e) => Err(e),
            Ok(receipt) => Ok((inbox, WebCommandClaimView::Existing(receipt))),
        },
        None => match claim_fault(inbox, sequence, offer) {
            Some(e) => Err(e),
            None => {
                let version = (playback(inbox.controls, offer.run_id).0 + 1) as i64;
                let row = accepted_row(offer, version, now);
                Ok(
                    (
                        WebInboxView {
                            commands: inbox.commands.push(row),
                            controls: controls_with(
                                inbox.controls,
                                ControlRowView {
                                    run_id: offer.run_id,
                                    command_version: version,
                                    active: offer.next_active,
                                    interval_ms: offer.interval_ms as i64,
                                },
                            ),
                        },
                        WebCommandClaimView::Claimed(receipt_with(row, None)),
                    ),
                )
            },
        },
    }
}

/// What follows from the completion of a command.
pub open spec fn completed(
    inbox: WebInboxView,
    run_id: Seq<char>,
    request_id: Seq<char>,
    request_sha256: Seq<char>,
    response: Seq<char>,
) -> Result<(WebInboxView, Seq<char>), InboxError> {
    match command_at(inbox.commands, run_id, request_id, inbox.commands.len()) {
        None => Err(InboxError::NotPending),
        Some(i) => {
            let row = inbox.commands[i];
            if row.request_sha256 != request_sha256 {
                Err(InboxError::NotPending)
            } else if pending(row) {
                Ok(
                    (
                        WebInboxView {
                            commands: inbox.commands.update(
                                i,
                                ReceiptRowView {
                                    receipt_state: "COMPLETED"@,
                                    response_json: Some(response),
                                    ..row
                                },
                            ),
                            ..inbox
                        },
                        response,
                    ),
                )
            } else if carried_out(row) && row.response_json is Some {
                Ok((inbox, row.response_json->0))
            } else {
                Err(InboxError::NotPending)
            }
        },
    }
}

/// Whether one command comes before another: by time, then by run.
pub open spec fn earlier(a: ReceiptRowView, b: ReceiptRowView) -> bool {
    text_less(a.created_at, b.created_at) || (a.created_at == b.created_at && text_less(
        a.run_id,
        b.run_id,
    ))
}

/// A list in order with one more row in its place.
pub open spec fn inserted(list: Seq<ReceiptRowView>, row: ReceiptRowView) -> Seq<ReceiptRowView>
    decreases list.len(),
{
    if list.len() == 0 || !earlier(row, list.last()) {
        list.push(row)
    } else {
        inserted(list.drop_last(), row).push(list.last())
    }
}

/// The commands of a run, or of all, among the first `n` that have not been
/// carried out, the earliest first.
pub open spec fn waiting(rows: Seq<ReceiptRowView>, run_id: Option<Seq<char>>, n: nat) -> Seq<
    ReceiptRowView,
>
    decreases n,
{
    if n == 0 {
        Seq::empty()
    } else {
        let before = waiting(rows, run_id, (n - 1) as nat);
        if pending(rows[n - 1]) && (run_id is None || rows[n - 1].run_id == run_id->0) {
            inserted(before, rows[n - 1])
        } else {
            before
        }
    }
}

/// The first of the waiting commands, at most `limit`, with their receipts.
pub open spec fn receipts_of(rows: Seq<ReceiptRowView>, n: nat) -> Result<
    Seq<(Seq<char>, PendingWebCommandView)>,
    InboxError,
>
    decreases n,
{
    if n == 0 {
        Ok(Seq::empty())
    } else {
        match receipts_of(rows, (n - 1) as nat) {
            Err(e) => Err(e),
            Ok(list) => match receipt_of(rows[n - 1]) {
                Err(e) => Err(e),
                Ok(receipt) => Ok(
                    list.push(
                        (
                            rows[n - 1].run_id,
                            PendingWebCommandView { request_id: rows[n - 1].request_id, receipt },
                        ),
                    ),
                ),
            },
        }
    }
}

/// The content of a list of waiting commands.
pub open spec fn waiting_list(v: Seq<(String, PendingWebCommand)>) -> Seq<
    (Seq<char>, PendingWebCommandView),
> {
    Seq::new(v.len(), |i: int| (v[i].0@, v[i].1@))
}

/// The least of two lengths.
pub open spec fn at_most(n: nat, limit: nat) -> nat {
    if n <= limit {
        n
    } else {
        limit
    }
}

proof fn lemma_inserted_at(list: Seq<ReceiptRowView>, row: ReceiptRowView, k: nat)
    requires
        k <= list.len(),
        forall|i: int| k <= i < list.len() ==> earlier(row, #[trigger] list[i]),
        k > 0 ==> !earlier(row, list[k - 1]),
    ensures
        inserted(list, row) == list.insert(k as int, row),
    decreases list.len(),
{
    if k < list.len() {
        let short = list.drop_last();
        lemma_inserted_at(short, row, k);
        assert(inserted(list, row) =~= list.insert(k as int, row));
    } else {
        assert(list.push(row) =~= list.insert(k as int, row));
    }
}

pub proof fn lemma_command_at(rows: Seq<ReceiptRowView>, run_id: Seq<char>, request_id: Seq<char>, n: nat)
    requires
        n <= rows.len(),
    ensures
        match command_at(rows, run_id, request_id, n) {
            Some(i) => 0 <= i < n && rows[i].run_id == run_id && rows[i].request_id == request_id,
            None => forall|i: int|
                0 <= i < n ==> !((#[trigger] rows[i]).run_id == run_id && rows[i].request_id
                    == request_id),
        },
    decreases n,
{
    if n > 0 {
        lemma_command_at(rows, run_id, request_id, (n - 1) as nat);
    }
}

pub proof fn lemma_control_at(rows: Seq<ControlRowView>, run_id: Seq<char>, n: nat)
    requires
        n <= rows.len(),
    ensures
        match control_at(rows, run_id, n) {
            Some(i) => 0 <= i < n && rows[i].run_id == run_id && forall|j: int|
                i < j < n ==> (#[trigger] rows[j]).run_id != run_id,
            None => forall|i: int| 0 <= i < n ==> (#[trigger] rows[i]).run_id != run_id,
        },
    decreases n,
{
    if n > 0 {
        lemma_control_at(rows, run_id, (n - 1) as nat);
    }
}

proof fn lemma_receipts_stop(rows: Seq<ReceiptRowView>, n: nat, m: nat)
    requires
        n <= m,
        receipts_of(rows, n) is Err,
    ensures
        receipts_of(rows, m) == receipts_of(rows, n),
    decreases m - n,
{
    if n < m {
        lemma_receipts_stop(rows, n, (m - 1) as nat);
    }
}

impl ReceiptRow {
    fn is_pending(&self) -> (r: bool)
        ensures
            r == pending(self@),
    {
        text_eq(self.receipt_state.as_str(), "PENDING")
    }

    fn response(&self) -> (r: Result<Option<String>, InboxError>)
        ensures
            match response_of(self@) {
                Ok(t) => r matches Ok(x) && x.deep_view() == t,
                Err(e) => r matches Err(x) && x == e,
            },
    {
        if self.is_pending() {
            Ok(None)
        } else if text_eq(self.receipt_state.as_str(), "COMPLETED") {
            match &self.response_json {
                Some(t) => Ok(Some(t.dup())),
                None => Err(InboxError::MissingResponse),
            }
        } else {
            Err(InboxError::InvalidState)
        }
    }

    fn with_response(&self, response: Option<String>) -> (r: WebCommandReceipt)
        requires
            self@.target_processed_bars >= 0,
        ensures
            r@ == receipt_with(self@, response.deep_view()),
    {
        WebCommandReceipt {
            request_sha256: self.request_sha256.dup(),
            command: self.command.dup(),
            expected_sequence: self.expected_sequence,
            expected_version: self.expected_version,
            accepted_version: self.accepted_version,
            target_processed_bars: self.target_processed_bars as u64,
            completed_response_json: response,
            request_json: self.request_json.dup(),
            plan_sha256: self.plan_sha256.dup(),
            config_sha256: self.config_sha256.dup(),
            algorithm_sha256: self.algorithm_sha256.dup(),
        }
    }

    fn receipt(&self) -> (r: Result<WebCommandReceipt, InboxError>)
        ensures
            match receipt_of(self@) {
                Ok(t) => r matches Ok(x) && x@ == t,
                Err(e) => r matches Err(x) && x == e,
            },
    {
        match self.response() {
            Err(e) => Err(e),
            Ok(response) => {
                if self.target_processed_bars < 0 {
                    return Err(InboxError::InvalidTarget);
                }
                Ok(self.with_response(response))
            },
        }
    }

    fn reclaim(&self, offer: &WebCommandOffer) -> (r: Result<WebCommandReceipt, InboxError>)
        ensures
            match reclaimed(self@, offer@) {
                Ok(t) => r matches Ok(x) && x@ == t,
                Err(e) => r matches Err(x) && x == e,
            },
    {
        if !text_eq(self.request_sha256.as_str(), offer.request_sha256.as_str()) || !text_eq(
            self.command.as_str(),
            offer.command.as_str(),
        ) || self.expected_sequence != offer.expected_sequence || self.expected_version
            != offer.expected_version {
            return Err(InboxError::ContentChanged);
        }
        if self.target_processed_bars < 0 {
            return Err(InboxError::InvalidTarget);
        }
        match self.response() {
            Err(e) => Err(e),
            Ok(response) => Ok(self.with_response(response)),
        }
    }

    fn precedes(&self, other: &ReceiptRow) -> (r: bool)
        ensures
            r == earlier(self@, other@),
    {
        text_before(self.created_at.as_str(), other.created_at.as_str()) || (text_eq(
            self.created_at.as_str(),
            other.created_at.as_str(),
        ) && text_before(self.run_id.as_str(), other.run_id.as_str()))
    }
}

fn insert_in_order(list: &mut Vec<ReceiptRow>, row: ReceiptRow)
    ensures
        final(list).deep_view() == inserted(old(list).deep_view(), row@),
{
    let ghost all = list.deep_view();
    let mut k: usize = list.len();
    while k > 0 && row.precedes(&list[k - 1])
        invariant
            k <= list.len(),
            all == list.deep_view(),
            forall|i: int| k <= i < all.len() ==> earlier(row@, #[trigger] all[i]),
            *list == *old(list),
        decreases k,
    {
        assert(all[k - 1] == list[k - 1]@);
        k = k - 1;
    }
    proof {
        if k > 0 {
            assert(all[k - 1] == list[k - 1]@);
        }
        lemma_inserted_at(all, row@, k as nat);
    }
    list.insert(k, row);
    assert(list.deep_view() =~= all.insert(k as int, row@));
}

impl WebInbox {
    fn find_command(&self, run_id: &str, request_id: &str) -> (r: Option<usize>)
        ensures
            match command_at(self@.commands, run_id@, request_id@, self@.commands.len()) {
                Some(i) => r matches Some(x) && x == i && x < self.commands.len(),
                None => r is None,
            },
    {
        let ghost all = self@.commands;
        let mut n: usize = self.commands.len();
        while n > 0
            invariant
                n <= self.commands.len(),
                all == self.commands.deep_view(),
                command_at(all, run_id@, request_id@, all.len()) == command_at(
                    all,
                    run_id@,
                    request_id@,
                    n as nat,
                ),
            decreases n,
        {
            assert(all[n - 1] == self.commands[n - 1]@);
            if text_eq(self.commands[n - 1].run_id.as_str(), run_id) && text_eq(
                self.commands[n - 1].request_id.as_str(),
                request_id,
            ) {
                return Some(n - 1);
            }
            n = n - 1;
        }
        None
    }

    fn find_control(&self, run_id: &str) -> (r: Option<usize>)
        ensures
            match control_at(self@.controls, run_id@, self@.controls.len()) {
                Some(i) => r matches Some(x) && x == i && x < self.controls.len(),
                None => r is None,
            },
    {
        let ghost all = self@.controls;
        let mut n: usize = self.controls.len();
        while n > 0
            invariant
                n <= self.controls.len(),
                all == self.controls.deep_view(),
                control_at(all, run_id@, all.len()) == control_at(all, run_id@, n as nat),
            decreases n,
        {
            assert(all[n - 1] == self.controls[n - 1]@);
            if text_eq(self.controls[n - 1].run_id.as_str(), run_id) {
                return Some(n - 1);
            }
            n = n - 1;
        }
        None
    }

    fn has_pending(&self, run_id: &str) -> (r: bool)
        ensures
            r == run_pending(self@.commands, run_id@),
    {
        let ghost all = self@.commands;
        let mut i: usize = 0;
        while i < self.commands.len()
            invariant
                i <= self.commands.len(),
                all == self.commands.deep_view(),
                all == self@.commands,
                forall|k: int|
                    0 <= k < i ==> !((#[trigger] all[k]).run_id == run_id@ && pending(all[k])),
            decreases self.commands.len() - i,
        {
            assert(all[i as int] == self.commands[i as int]@);
            if text_eq(self.commands[i].run_id.as_str(), run_id)
                && self.commands[i].is_pending() {
                return true;
            }
            i = i + 1;
        }
        false
    }

    fn is_taken(&self, request_id: &str) -> (r: bool)
        ensures
            r == exists|i: int|
                0 <= i < self@.commands.len() && (#[trigger] self@.commands[i]).request_id
                    == request_id@,
    {
        let ghost all = self@.commands;
        let mut i: usize = 0;
        while i < self.commands.len()
            invariant
                i <= self.commands.len(),
                all == self.commands.deep_view(),
                all == self@.commands,
                forall|k: int| 0 <= k < i ==> (#[trigger] all[k]).request_id != request_id@,
            decreases self.commands.len() - i,
        {
            assert(all[i as int] == self.commands[i as int]@);
            if text_eq(self.commands[i].request_id.as_str(), request_id) {
                return true;
            }
            i = i + 1;
        }
        false
    }

    fn standing(&self, run_id: &str) -> (r: (i64, bool))
        ensures
            r == playback(self@.controls, run_id@),
    {
        match self.find_control(run_id) {
            Some(i) => {
                assert(self@.controls[i as int] == self.controls[i as int]@);
                (self.controls[i].command_version, self.controls[i].active)
            },
            None => (0, false),
        }
    }

    /// How the playback of a run stands.
    pub fn web_playback_control(&self, run_id: &str) -> (r: Result<WebPlaybackControl, InboxError>)
        ensures
            r == (match control_at(self@.controls, run_id@, self@.controls.len()) {
                None => Ok::<WebPlaybackControl, InboxError>(
                    WebPlaybackControl { command_version: 0, active: false, interval_ms: 0 },
                ),
                Some(i) => if self@.controls[i].interval_ms < 0 {
                    Err::<WebPlaybackControl, InboxError>(InboxError::InvalidInterval)
                } else {
                    Ok::<WebPlaybackControl, InboxError>(
                        WebPlaybackControl {
                            command_version: self@.controls[i].command_version,
                            active: self@.controls[i].active,
                            interval_ms: self@.controls[i].interval_ms as u64,
                        },
                    )
                },
            }),
    {
        match self.find_control(run_id) {
            None => Ok(WebPlaybackControl { command_version: 0, active: false, interval_ms: 0 }),
            Some(i) => {
                assert(self@.controls[i as int] == self.controls[i as int]@);
                let row = &self.controls[i];
                if row.interval_ms < 0 {
                    return Err(InboxError::InvalidInterval);
                }
                Ok(
                    WebPlaybackControl {
                        command_version: row.command_version,
                        active: row.active,
                        interval_ms: row.interval_ms as u64,
                    },
                )
            },
        }
    }

    /// The receipt of a command.
    pub fn web_command_receipt(&self, run_id: &str, request_id: &str) -> (r: Result<
        Option<WebCommandReceipt>,
        InboxError,
    >)
        ensures
            match command_at(self@.commands, run_id@, request_id@, self@.commands.len()) {
                None => r matches Ok(None),
                Some(i) => match receipt_of(self@.commands[i]) {
                    Ok(t) => r matches Ok(Some(x)) && x@ == t,
                    Err(e) => r matches Err(x) && x == e,
                },
            },
    {
        match self.find_command(run_id, request_id) {
            None => Ok(None),
            Some(i) => {
                assert(self@.commands[i as int] == self.commands[i as int]@);
                match self.commands[i].receipt() {
                    Ok(receipt) => Ok(Some(receipt)),
                    Err(e) => Err(e),
                }
            },
        }
    }

    fn waiting_rows(&self, run_id: Option<&str>) -> (r: Vec<ReceiptRow>)
        ensures
            r.deep_view() == waiting(
                self@.commands,
                crate::journal::query::text_of(run_id),
                self@.commands.len(),
            ),
    {
        let ghost all = self@.commands;
        let ghost run = crate::journal::query::text_of(run_id);
        let mut out: Vec<ReceiptRow> = Vec::new();
        assert(out.deep_view() =~= Seq::<ReceiptRowView>::empty());
        let mut i: usize = 0;
        while i < self.commands.len()
            invariant
                i <= self.commands.len(),
                all == self.commands.deep_view(),
                run == crate::journal::query::text_of(run_id),
                out.deep_view() == waiting(all, run, i as nat),
            decreases self.commands.len() - i,
        {
            assert(all[i as int] == self.commands[i as int]@);
            let of_run = match run_id {
                Some(x) => text_eq(self.commands[i].run_id.as_str(), x),
                None => true,
            };
            if of_run && self.commands[i].is_pending() {
                insert_in_order(&mut out, self.commands[i].dup());
            }
            i = i + 1;
        }
        out
    }

    /// The command of a run that has not been carried out.
    pub fn pending_web_command(&self, run_id: &str) -> (r: Result<
        Option<PendingWebCommand>,
        InboxError,
    >)
        ensures
            ({
                let list = waiting(self@.commands, Some(run_id@), self@.commands.len());
                if list.len() == 0 {
                    r matches Ok(None)
                } else {
                    match receipt_of(list[0]) {
                        Ok(t) => r matches Ok(Some(x)) && x@ == (PendingWebCommandView {
                            request_id: list[0].request_id,
                            receipt: t,
                        }),
                        Err(e) => r matches Err(x) && x == e,
                    }
                }
            }),
    {
        let rows = self.waiting_rows(Some(run_id));
        if rows.len() == 0 {
            return Ok(None);
        }
        assert(rows.deep_view()[0] == rows[0]@);
        match rows[0].receipt() {
            Ok(receipt) => Ok(
                Some(PendingWebCommand { request_id: rows[0].request_id.dup(), receipt }),
            ),
            Err(e) => Err(e),
        }
    }

    /// The commands that have not been carried out, the earliest first, at most
    /// `limit`, each with its run.
    pub fn pending_web_commands(&self, limit: usize) -> (r: Result<
        Vec<(String, PendingWebCommand)>,
        InboxError,
    >)
        ensures
            ({
                let list = waiting(self@.commands, None, self@.commands.len());
                match receipts_of(list, at_most(list.len(), limit as nat)) {
                    Ok(t) => r matches Ok(x) && waiting_list(x@) == t,
                    Err(e) => r matches Err(x) && x == e,
                }
            }),
    {
        let rows = self.waiting_rows(None);
        let ghost all = rows.deep_view();
        let n: usize = if rows.len() <= limit {
            rows.len()
        } else {
            limit
        };
        let mut out: Vec<(String, PendingWebCommand)> = Vec::new();
        assert(waiting_list(out@) =~= Seq::<(Seq<char>, PendingWebCommandView)>::empty());
        let mut i: usize = 0;
        while i < n
            invariant
                i <= n <= rows.len(),
                all == rows.deep_view(),
                all == waiting(self@.commands, None, self@.commands.len()),
                n == at_most(all.len(), limit as nat),
                receipts_of(all, i as nat) matches Ok(t) && waiting_list(out@) == t,
            decreases n - i,
        {
            assert(all[i as int] == rows[i as int]@);
            match rows[i].receipt() {
                Ok(receipt) => {
                    let ghost before = out@;
                    let entry = (
                        rows[i].run_id.dup(),
                        PendingWebCommand { request_id: rows[i].request_id.dup(), receipt },
                    );
                    let ghost view = (entry.0@, entry.1@);
                    out.push(entry);
                    assert(waiting_list(out@) =~= waiting_list(before).push(view));
                },
                Err(e) => {
                    proof {
                        lemma_receipts_stop(all, (i + 1) as nat, n as nat);
                    }
                    return Err(e);
                },
            }
            i = i + 1;
        }
        Ok(out)
    }

    /// Whether the playback that a version began was carried out.
    pub fn completed_playback_generation(&self, run_id: &str, version: i64) -> (r: bool)
        ensures
            r == exists|i: int|
                0 <= i < self@.commands.len() && played(
                    #[trigger] self@.commands[i],
                    run_id@,
                    version,
                ),
    {
        let ghost all = self@.commands;
        let mut i: usize = 0;
        while i < self.commands.len()
            invariant
                i <= self.commands.len(),
                all == self.commands.deep_view(),
                all == self@.commands,
                forall|k: int| 0 <= k < i ==> !played(#[trigger] all[k], run_id@, version),
            decreases self.commands.len() - i,
        {
            assert(all[i as int] == self.commands[i as int]@);
            let row = &self.commands[i];
            if text_eq(row.run_id.as_str(), run_id) && text_eq(row.command.as_str(), "play")
                && row.accepted_version == version && text_eq(
                row.receipt_state.as_str(),
                "COMPLETED",
            ) {
                assert(played(all[i as int], run_id@, version));
                return true;
            }
            i = i + 1;
        }
        false
    }

    fn check_claim(&self, sequence: i64, offer: &WebCommandOffer) -> (r: Option<InboxError>)
        ensures
            r == claim_fault(self@, sequence, offer@),
    {
        if self.has_pending(offer.run_id.as_str()) {
            return Some(InboxError::AnotherPending);
        }
        if offer.require_exact_sequence && sequence != offer.expected_sequence {
            return Some(InboxError::StaleSequence);
        }
        let (version, active): (i64, bool) = self.standing(offer.run_id.as_str());
        if version != offer.expected_version {
            return Some(InboxError::StaleVersion);
        }
        if offer.require_inactive && active {
            return Some(InboxError::PlaybackActive);
        }
        if offer.require_active && !active {
            return Some(InboxError::PlaybackInactive);
        }
        if version == i64::MAX {
            return Some(InboxError::VersionExhausted);
        }
        if offer.target_processed_bars > i64::MAX as u64 {
            return Some(InboxError::TargetTooLarge);
        }
        if self.is_taken(offer.request_id.as_str()) {
            return Some(InboxError::RequestTaken);
        }
        if offer.interval_ms > i64::MAX as u64 {
            return Some(InboxError::IntervalTooLarge);
        }
        None
    }

    fn put_control(&mut self, row: ControlRow)
        ensures
            final(self)@ == (WebInboxView {
                controls: controls_with(old(self)@.controls, row@),
                ..old(self)@
            }),
    {
        let ghost before = self@;
        match self.find_control(row.run_id.as_str()) {
            Some(i) => {
                self.controls.set(i, row);
                assert(self.controls.deep_view() =~= before.controls.update(i as int, row@));
            },
            None => {
                self.controls.push(row);
                assert(self.controls.deep_view() =~= before.controls.push(row@));
            },
        }
    }

    /// Accepts a command, once: the same command offered again gives the receipt
    /// that it has, and nothing else is accepted before it has been carried out.
    /// A command that is refused leaves the inbox as it was.
    pub fn claim_web_command(&mut self, sequence: i64, offer: &WebCommandOffer, now: &str) -> (r:
        Result<WebCommandClaim, InboxError>)
        ensures
            match claimed(old(self)@, sequence, offer@, now@) {
                Ok((inbox, claim)) => r matches Ok(x) && x@ == claim && final(self)@ == inbox,
                Err(e) => r matches Err(x) && x == e && *final(self) == *old(self),
            },
    {
        let ghost before = self@;
        if let Some(i) = self.find_command(offer.run_id.as_str(), offer.request_id.as_str()) {
            assert(self@.commands[i as int] == self.commands[i as int]@);
            return match self.commands[i].reclaim(offer) {
                Ok(receipt) => Ok(WebCommandClaim::Existing(receipt)),
                Err(e) => Err(e),
            };
        }
        if let Some(e) = self.check_claim(sequence, offer) {
            return Err(e);
        }
        let (current, _): (i64, bool) = self.standing(offer.run_id.as_str());
        let version: i64 = current + 1;
        let plan = web_command_plan_sha256(
            offer.request_sha256.as_str(),
            offer.command.as_str(),
            offer.expected_sequence,
            offer.expected_version,
            version,
            offer.target_processed_bars,
            (offer.config_sha256.as_str(), offer.algorithm_sha256.as_str()),
        );
        let row = ReceiptRow {
            run_id: offer.run_id.dup(),
            request_id: offer.request_id.dup(),
            request_sha256: offer.request_sha256.dup(),
            command: offer.command.dup(),
            expected_sequence: offer.expected_sequence,
            expected_version: offer.expected_version,
            accepted_version: version,
            target_processed_bars: offer.target_processed_bars as i64,
            receipt_state: "PENDING".to_owned(),
            response_json: None,
            request_json: Some(offer.request_json.dup()),
            plan_sha256: Some(plan),
            config_sha256: Some(offer.config_sha256.dup()),
            algorithm_sha256: Some(offer.algorithm_sha256.dup()),
            created_at: now.to_owned(),
        };
        assert(row@ == accepted_row(offer@, version, now@));
        let receipt = row.with_response(None);
        self.commands.push(row);
        assert(self.commands.deep_view() =~= before.commands.push(row@));
        self.put_control(
            ControlRow {
                run_id: offer.run_id.dup(),
                command_version: version,
                active: offer.next_active,
                interval_ms: offer.interval_ms as i64,
            },
        );
        Ok(WebCommandClaim::Claimed(receipt))
    }

    /// Records the response to a command. A command that has its response keeps
    /// it.
    pub fn complete_web_command(
        &mut self,
        run_id: &str,
        request_id: &str,
        request_sha256: &str,
        response_json: &str,
    ) -> (r: Result<String, InboxError>)
        ensures
            match completed(old(self)@, run_id@, request_id@, request_sha256@, response_json@) {
                Ok((inbox, response)) => r matches Ok(x) && x@ == response && final(self)@ == inbox,
                Err(e) => r matches Err(x) && x == e && *final(self) == *old(self),
            },
    {
        let ghost before = self@;
        match self.find_command(run_id, request_id) {
            None => Err(InboxError::NotPending),
            Some(i) => {
                assert(self@.commands[i as int] == self.commands[i as int]@);
                if !text_eq(self.commands[i].request_sha256.as_str(), request_sha256) {
                    return Err(InboxError::NotPending);
                }
                if self.commands[i].is_pending() {
                    let mut row = self.commands[i].dup();
                    row.receipt_state = "COMPLETED".to_owned();
                    row.response_json = Some(response_json.to_owned());
                    self.commands.set(i, row);
                    assert(self.commands.deep_view() =~= before.commands.update(i as int, row@));
                    return Ok(response_json.to_owned());
                }
                if !text_eq(self.commands[i].receipt_state.as_str(), "COMPLETED") {
                    return Err(InboxError::NotPending);
                }
                match &self.commands[i].response_json {
                    Some(t) => Ok(t.dup()),
                    None => Err(InboxError::NotPending),
                }
            },
        }
    }

    /// Stops the playback of a run if it is at a version.
    pub fn deactivate_web_playback_if_version(&mut self, run_id: &str, version: i64)
        ensures
            final(self)@ == deactivated(old(self)@, run_id@, version),
    {
        let ghost before = self@;
        if let Some(i) = self.find_control(run_id) {
            assert(self@.controls[i as int] == self.controls[i as int]@);
            if self.controls[i].command_version == version {
                let mut row = self.controls[i].dup();
                row.active = false;
                self.controls.set(i, row);
                assert(self.controls.deep_view() =~= before.controls.update(i as int, row@));
            }
        }
    }
}

/// Whether a row is a playback of a run that was carried out.
pub open spec fn played(row: ReceiptRowView, run_id: Seq<char>, version: i64) -> bool {
    row.run_id == run_id && row.command == "play"@ && row.accepted_version == version
        && carried_out(row)
}

/// The inbox with the playback of a run stopped if it is at a version.
pub open spec fn deactivated(inbox: WebInboxView, run_id: Seq<char>, version: i64) -> WebInboxView {
    match control_at(inbox.controls, run_id, inbox.controls.len()) {
        Some(i) => if inbox.controls[i].command_version == version {
            WebInboxView {
                controls: inbox.controls.update(
                    i,
                    ControlRowView { active: false, ..inbox.controls[i] },
                ),
                ..inbox
            }
        } else {
            inbox
        },
        None => inbox,
    }
}

/// A command that was accepted and is offered again, at whatever sequence
/// number, has the receipt that it was given.
pub proof fn law_claims_are_idempotent(
    inbox: WebInboxView,
    sequence: i64,
    offer: WebCommandOfferView,
    now: Seq<char>,
    later: i64,
    later_now: Seq<char>,
)
    ensures
        claimed(inbox, sequence, offer, now) matches Ok((after, WebCommandClaimView::Claimed(receipt)))
            ==> claimed(after, later, offer, later_now) == Ok::<
            (WebInboxView, WebCommandClaimView),
            InboxError,
        >((after, WebCommandClaimView::Existing(receipt))),
{
}

/// After a command is accepted its run is at the next version, and no other
/// command of the run is accepted before it has been carried out.
pub proof fn law_commands_take_turns(
    inbox: WebInboxView,
    sequence: i64,
    offer: WebCommandOfferView,
    now: Seq<char>,
    next: WebCommandOfferView,
    next_sequence: i64,
    next_now: Seq<char>,
)
    requires
        next.run_id == offer.run_id,
        next.request_id != offer.request_id,
    ensures
        claimed(inbox, sequence, offer, now) matches Ok((after, WebCommandClaimView::Claimed(_)))
            ==> {
            &&& playback(after.controls, offer.run_id).0 == playback(
                inbox.controls,
                offer.run_id,
            ).0 + 1
            &&& !(claimed(after, next_sequence, next, next_now) matches Ok(
                (_, WebCommandClaimView::Claimed(_)),
            ))
        },
{
    if let Ok((after, WebCommandClaimView::Claimed(_))) = claimed(inbox, sequence, offer, now) {
        let row = after.commands.last();
        assert(after.commands[after.commands.len() - 1] == row);
        assert(run_pending(after.commands, offer.run_id));
        lemma_control_at(inbox.controls, offer.run_id, inbox.controls.len());
        lemma_control_at(after.controls, offer.run_id, after.controls.len());
        match control_at(inbox.controls, offer.run_id, inbox.controls.len()) {
            Some(i) => {
                assert(after.controls[i].run_id == offer.run_id);
                let k = control_at(after.controls, offer.run_id, after.controls.len())->0;
                if k != i {
                    assert(after.controls[k] == inbox.controls[k]);
                }
            },
            None => {
                assert(after.controls.last().run_id == offer.run_id);
            },
        }
    }
}

/// A response that was recorded stays, whatever is offered in its place.
pub proof fn law_responses_stay(
    inbox: WebInboxView,
    run_id: Seq<char>,
    request_id: Seq<char>,
    request_sha256: Seq<char>,
    response: Seq<char>,
    other: Seq<char>,
)
    ensures
        completed(inbox, run_id, request_id, request_sha256, response) matches Ok((after, kept))
            ==> completed(after, run_id, request_id, request_sha256, other) == Ok::<
            (WebInboxView, Seq<char>),
            InboxError,
        >((after, kept)),
{
    reveal_strlit("PENDING");
    reveal_strlit("COMPLETED");
    assert("PENDING"@.len() == 7 && "COMPLETED"@.len() == 9);
    if let Ok((after, kept)) = completed(inbox, run_id, request_id, request_sha256, response) {
        lemma_command_at(inbox.commands, run_id, request_id, inbox.commands.len());
        let i = command_at(inbox.commands, run_id, request_id, inbox.commands.len())->0;
        if pending(inbox.commands[i]) {
            lemma_found_again(inbox.commands, after.commands, run_id, request_id, i, inbox.commands.len());
        }
    }
}

proof fn lemma_found_again(
    a: Seq<ReceiptRowView>,
    b: Seq<ReceiptRowView>,
    run_id: Seq<char>,
    request_id: Seq<char>,
    i: int,
    n: nat,
)
    requires
        n <= a.len() == b.len(),
        forall|k: int| 0 <= k < a.len() && k != i ==> (#[trigger] a[k]) == b[k],
        0 <= i < a.len(),
        a[i].run_id == b[i].run_id,
        a[i].request_id == b[i].request_id,
    ensures
        command_at(a, run_id, request_id, n) == command_at(b, run_id, request_id, n),
    decreases n,
{
    if n > 0 {
        lemma_found_again(a, b, run_id, request_id, i, (n - 1) as nat);
        if n - 1 != i {
            assert(a[n - 1] == b[n - 1]);
        }
    }
}

/// The commands that wait are in their order.
pub proof fn law_waiting_commands_are_in_order(
    rows: Seq<ReceiptRowView>,
    run_id: Option<Seq<char>>,
    n: nat,
)
    requires
        n <= rows.len(),
    ensures
        forall|i: int, j: int|
            0 <= i < j < waiting(rows, run_id, n).len() ==> !earlier(
                #[trigger] waiting(rows, run_id, n)[j],
                #[trigger] waiting(rows, run_id, n)[i],
            ),
    decreases n,
{
    if n > 0 {
        law_waiting_commands_are_in_order(rows, run_id, (n - 1) as nat);
        let before = waiting(rows, run_id, (n - 1) as nat);
        lemma_inserted_in_order(before, rows[n - 1]);
    }
}

proof fn lemma_inserted_in_order(list: Seq<ReceiptRowView>, row: ReceiptRowView)
    requires
        forall|i: int, j: int|
            0 <= i < j < list.len() ==> !earlier(#[trigger] list[j], #[trigger] list[i]),
    ensures
        forall|i: int, j: int|
            0 <= i < j < inserted(list, row).len() ==> !earlier(
                #[trigger] inserted(list, row)[j],
                #[trigger] inserted(list, row)[i],
            ),
        inserted(list, row).len() == list.len() + 1,
        forall|i: int|
            0 <= i < inserted(list, row).len() ==> (#[trigger] inserted(list, row)[i]) == row || exists|
                k: int,
            |
                0 <= k < list.len() && list[k] == inserted(list, row)[i],
    decreases list.len(),
{
    let out = inserted(list, row);
    if list.len() == 0 || !earlier(row, list.last()) {
        assert forall|i: int, j: int| 0 <= i < j < out.len() implies !earlier(
            #[trigger] out[j],
            #[trigger] out[i],
        ) by {
            if j == list.len() && i < list.len() - 1 {
                lemma_earlier(row, list[i], list.last());
            }
        }
    } else {
        let short = list.drop_last();
        lemma_inserted_in_order(short, row);
        let inner = inserted(short, row);
        assert forall|i: int, j: int| 0 <= i < j < out.len() implies !earlier(
            #[trigger] out[j],
            #[trigger] out[i],
        ) by {
            if j == inner.len() {
                assert(out[i] == inner[i]);
                if inner[i] == row {
                    lemma_earlier_asymmetric(row, list.last());
                } else {
                    let k = choose|k: int| 0 <= k < short.len() && short[k] == inner[i];
                    assert(list[k] == inner[i]);
                    assert(out[j] == list[list.len() - 1]);
                }
            } else {
                assert(out[i] == inner[i] && out[j] == inner[j]);
            }
        }
        assert forall|i: int| 0 <= i < out.len() implies (#[trigger] out[i]) == row || exists|
            k: int,
        | 0 <= k < list.len() && list[k] == out[i] by {
            if i == inner.len() {
                assert(list[list.len() - 1] == out[i]);
            } else {
                assert(out[i] == inner[i]);
                if inner[i] != row {
                    let k = choose|k: int| 0 <= k < short.len() && short[k] == inner[i];
                    assert(list[k] == out[i]);
                }
            }
        }
    }
}

proof fn lemma_earlier_asymmetric(a: ReceiptRowView, b: ReceiptRowView)
    requires
        earlier(a, b),
    ensures
        !earlier(b, a),
{
    if earlier(b, a) {
        lemma_text_less_irreflexive(a.created_at);
        lemma_text_less_irreflexive(a.run_id);
        if text_less(a.created_at, b.created_at) {
            if text_less(b.created_at, a.created_at) {
                lemma_text_less_transitive(a.created_at, b.created_at, a.created_at);
            }
        } else if text_less(b.run_id, a.run_id) && text_less(a.run_id, b.run_id) {
            lemma_text_less_transitive(a.run_id, b.run_id, a.run_id);
        }
    }
}

/// What is not earlier than the last is not earlier than what comes before it.
proof fn lemma_earlier(row: ReceiptRowView, a: ReceiptRowView, last: ReceiptRowView)
    requires
        !earlier(row, last),
        !earlier(last, a),
    ensures
        !earlier(row, a),
{
    if earlier(row, a) {
        lemma_text_less_total(row.created_at, last.created_at);
        lemma_text_less_total(last.created_at, a.created_at);
        lemma_text_less_total(row.run_id, last.run_id);
        lemma_text_less_total(last.run_id, a.run_id);
        lemma_text_less_irreflexive(row.created_at);
        lemma_text_less_irreflexive(last.created_at);
        lemma_text_less_irreflexive(row.run_id);
        lemma_text_less_irreflexive(last.run_id);
        if text_less(row.created_at, a.created_at) {
            if text_less(last.created_at, row.created_at) {
                lemma_text_less_transitive(last.created_at, row.created_at, a.created_at);
            }
        } else {
            if text_less(last.created_at, row.created_at) {
            } else {
                if text_less(last.run_id, row.run_id) {
                    lemma_text_less_transitive(last.run_id, row.run_id, a.run_id);
                }
            }
        }
    }
}

} // verus!
