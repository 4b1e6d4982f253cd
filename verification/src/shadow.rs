//! The read-only market consumer: its contract, its health and its ledger.
use crate::clock::stamp_text;
use crate::data::{quote_decimal, quote_stamp, quoted_decimal, quoted_stamp};
use crate::digest::{text_digest, text_sha256};
use crate::json::{
    json_at, json_part, json_same, object_of, plain_names, pointer_to, quote, quoted,
    readable_object, same_json_at, texts, write_flag, write_integer, JsonPart,
    JsonPartView,
};
use crate::model::market::{MarketBar, MarketBarView};
use crate::text::{int_text, join, starts, strip_prefix, text_eq};
use crate::value::Value;
use vstd::prelude::*;

verus! {

/// Why the consumer stops.
#[derive(Clone, Copy, Debug, PartialEq, Eq, Structural)]
pub enum ShadowError {
    /// The duration is not 600 to 1800 seconds.
    Duration,
    /// Bars are not of five minutes.
    Interval,
    /// A gap between observations is too long.
    Stale,
    /// The nonce lacks its prefix.
    NoncePrefix,
    /// The nonce is no identifier.
    Nonce,
    /// The nonce is not a random identifier in its usual form.
    NonceForm,
    /// The contract is not that of an isolated, read-only consumer.
    Contract,
    /// The root or the state directory is a link.
    Link,
    /// A file of evidence lies outside of the state directory.
    Escaped,
    /// A file of evidence is not empty.
    NotFresh,
    /// An observation lies in the future.
    Future,
    /// An observation moved back.
    Backwards,
    /// A count is too large.
    Counter,
    /// No message was received.
    NoMessage,
    /// The first message released a bar.
    FirstMessage,
    /// The source was observed less than twice.
    Observations,
    /// No bar was completed.
    NoBar,
    /// The ledger cannot take another event.
    Sequence,
    /// The document of an event cannot be written.
    Document,
    /// The digest of an event is one of another event.
    Digest,
    /// The ledger does not hold three events for each bar.
    Counts,
    /// The ledger enables money actions.
    Money,
    /// An event is out of order.
    Order,
    /// The document of an event cannot be read.
    Unreadable,
    /// The document of an event is not that of its row.
    Binding,
    /// The document of an event has no bar.
    BarMissing,
    /// The bar of an event is not that of its row.
    BarBinding,
    /// The three events of a bar do not hold the same bar.
    Triplet,
    /// The digest of an event is not that of its document.
    Hash,
}

/// Accepts runs of 600 to 1800 seconds.
pub fn validate_duration(duration_seconds: u64) -> (r: Result<(), ShadowError>)
    ensures
        r == (if 600 <= duration_seconds <= 1800 {
            Ok::<(), ShadowError>(())
        } else {
            Err::<(), ShadowError>(ShadowError::Duration)
        }),
{
    if duration_seconds < 600 || duration_seconds > 1800 {
        return Err(ShadowError::Duration);
    }
    Ok(())
}

/// The longest gap between observations, in microseconds.
pub const ACCEPTANCE_GAP_US: u64 = 45_000_000;

/// Accepts bars of five minutes only.
pub fn validate_interval(interval_minutes: u32) -> (r: Result<(), ShadowError>)
    ensures
        r == (if interval_minutes == 5 {
            Ok::<(), ShadowError>(())
        } else {
            Err::<(), ShadowError>(ShadowError::Interval)
        }),
{
    if interval_minutes != 5 {
        return Err(ShadowError::Interval);
    }
    Ok(())
}

/// Whether gaps are all short enough.
pub open spec fn healthy(gaps_us: Seq<u64>) -> bool {
    forall|i: int| 0 <= i < gaps_us.len() ==> (#[trigger] gaps_us[i]) <= ACCEPTANCE_GAP_US
}

/// Accepts gaps that are all short enough.
pub fn validate_observation_health(gaps_us: [u64; 5]) -> (r: Result<(), ShadowError>)
    ensures
        r == (if healthy(gaps_us@) {
            Ok::<(), ShadowError>(())
        } else {
            Err::<(), ShadowError>(ShadowError::Stale)
        }),
{
    let mut i: usize = 0;
    while i < 5
        invariant
            i <= 5,
            forall|j: int| 0 <= j < i ==> (#[trigger] gaps_us@[j]) <= ACCEPTANCE_GAP_US,
        decreases 5 - i,
    {
        if gaps_us[i] > ACCEPTANCE_GAP_US {
            assert(gaps_us@[i as int] > ACCEPTANCE_GAP_US);
            return Err(ShadowError::Stale);
        }
        i = i + 1;
    }
    Ok(())
}

/// What `uuid` reads from a text: the number of the version and the hyphenated
/// form.
pub uninterp spec fn read_uuid(text: Seq<char>) -> Option<(nat, Seq<char>)>;

/// `uuid::Uuid::parse_str`: the number of the version and the hyphenated form of
/// the identifier that a text denotes, or nothing.
#[verifier::external_body]
fn outside_uuid(text: &str) -> (r: Option<(usize, String)>)
    ensures
        match r {
            Some(p) => read_uuid(text@) == Some((p.0 as nat, p.1@)),
            None => read_uuid(text@) is None,
        },
{
    let id = uuid::Uuid::parse_str(text).ok()?;
    Some((id.get_version_num(), id.hyphenated().to_string()))
}

/// What the consumer is allowed to do, as its contract says.
pub struct Contract {
    pub mode: String,
    pub nonce: String,
    pub mqtt_host: String,
    pub mqtt_port: u16,
    pub mqtt_namespace: String,
    pub worker_mqtt_username: String,
    pub worker_mqtt_client_id: String,
    pub money_actions_enabled: bool,
}

/// The content of [`Contract`].
pub ghost struct ContractView {
    pub mode: Seq<char>,
    pub nonce: Seq<char>,
    pub mqtt_host: Seq<char>,
    pub mqtt_port: u16,
    pub mqtt_namespace: Seq<char>,
    pub worker_mqtt_username: Seq<char>,
    pub worker_mqtt_client_id: Seq<char>,
    pub money_actions_enabled: bool,
}

impl View for Contract {
    type V = ContractView;

    open spec fn view(&self) -> ContractView {
        ContractView {
            mode: self.mode@,
            nonce: self.nonce@,
            mqtt_host: self.mqtt_host@,
            mqtt_port: self.mqtt_port,
            mqtt_namespace: self.mqtt_namespace@,
            worker_mqtt_username: self.worker_mqtt_username@,
            worker_mqtt_client_id: self.worker_mqtt_client_id@,
            money_actions_enabled: self.money_actions_enabled,
        }
    }
}

/// What the file system shows of the paths of a contract.
#[derive(Clone, Copy, Debug, PartialEq, Eq, Structural)]
pub struct PathFacts {
    /// The root is the one that the nonce names.
    pub root_is_expected: bool,
    /// The contract is the file of that name in the root.
    pub contract_in_root: bool,
    /// The directory of the contract is the root.
    pub parent_is_root: bool,
    /// The root is a link.
    pub root_is_link: bool,
    /// The state directory is a link.
    pub state_is_link: bool,
    /// The log of messages is the file of its name in the state directory.
    pub events_in_state: bool,
    /// The log of bars is the file of its name in the state directory.
    pub bars_in_state: bool,
    /// The ledger is the file of its name in the state directory.
    pub ledger_in_state: bool,
}

/// The directory that a nonce names.
pub fn expected_root(nonce: &str) -> (r: String)
    ensures
        r@ == "/tmp/gridedge-market-e2e-"@ + nonce@,
{
    join("/tmp/gridedge-market-e2e-", nonce)
}

/// Why a nonce is not one of an isolated consumer, if it is not.
pub open spec fn nonce_fault(nonce: Seq<char>) -> Option<ShadowError> {
    let prefix = "e2e-0629-"@;
    if !starts(nonce, prefix) {
        Some(ShadowError::NoncePrefix)
    } else {
        let text = nonce.subrange(prefix.len() as int, nonce.len() as int);
        match read_uuid(text) {
            None => Some(ShadowError::Nonce),
            Some((version, form)) => if version != 4 || form != text {
                Some(ShadowError::NonceForm)
            } else {
                None
            },
        }
    }
}

/// Whether the contract is that of an isolated, read-only consumer.
pub open spec fn atomic(c: ContractView, p: PathFacts) -> bool {
    p.root_is_expected && p.contract_in_root && p.parent_is_root && c.mode
        == "ISOLATED_READ_ONLY_E2E"@ && !c.money_actions_enabled && c.mqtt_host == "127.0.0.1"@
        && c.mqtt_port == 18_883 && c.worker_mqtt_username == "gridedge-e2e-worker"@
        && c.worker_mqtt_client_id == c.nonce + "-worker"@ && c.mqtt_namespace == "gridedge-e2e/"@
        + c.nonce && !starts(c.mqtt_namespace, "gridedge/market"@)
}

/// Why a contract is refused, if it is.
pub open spec fn contract_fault(c: ContractView, p: PathFacts) -> Option<ShadowError> {
    match nonce_fault(c.nonce) {
        Some(e) => Some(e),
        None => if !atomic(c, p) {
            Some(ShadowError::Contract)
        } else if p.root_is_link || p.state_is_link {
            Some(ShadowError::Link)
        } else if !p.events_in_state || !p.bars_in_state || !p.ledger_in_state {
            Some(ShadowError::Escaped)
        } else {
            None
        },
    }
}

/// Checks a nonce.
pub fn validate_nonce(nonce: &str) -> (r: Result<(), ShadowError>)
    ensures
        r == (match nonce_fault(nonce@) {
            Some(e) => Err::<(), ShadowError>(e),
            None => Ok::<(), ShadowError>(()),
        }),
{
    match strip_prefix(nonce, "e2e-0629-") {
        None => Err(ShadowError::NoncePrefix),
        Some(text) => match outside_uuid(text.as_str()) {
            None => Err(ShadowError::Nonce),
            Some((version, form)) => if version != 4 || !text_eq(form.as_str(), text.as_str()) {
                Err(ShadowError::NonceForm)
            } else {
                Ok(())
            },
        },
    }
}

/// Checks a contract against what the file system shows of its paths.
pub fn load_contract(contract: &Contract, paths: PathFacts) -> (r: Result<(), ShadowError>)
    ensures
        r == (match contract_fault(contract@, paths) {
            Some(e) => Err::<(), ShadowError>(e),
            None => Ok::<(), ShadowError>(()),
        }),
{
    validate_nonce(contract.nonce.as_str())?;
    let client = join(contract.nonce.as_str(), "-worker");
    let namespace = join("gridedge-e2e/", contract.nonce.as_str());
    if !paths.root_is_expected || !paths.contract_in_root || !paths.parent_is_root || !text_eq(
        contract.mode.as_str(),
        "ISOLATED_READ_ONLY_E2E",
    ) || contract.money_actions_enabled || !text_eq(contract.mqtt_host.as_str(), "127.0.0.1")
        || contract.mqtt_port != 18_883 || !text_eq(
        contract.worker_mqtt_username.as_str(),
        "gridedge-e2e-worker",
    ) || !text_eq(contract.worker_mqtt_client_id.as_str(), client.as_str()) || !text_eq(
        contract.mqtt_namespace.as_str(),
        namespace.as_str(),
    ) || strip_prefix(contract.mqtt_namespace.as_str(), "gridedge/market").is_some() {
        return Err(ShadowError::Contract);
    }
    if paths.root_is_link || paths.state_is_link {
        return Err(ShadowError::Link);
    }
    if !paths.events_in_state || !paths.bars_in_state || !paths.ledger_in_state {
        return Err(ShadowError::Escaped);
    }
    Ok(())
}

/// Whether a file is missing or empty.
pub open spec fn is_fresh(size: Option<u64>) -> bool {
    size is None || size == Some(0u64)
}

/// Accepts files of evidence that are missing or empty.
pub fn ensure_fresh_evidence(
    market_event_log: Option<u64>,
    bar_log: Option<u64>,
    ledger: Option<u64>,
) -> (r: Result<(), ShadowError>)
    ensures
        r == (if is_fresh(market_event_log) && is_fresh(bar_log) && is_fresh(ledger) {
            Ok::<(), ShadowError>(())
        } else {
            Err::<(), ShadowError>(ShadowError::NotFresh)
        }),
{
    if file_is_fresh(market_event_log) && file_is_fresh(bar_log) && file_is_fresh(ledger) {
        Ok(())
    } else {
        Err(ShadowError::NotFresh)
    }
}

fn file_is_fresh(size: Option<u64>) -> (r: bool)
    ensures
        r == is_fresh(size),
{
    match size {
        None => true,
        Some(n) => n == 0,
    }
}

/// What the consumer has seen so far. Moments of its own clock are nanoseconds
/// from its start.
#[derive(Clone, Copy, Debug, PartialEq, Eq, Structural)]
pub struct ShadowRun {
    pub messages: u64,
    pub bars: u64,
    pub observations: u64,
    pub first_message_released_bar: bool,
    pub first_observed_at_us: Option<u64>,
    pub last_observed_at_us: Option<u64>,
    pub first_receipt_ns: Option<u64>,
    pub last_receipt_ns: Option<u64>,
    pub maximum_observation_gap_us: u64,
    pub maximum_receipt_gap_us: u64,
    pub maximum_observation_age_us: u64,
}

/// An observation of the source, as the consumer received it.
#[derive(Clone, Copy, Debug, PartialEq, Eq, Structural)]
pub struct ShadowObservation {
    pub observed_at_us: u64,
    pub received_at_us: u64,
    pub receipt_ns: u64,
}

/// The larger of two counts.
pub open spec fn more(a: u64, b: int) -> u64 {
    if b > a {
        b as u64
    } else {
        a
    }
}

/// What an observation makes of what was seen.
pub open spec fn observed(run: ShadowRun, o: ShadowObservation) -> Result<ShadowRun, ShadowError> {
    if run.observations == u64::MAX {
        Err(ShadowError::Counter)
    } else if o.received_at_us < o.observed_at_us {
        Err(ShadowError::Future)
    } else if run.last_observed_at_us is Some && o.observed_at_us < run.last_observed_at_us->0 {
        Err(ShadowError::Backwards)
    } else {
        Ok(
            ShadowRun {
                observations: (run.observations + 1) as u64,
                first_observed_at_us: if run.first_observed_at_us is None {
                    Some(o.observed_at_us)
                } else {
                    run.first_observed_at_us
                },
                last_observed_at_us: Some(o.observed_at_us),
                first_receipt_ns: if run.first_receipt_ns is None {
                    Some(o.receipt_ns)
                } else {
                    run.first_receipt_ns
                },
                last_receipt_ns: Some(o.receipt_ns),
                maximum_observation_gap_us: match run.last_observed_at_us {
                    Some(before) => more(
                        run.maximum_observation_gap_us,
                        o.observed_at_us - before,
                    ),
                    None => run.maximum_observation_gap_us,
                },
                maximum_receipt_gap_us: match run.last_receipt_ns {
                    Some(before) => more(
                        run.maximum_receipt_gap_us,
                        (o.receipt_ns - before) / 1000,
                    ),
                    None => run.maximum_receipt_gap_us,
                },
                maximum_observation_age_us: more(
                    run.maximum_observation_age_us,
                    o.received_at_us - o.observed_at_us,
                ),
                ..run
            },
        )
    }
}

/// What a message makes of what was seen.
pub open spec fn messaged(
    run: ShadowRun,
    released_bars: int,
    observation: Option<ShadowObservation>,
) -> Result<ShadowRun, ShadowError> {
    if run.messages == u64::MAX || run.bars + released_bars > u64::MAX {
        Err(ShadowError::Counter)
    } else {
        let counted = ShadowRun {
            messages: (run.messages + 1) as u64,
            bars: (run.bars + released_bars) as u64,
            first_message_released_bar: run.first_message_released_bar || (run.messages == 0
                && released_bars > 0),
            ..run
        };
        match observation {
            None => Ok(counted),
            Some(o) => observed(counted, o),
        }
    }
}

fn larger(a: u64, b: u64) -> (r: u64)
    ensures
        r == more(a, b as int),
{
    if b > a {
        b
    } else {
        a
    }
}

/// The gaps that a run ends with: before the first observation, after the last
/// one, and the largest ones.
pub open spec fn final_gaps(run: ShadowRun, end_ns: u64) -> Seq<u64> {
    seq![
        (run.first_receipt_ns->0 / 1000) as u64,
        if end_ns < run.last_receipt_ns->0 {
            0u64
        } else {
            ((end_ns - run.last_receipt_ns->0) / 1000) as u64
        },
        run.maximum_observation_age_us,
        run.maximum_observation_gap_us,
        run.maximum_receipt_gap_us,
    ]
}

/// Why a run is not accepted, if it is not.
pub open spec fn run_fault(run: ShadowRun, end_ns: u64) -> Option<ShadowError> {
    if run.messages == 0 {
        Some(ShadowError::NoMessage)
    } else if run.first_message_released_bar {
        Some(ShadowError::FirstMessage)
    } else if run.observations < 2 || run.first_receipt_ns is None || run.last_receipt_ns is None {
        Some(ShadowError::Observations)
    } else if !healthy(final_gaps(run, end_ns)) {
        Some(ShadowError::Stale)
    } else if run.bars == 0 {
        Some(ShadowError::NoBar)
    } else {
        None
    }
}

impl ShadowRun {
    /// Before anything was seen.
    pub fn new() -> (r: ShadowRun)
        ensures
            r == (ShadowRun {
                messages: 0,
                bars: 0,
                observations: 0,
                first_message_released_bar: false,
                first_observed_at_us: None,
                last_observed_at_us: None,
                first_receipt_ns: None,
                last_receipt_ns: None,
                maximum_observation_gap_us: 0,
                maximum_receipt_gap_us: 0,
                maximum_observation_age_us: 0,
            }),
    {
        ShadowRun {
            messages: 0,
            bars: 0,
            observations: 0,
            first_message_released_bar: false,
            first_observed_at_us: None,
            last_observed_at_us: None,
            first_receipt_ns: None,
            last_receipt_ns: None,
            maximum_observation_gap_us: 0,
            maximum_receipt_gap_us: 0,
            maximum_observation_age_us: 0,
        }
    }

    fn observe(self, o: ShadowObservation) -> (r: Result<ShadowRun, ShadowError>)
        ensures
            r == observed(self, o),
    {
        if self.observations == u64::MAX {
            return Err(ShadowError::Counter);
        }
        if o.received_at_us < o.observed_at_us {
            return Err(ShadowError::Future);
        }
        let observation_gap: u64 = match self.last_observed_at_us {
            Some(before) => if o.observed_at_us < before {
                return Err(ShadowError::Backwards);
            } else {
                larger(self.maximum_observation_gap_us, o.observed_at_us - before)
            },
            None => self.maximum_observation_gap_us,
        };
        let receipt_gap: u64 = match self.last_receipt_ns {
            Some(before) => if o.receipt_ns < before {
                self.maximum_receipt_gap_us
            } else {
                larger(self.maximum_receipt_gap_us, (o.receipt_ns - before) / 1000)
            },
            None => self.maximum_receipt_gap_us,
        };
        Ok(
            ShadowRun {
                observations: self.observations + 1,
                first_observed_at_us: match self.first_observed_at_us {
                    Some(x) => Some(x),
                    None => Some(o.observed_at_us),
                },
                last_observed_at_us: Some(o.observed_at_us),
                first_receipt_ns: match self.first_receipt_ns {
                    Some(x) => Some(x),
                    None => Some(o.receipt_ns),
                },
                last_receipt_ns: Some(o.receipt_ns),
                maximum_observation_gap_us: observation_gap,
                maximum_receipt_gap_us: receipt_gap,
                maximum_observation_age_us: larger(
                    self.maximum_observation_age_us,
                    o.received_at_us - o.observed_at_us,
                ),
                ..self
            },
        )
    }

    /// What a message makes of what was seen.
    pub fn take_message(self, released_bars: u64, observation: Option<ShadowObservation>) -> (r:
        Result<ShadowRun, ShadowError>)
        ensures
            r == messaged(self, released_bars as int, observation),
    {
        if self.messages == u64::MAX {
            return Err(ShadowError::Counter);
        }
        let bars: u64 = match self.bars.checked_add(released_bars) {
            Some(n) => n,
            None => {
                return Err(ShadowError::Counter);
            },
        };
        let counted = ShadowRun {
            messages: self.messages + 1,
            bars,
            first_message_released_bar: self.first_message_released_bar || (self.messages == 0
                && released_bars > 0),
            ..self
        };
        match observation {
            None => Ok(counted),
            Some(o) => counted.observe(o),
        }
    }

    /// Accepts a run that saw enough, often enough. The answer is the time before
    /// the first observation and after the last one, in microseconds.
    pub fn finish(&self, end_ns: u64) -> (r: Result<(u64, u64), ShadowError>)
        ensures
            match run_fault(*self, end_ns) {
                Some(e) => r == Err::<(u64, u64), ShadowError>(e),
                None => r == Ok::<(u64, u64), ShadowError>(
                    (final_gaps(*self, end_ns)[0], final_gaps(*self, end_ns)[1]),
                ),
            },
    {
        if self.messages == 0 {
            return Err(ShadowError::NoMessage);
        }
        if self.first_message_released_bar {
            return Err(ShadowError::FirstMessage);
        }
        if self.observations < 2 {
            return Err(ShadowError::Observations);
        }
        let (first, last): (u64, u64) = match (self.first_receipt_ns, self.last_receipt_ns) {
            (Some(first), Some(last)) => (first, last),
            _ => {
                return Err(ShadowError::Observations);
            },
        };
        let tail: u64 = if end_ns < last {
            0
        } else {
            (end_ns - last) / 1000
        };
        let gaps = [
            first / 1000,
            tail,
            self.maximum_observation_age_us,
            self.maximum_observation_gap_us,
            self.maximum_receipt_gap_us,
        ];
        assert(gaps@ =~= final_gaps(*self, end_ns));
        validate_observation_health(gaps)?;
        if self.bars == 0 {
            return Err(ShadowError::NoBar);
        }
        Ok((gaps[0], gaps[1]))
    }
}

/// A row of the ledger.
pub struct ShadowRow {
    pub sequence_number: i64,
    pub event_type: String,
    pub bar_timestamp: String,
    pub payload_json: String,
    pub previous_sha256: Option<String>,
    pub event_sha256: String,
}

/// The content of [`ShadowRow`].
#[verifier::ext_equal]
pub ghost struct ShadowRowView {
    pub sequence_number: i64,
    pub event_type: Seq<char>,
    pub bar_timestamp: Seq<char>,
    pub payload_json: Seq<char>,
    pub previous_sha256: Option<Seq<char>>,
    pub event_sha256: Seq<char>,
}

impl DeepView for ShadowRow {
    type V = ShadowRowView;

    open spec fn deep_view(&self) -> ShadowRowView {
        ShadowRowView {
            sequence_number: self.sequence_number,
            event_type: self.event_type@,
            bar_timestamp: self.bar_timestamp@,
            payload_json: self.payload_json@,
            previous_sha256: self.previous_sha256.deep_view(),
            event_sha256: self.event_sha256@,
        }
    }
}

impl View for ShadowRow {
    type V = ShadowRowView;

    open spec fn view(&self) -> ShadowRowView {
        self.deep_view()
    }
}

/// The kinds of the three events of a bar, in their order.
pub open spec fn kind_at(place: int) -> Seq<char> {
    if place % 3 == 0 {
        "MARKET_DATA_RECEIVED"@
    } else if place % 3 == 1 {
        "MARKET_BAR_DECISIONS_COMMITTED"@
    } else {
        "MARKET_BAR_PROCESSED"@
    }
}

fn kind_of(place: usize) -> (r: &'static str)
    ensures
        r@ == kind_at(place as int),
{
    if place % 3 == 0 {
        "MARKET_DATA_RECEIVED"
    } else if place % 3 == 1 {
        "MARKET_BAR_DECISIONS_COMMITTED"
    } else {
        "MARKET_BAR_PROCESSED"
    }
}

/// The digest of an event: that of the digest before it and its document.
pub open spec fn chained(previous: Option<Seq<char>>, payload: Seq<char>) -> Seq<char> {
    match previous {
        Some(before) => text_digest(before + payload),
        None => text_digest("GENESIS"@ + payload),
    }
}

fn chain(previous: Option<&str>, payload: &str) -> (r: String)
    ensures
        r@ == chained(
            match previous {
                Some(before) => Some(before@),
                None => None,
            },
            payload@,
        ),
{
    let text = match previous {
        Some(before) => join(before, payload),
        None => join("GENESIS", payload),
    };
    text_sha256(text.as_str())
}

/// The digest that the event at a place follows.
pub open spec fn digest_before(rows: Seq<ShadowRowView>, place: int) -> Option<Seq<char>> {
    if place == 0 {
        None
    } else {
        Some(rows[place - 1].event_sha256)
    }
}

/// The names of the parts of a bar in its document.
pub open spec fn bar_names() -> Seq<Seq<char>> {
    seq![
        "amount"@,
        "close"@,
        "high"@,
        "low"@,
        "open"@,
        "symbol"@,
        "timestamp"@,
        "volume"@,
    ]
}

/// The parts of a bar in its document.
pub open spec fn bar_values(b: MarketBarView) -> Seq<Seq<char>> {
    seq![
        match b.amount {
            Some(amount) => quoted_decimal(amount),
            None => "null"@,
        },
        quoted_decimal(b.close),
        quoted_decimal(b.high),
        quoted_decimal(b.low),
        quoted_decimal(b.open),
        quoted(b.symbol),
        quoted_stamp(b.timestamp),
        int_text(b.volume as int),
    ]
}

/// The names of the parts of an event in its document.
pub open spec fn event_names() -> Seq<Seq<char>> {
    seq!["bar"@, "event_type"@, "money_actions_enabled"@, "sequence_number"@]
}

/// The document of an event.
pub open spec fn event_document(b: MarketBarView, kind: Seq<char>, sequence: i64) -> Option<
    Seq<char>,
> {
    match readable_object(bar_names(), bar_values(b)) {
        None => None,
        Some(bar) => readable_object(
            event_names(),
            seq![bar, quoted(kind), "false"@, int_text(sequence as int)],
        ),
    }
}

/// Whether a digest is one of the ledger.
pub open spec fn has_digest(rows: Seq<ShadowRowView>, digest: Seq<char>) -> bool {
    exists|i: int| 0 <= i < rows.len() && (#[trigger] rows[i]).event_sha256 == digest
}

/// The ledger after one more event.
pub open spec fn with_event(rows: Seq<ShadowRowView>, b: MarketBarView, kind: Seq<char>) -> Result<
    Seq<ShadowRowView>,
    ShadowError,
> {
    let last: i64 = if rows.len() == 0 {
        0
    } else {
        rows.last().sequence_number
    };
    if last == i64::MAX {
        Err(ShadowError::Sequence)
    } else {
        let sequence = (last + 1) as i64;
        let previous = digest_before(rows, rows.len() as int);
        match event_document(b, kind, sequence) {
            None => Err(ShadowError::Document),
            Some(payload) => {
                let digest = chained(previous, payload);
                if has_digest(rows, digest) {
                    Err(ShadowError::Digest)
                } else {
                    Ok(
                        rows.push(
                            ShadowRowView {
                                sequence_number: sequence,
                                event_type: kind,
                                bar_timestamp: stamp_text(
                                    b.timestamp.d(),
                                    b.timestamp.s(),
                                    b.timestamp.n(),
                                ),
                                payload_json: payload,
                                previous_sha256: previous,
                                event_sha256: digest,
                            },
                        ),
                    )
                }
            },
        }
    }
}

/// The ledger after the first `n` events of a bar.
pub open spec fn with_events(rows: Seq<ShadowRowView>, b: MarketBarView, n: nat) -> Result<
    Seq<ShadowRowView>,
    ShadowError,
>
    decreases n,
{
    if n == 0 {
        Ok(rows)
    } else {
        match with_events(rows, b, (n - 1) as nat) {
            Err(e) => Err(e),
            Ok(before) => with_event(before, b, kind_at(n - 1)),
        }
    }
}

proof fn lemma_bar_names()
    ensures
        plain_names(bar_names()),
{
    reveal_strlit("amount");
    reveal_strlit("close");
    reveal_strlit("high");
    reveal_strlit("low");
    reveal_strlit("open");
    reveal_strlit("symbol");
    reveal_strlit("timestamp");
    reveal_strlit("volume");
    let names = bar_names();
    assert(names[0][0] == 'a' && names[1][0] == 'c' && names[2][0] == 'h' && names[3][0] == 'l'
        && names[4][0] == 'o' && names[5][0] == 's' && names[6][0] == 't' && names[7][0] == 'v');
}

proof fn lemma_event_names()
    ensures
        plain_names(event_names()),
{
    reveal_strlit("bar");
    reveal_strlit("event_type");
    reveal_strlit("money_actions_enabled");
    reveal_strlit("sequence_number");
    let names = event_names();
    assert(names[0][0] == 'b' && names[1][0] == 'e' && names[2][0] == 'm' && names[3][0] == 's');
}

/// What the document of a bar is known by.
pub open spec fn bar_reads(document: Seq<char>, b: MarketBarView) -> bool {
    json_part(document, ""@) == Some(JsonPartView::Other)
        && json_part(document, pointer_to("timestamp"@, ""@)) == Some(
        JsonPartView::Text(stamp_text(b.timestamp.d(), b.timestamp.s(), b.timestamp.n())),
    ) && json_part(document, pointer_to("symbol"@, ""@)) == Some(JsonPartView::Text(b.symbol))
}

fn bar_document(bar: &MarketBar) -> (r: Option<String>)
    ensures
        r.deep_view() == readable_object(bar_names(), bar_values(bar@)),
        r matches Some(x) ==> bar_reads(x@, bar@),
{
    let mut names: Vec<String> = Vec::new();
    names.push("amount".to_owned());
    names.push("close".to_owned());
    names.push("high".to_owned());
    names.push("low".to_owned());
    names.push("open".to_owned());
    names.push("symbol".to_owned());
    names.push("timestamp".to_owned());
    names.push("volume".to_owned());
    let mut values: Vec<String> = Vec::new();
    match &bar.amount {
        Some(amount) => {
            values.push(quote_decimal(amount));
        },
        None => {
            values.push(write_flag(None));
        },
    }
    values.push(quote_decimal(&bar.close));
    values.push(quote_decimal(&bar.high));
    values.push(quote_decimal(&bar.low));
    values.push(quote_decimal(&bar.open));
    values.push(quote(bar.symbol.as_str()));
    values.push(quote_stamp(&bar.timestamp));
    values.push(write_integer(bar.volume));
    assert(texts(names@) =~= bar_names());
    assert(texts(values@) =~= bar_values(bar@));
    proof {
        lemma_bar_names();
    }
    let r = object_of(&names, &values);
    proof {
        reveal_strlit("");
        if r is Some {
            let x = r->0;
            assert(json_part(x@, pointer_to(names@[6]@, ""@)) == json_part(values@[6]@, ""@));
            assert(json_part(x@, pointer_to(names@[5]@, ""@)) == json_part(values@[5]@, ""@));
        }
    }
    r
}

/// What the document of an event is known by.
pub open spec fn document_reads(
    document: Seq<char>,
    bar_document: Seq<char>,
    b: MarketBarView,
    kind: Seq<char>,
    sequence: i64,
) -> bool {
    json_part(document, ""@) is Some && json_part(document, "/event_type"@) == Some(
        JsonPartView::Text(kind),
    ) && json_part(
        document,
        "/sequence_number"@,
    ) == Some(
        if sequence >= 0 {
            JsonPartView::Count(sequence as u64)
        } else {
            JsonPartView::Other
        },
    ) && json_part(document, "/money_actions_enabled"@) == Some(JsonPartView::Flag(false))
        && json_part(document, "/bar/timestamp"@) == Some(
        JsonPartView::Text(stamp_text(b.timestamp.d(), b.timestamp.s(), b.timestamp.n())),
    ) && json_part(document, "/bar/symbol"@) == Some(JsonPartView::Text(b.symbol)) && json_part(
        document,
        "/bar"@,
    ) == json_part(bar_document, ""@) && (forall|other: Seq<char>, values: Seq<Seq<char>>|
        #![trigger readable_object(event_names(), values), json_same(other, document, "/bar"@)]
        readable_object(event_names(), values) == Some(other) && values.len() == 4 && values[0]
            == bar_document ==> json_same(other, document, "/bar"@))
}

proof fn lemma_pointers()
    ensures
        pointer_to("event_type"@, ""@) == "/event_type"@,
        pointer_to("sequence_number"@, ""@) == "/sequence_number"@,
        pointer_to("money_actions_enabled"@, ""@) == "/money_actions_enabled"@,
        pointer_to("bar"@, ""@) == "/bar"@,
        pointer_to("bar"@, pointer_to("timestamp"@, ""@)) == "/bar/timestamp"@,
        pointer_to("bar"@, pointer_to("symbol"@, ""@)) == "/bar/symbol"@,
        pointer_to("timestamp"@, ""@)[0] == '/',
        pointer_to("symbol"@, ""@)[0] == '/',
{
    reveal_strlit("");
    reveal_strlit("/");
    reveal_strlit("bar");
    reveal_strlit("timestamp");
    reveal_strlit("symbol");
    reveal_strlit("event_type");
    reveal_strlit("sequence_number");
    reveal_strlit("money_actions_enabled");
    reveal_strlit("/bar");
    reveal_strlit("/bar/timestamp");
    reveal_strlit("/bar/symbol");
    reveal_strlit("/event_type");
    reveal_strlit("/sequence_number");
    reveal_strlit("/money_actions_enabled");
    assert(pointer_to("event_type"@, ""@) =~= "/event_type"@);
    assert(pointer_to("sequence_number"@, ""@) =~= "/sequence_number"@);
    assert(pointer_to("money_actions_enabled"@, ""@) =~= "/money_actions_enabled"@);
    assert(pointer_to("bar"@, ""@) =~= "/bar"@);
    assert(pointer_to("bar"@, pointer_to("timestamp"@, ""@)) =~= "/bar/timestamp"@);
    assert(pointer_to("bar"@, pointer_to("symbol"@, ""@)) =~= "/bar/symbol"@);
}

fn write_document(bar: &MarketBar, bar_document: &String, kind: &str, sequence: i64) -> (r: Option<
    String,
>)
    requires
        bar_reads(bar_document@, bar@),
    ensures
        r.deep_view() == readable_object(
            event_names(),
            seq![bar_document@, quoted(kind@), "false"@, int_text(sequence as int)],
        ),
        r matches Some(x) ==> document_reads(x@, bar_document@, bar@, kind@, sequence),
{
    let mut names: Vec<String> = Vec::new();
    names.push("bar".to_owned());
    names.push("event_type".to_owned());
    names.push("money_actions_enabled".to_owned());
    names.push("sequence_number".to_owned());
    let mut values: Vec<String> = Vec::new();
    values.push(bar_document.dup());
    values.push(quote(kind));
    values.push(write_flag(Some(false)));
    values.push(write_integer(sequence));
    assert(texts(names@) =~= event_names());
    assert(texts(values@) =~= seq![
        bar_document@,
        quoted(kind@),
        "false"@,
        int_text(sequence as int),
    ]);
    proof {
        lemma_event_names();
    }
    let r = object_of(&names, &values);
    proof {
        if r is Some {
            let x = r->0;
            lemma_pointers();
            reveal_strlit("");
            let stamp = pointer_to("timestamp"@, ""@);
            let symbol = pointer_to("symbol"@, ""@);
            assert(json_part(x@, pointer_to(names@[0]@, ""@)) == json_part(values@[0]@, ""@));
            assert forall|other: Seq<char>, ov: Seq<Seq<char>>|
                #![trigger readable_object(event_names(), ov), json_same(other, x@, "/bar"@)]
                readable_object(event_names(), ov) == Some(other) && ov.len() == 4 && ov[0]
                    == bar_document@ implies json_same(other, x@, "/bar"@) by {
                assert(event_names()[0] == names@[0]@);
                assert(json_same(other, x@, pointer_to(names@[0]@, ""@)));
            }
            assert(json_part(x@, pointer_to(names@[0]@, stamp)) == json_part(values@[0]@, stamp));
            assert(json_part(x@, pointer_to(names@[0]@, symbol)) == json_part(values@[0]@, symbol));
            assert(json_part(x@, pointer_to(names@[1]@, ""@)) == json_part(values@[1]@, ""@));
            assert(json_part(x@, pointer_to(names@[2]@, ""@)) == json_part(values@[2]@, ""@));
            assert(json_part(x@, pointer_to(names@[3]@, ""@)) == json_part(values@[3]@, ""@));
        }
    }
    r
}

fn knows_digest(rows: &Vec<ShadowRow>, digest: &str) -> (r: bool)
    ensures
        r == has_digest(rows.deep_view(), digest@),
{
    let ghost all = rows.deep_view();
    let mut i: usize = 0;
    while i < rows.len()
        invariant
            i <= rows.len(),
            all == rows.deep_view(),
            forall|j: int| 0 <= j < i ==> (#[trigger] all[j]).event_sha256 != digest@,
        decreases rows.len() - i,
    {
        assert(all[i as int] == rows[i as int]@);
        if text_eq(rows[i].event_sha256.as_str(), digest) {
            return true;
        }
        i = i + 1;
    }
    false
}

/// Whether a row is an event of a bar as it is written.
pub open spec fn row_reads(row: ShadowRowView, b: MarketBarView) -> bool {
    readable_object(bar_names(), bar_values(b)) is Some && bar_reads(
        readable_object(bar_names(), bar_values(b))->0,
        b,
    ) && document_reads(
        row.payload_json,
        readable_object(bar_names(), bar_values(b))->0,
        b,
        row.event_type,
        row.sequence_number,
    ) && event_document(b, row.event_type, row.sequence_number) == Some(row.payload_json)
}

fn append_e2e_event(rows: &mut Vec<ShadowRow>, kind: &str, bar: &MarketBar) -> (r: Result<
    (),
    ShadowError,
>)
    ensures
        match with_event(old(rows).deep_view(), bar@, kind@) {
            Ok(after) => r == Ok::<(), ShadowError>(()) && final(rows).deep_view() == after,
            Err(e) => r == Err::<(), ShadowError>(e) && final(rows).deep_view() == old(
                rows,
            ).deep_view(),
        },
        r is Ok ==> row_reads(final(rows).deep_view().last(), bar@),
{
    let ghost all = rows.deep_view();
    let count: usize = rows.len();
    let mut last: i64 = 0;
    let mut previous: Option<String> = None;
    if count > 0 {
        assert(all[count - 1] == rows[count - 1]@);
        last = rows[count - 1].sequence_number;
        previous = Some(rows[count - 1].event_sha256.dup());
    }
    assert(previous.deep_view() == digest_before(all, all.len() as int));
    if last == i64::MAX {
        return Err(ShadowError::Sequence);
    }
    let sequence: i64 = last + 1;
    let bar_part = match bar_document(bar) {
        Some(x) => x,
        None => {
            return Err(ShadowError::Document);
        },
    };
    let payload = match write_document(bar, &bar_part, kind, sequence) {
        Some(x) => x,
        None => {
            return Err(ShadowError::Document);
        },
    };
    let before: Option<&str> = match &previous {
        Some(x) => Some(x.as_str()),
        None => None,
    };
    let digest = chain(before, payload.as_str());
    if knows_digest(rows, digest.as_str()) {
        return Err(ShadowError::Digest);
    }
    let row = ShadowRow {
        sequence_number: sequence,
        event_type: kind.to_owned(),
        bar_timestamp: bar.timestamp.stamp(),
        payload_json: payload,
        previous_sha256: previous,
        event_sha256: digest,
    };
    let ghost added = row@;
    rows.push(row);
    assert(rows.deep_view() =~= all.push(added));
    Ok(())
}

/// Why the event at a place of the ledger is refused, if it is.
pub open spec fn event_fault(rows: Seq<ShadowRowView>, i: int) -> Option<ShadowError> {
    let row = rows[i];
    let group = rows[i - i % 3];
    if row.sequence_number != i + 1 || row.event_type != kind_at(i) || row.previous_sha256
        != digest_before(rows, i) {
        Some(ShadowError::Order)
    } else if json_part(row.payload_json, ""@) is None {
        Some(ShadowError::Unreadable)
    } else if json_part(row.payload_json, "/event_type"@) != Some(
        JsonPartView::Text(row.event_type),
    ) || json_part(row.payload_json, "/sequence_number"@) != Some(
        JsonPartView::Count(row.sequence_number as u64),
    ) || json_part(row.payload_json, "/money_actions_enabled"@) != Some(JsonPartView::Flag(false)) {
        Some(ShadowError::Binding)
    } else if json_part(row.payload_json, "/bar"@) is None || json_part(row.payload_json, "/bar"@)
        == Some(JsonPartView::Absent) {
        Some(ShadowError::BarMissing)
    } else if json_part(row.payload_json, "/bar/timestamp"@) != Some(
        JsonPartView::Text(row.bar_timestamp),
    ) || json_part(row.payload_json, "/bar/symbol"@) != Some(JsonPartView::Text("002256.SZ"@)) {
        Some(ShadowError::BarBinding)
    } else if i % 3 != 0 && (group.bar_timestamp != row.bar_timestamp || !json_same(
        group.payload_json,
        row.payload_json,
        "/bar"@,
    )) {
        Some(ShadowError::Triplet)
    } else if chained(row.previous_sha256, row.payload_json) != row.event_sha256 {
        Some(ShadowError::Hash)
    } else {
        None
    }
}

/// The first fault of the first `n` events.
pub open spec fn first_event_fault(rows: Seq<ShadowRowView>, n: nat) -> Option<ShadowError>
    decreases n,
{
    if n == 0 {
        None
    } else {
        match first_event_fault(rows, (n - 1) as nat) {
            Some(e) => Some(e),
            None => event_fault(rows, n - 1),
        }
    }
}

/// How many of the first `n` events are of a kind.
pub open spec fn kind_count(rows: Seq<ShadowRowView>, kind: Seq<char>, n: nat) -> nat
    decreases n,
{
    if n == 0 {
        0
    } else if rows[n - 1].event_type == kind {
        kind_count(rows, kind, (n - 1) as nat) + 1
    } else {
        kind_count(rows, kind, (n - 1) as nat)
    }
}

/// Whether the ledger holds three events for each of some bars, one of each kind.
pub open spec fn counts_hold(rows: Seq<ShadowRowView>, bar_count: u64) -> bool {
    rows.len() > 0 && rows.len() == bar_count * 3 && kind_count(rows, kind_at(0), rows.len())
        == bar_count && kind_count(rows, kind_at(1), rows.len()) == bar_count && kind_count(
        rows,
        kind_at(2),
        rows.len(),
    ) == bar_count
}

/// Why a ledger is refused, if it is.
pub open spec fn ledger_fault(
    rows: Seq<ShadowRowView>,
    money_actions: Option<Seq<char>>,
    bar_count: u64,
) -> Option<ShadowError> {
    if !counts_hold(rows, bar_count) {
        Some(ShadowError::Counts)
    } else if money_actions != Some("false"@) {
        Some(ShadowError::Money)
    } else {
        first_event_fault(rows, rows.len())
    }
}

proof fn lemma_event_fault_stays(rows: Seq<ShadowRowView>, n: nat, m: nat)
    requires
        n <= m,
        first_event_fault(rows, n) is Some,
    ensures
        first_event_fault(rows, m) == first_event_fault(rows, n),
    decreases m - n,
{
    if n < m {
        lemma_event_fault_stays(rows, n, (m - 1) as nat);
    }
}

fn count_kind(rows: &Vec<ShadowRow>, kind: &str) -> (r: usize)
    ensures
        r == kind_count(rows.deep_view(), kind@, rows.deep_view().len()),
{
    let ghost all = rows.deep_view();
    let mut n: usize = 0;
    let mut i: usize = 0;
    while i < rows.len()
        invariant
            n <= i <= rows.len(),
            all == rows.deep_view(),
            n == kind_count(all, kind@, i as nat),
        decreases rows.len() - i,
    {
        assert(all[i as int] == rows[i as int]@);
        if text_eq(rows[i].event_type.as_str(), kind) {
            n = n + 1;
        }
        i = i + 1;
    }
    n
}

fn part_is_text(document: &str, pointer: &str, text: &str) -> (r: bool)
    ensures
        r == (json_part(document@, pointer@) == Some(JsonPartView::Text(text@))),
{
    match json_at(document, pointer) {
        Some(part) => part.is_text(text),
        None => false,
    }
}

fn check_event(rows: &Vec<ShadowRow>, i: usize) -> (r: Option<ShadowError>)
    requires
        i < rows@.len(),
    ensures
        r == event_fault(rows.deep_view(), i as int),
{
    let ghost all = rows.deep_view();
    assert(all[i as int] == rows[i as int]@);
    let row = &rows[i];
    let previous: Option<String> = if i == 0 {
        None
    } else {
        assert(all[i - 1] == rows[i - 1]@);
        Some(rows[i - 1].event_sha256.dup())
    };
    assert(previous.deep_view() == digest_before(all, i as int));
    if row.sequence_number as i128 != i as i128 + 1 || !text_eq(
        row.event_type.as_str(),
        kind_of(i),
    ) || !row.previous_sha256.same(&previous) {
        return Some(ShadowError::Order);
    }
    let payload = row.payload_json.as_str();
    if json_at(payload, "").is_none() {
        return Some(ShadowError::Unreadable);
    }
    let counted = match json_at(payload, "/sequence_number") {
        Some(part) => part.is_count(row.sequence_number as u64),
        None => false,
    };
    let harmless = match json_at(payload, "/money_actions_enabled") {
        Some(part) => part.is_flag(false),
        None => false,
    };
    if !part_is_text(payload, "/event_type", row.event_type.as_str()) || !counted || !harmless {
        return Some(ShadowError::Binding);
    }
    match json_at(payload, "/bar") {
        None | Some(JsonPart::Absent) => {
            return Some(ShadowError::BarMissing);
        },
        _ => {},
    }
    if !part_is_text(payload, "/bar/timestamp", row.bar_timestamp.as_str()) || !part_is_text(
        payload,
        "/bar/symbol",
        "002256.SZ",
    ) {
        return Some(ShadowError::BarBinding);
    }
    if i % 3 != 0 {
        let first: usize = i - i % 3;
        assert(all[first as int] == rows[first as int]@);
        let group = &rows[first];
        if !text_eq(group.bar_timestamp.as_str(), row.bar_timestamp.as_str()) || !same_json_at(
            group.payload_json.as_str(),
            payload,
            "/bar",
        ) {
            return Some(ShadowError::Triplet);
        }
    }
    let before: Option<&str> = match &previous {
        Some(x) => Some(x.as_str()),
        None => None,
    };
    let digest = chain(before, payload);
    if !text_eq(digest.as_str(), row.event_sha256.as_str()) {
        return Some(ShadowError::Hash);
    }
    None
}

/// Checks that a ledger holds three events for each of some bars, that each event
/// is bound to its row, to its bar and to the event before it, and that money
/// actions are off. The answer is the number of the last event and its digest.
pub fn verify_ledger(rows: &Vec<ShadowRow>, money_actions: Option<&str>, bar_count: u64) -> (r:
    Result<(u64, String), ShadowError>)
    ensures
        match ledger_fault(
            rows.deep_view(),
            match money_actions {
                Some(x) => Some(x@),
                None => None,
            },
            bar_count,
        ) {
            Some(e) => r matches Err(x) && x == e,
            None => r matches Ok(x) && x.0 == rows.deep_view().len() && x.1@
                == rows.deep_view().last().event_sha256,
        },
{
    let ghost all = rows.deep_view();
    let count: usize = rows.len();
    let received: usize = count_kind(rows, kind_of(0));
    let decided: usize = count_kind(rows, kind_of(1));
    let processed: usize = count_kind(rows, kind_of(2));
    if count == 0 || count as u128 != bar_count as u128 * 3 || received as u64 != bar_count
        || decided as u64 != bar_count || processed as u64 != bar_count {
        return Err(ShadowError::Counts);
    }
    let disabled = match money_actions {
        Some(x) => text_eq(x, "false"),
        None => false,
    };
    if !disabled {
        return Err(ShadowError::Money);
    }
    let mut i: usize = 0;
    while i < count
        invariant
            i <= count == rows.len(),
            all == rows.deep_view(),
            first_event_fault(all, i as nat) is None,
            counts_hold(all, bar_count),
            money_actions matches Some(x) && x@ == "false"@,
        decreases count - i,
    {
        if let Some(e) = check_event(rows, i) {
            proof {
                lemma_event_fault_stays(all, (i + 1) as nat, all.len());
            }
            return Err(e);
        }
        i = i + 1;
    }
    assert(all[count - 1] == rows[count - 1]@);
    Ok((count as u64, rows[count - 1].event_sha256.dup()))
}

/// Whether a ledger holds whole triplets, each event of which is in order.
pub open spec fn sound(rows: Seq<ShadowRowView>) -> bool {
    rows.len() % 3 == 0 && forall|i: int|
        0 <= i < rows.len() ==> (#[trigger] event_fault(rows, i)) is None
}

proof fn lemma_fault_of_prefix(rows: Seq<ShadowRowView>, row: ShadowRowView, i: int)
    requires
        0 <= i < rows.len(),
    ensures
        event_fault(rows.push(row), i) == event_fault(rows, i),
{
    let longer = rows.push(row);
    assert(longer[i] == rows[i]);
    assert(longer[i - i % 3] == rows[i - i % 3]);
    if i > 0 {
        assert(longer[i - 1] == rows[i - 1]);
    }
}

/// Whether every event of a ledger up to now is in order.
spec fn orderly(rows: Seq<ShadowRowView>) -> bool {
    forall|i: int| 0 <= i < rows.len() ==> (#[trigger] event_fault(rows, i)) is None
}

proof fn lemma_one_more(before: Seq<ShadowRowView>, after: Seq<ShadowRowView>, b: MarketBarView, k: int)
    requires
        0 <= k < 3,
        k <= before.len(),
        (before.len() - k) % 3 == 0,
        b.symbol == "002256.SZ"@,
        orderly(before),
        forall|j: int|
            before.len() - k <= j < before.len() ==> row_reads(#[trigger] before[j], b)
                && before[j].bar_timestamp == stamp_text(
                b.timestamp.d(),
                b.timestamp.s(),
                b.timestamp.n(),
            ),
        with_event(before, b, kind_at(k)) == Ok::<Seq<ShadowRowView>, ShadowError>(after),
        row_reads(after.last(), b),
    ensures
        orderly(after),
        after.len() == before.len() + 1,
        after =~= before.push(after.last()),
        after.last().bar_timestamp == stamp_text(b.timestamp.d(), b.timestamp.s(), b.timestamp.n()),
{
    let n = before.len() as int;
    let row = after.last();
    assert(after =~= before.push(row));
    assert(n % 3 == k);
    assert(kind_at(n) == kind_at(k));
    if n > 0 {
        assert(event_fault(before, n - 1) is None);
        assert(before.last().sequence_number == n);
    }
    assert(row.sequence_number == n + 1);
    assert(after[n - n % 3] == if k == 0 {
        row
    } else {
        before[n - k]
    });
    if n > 0 {
        assert(after[n - 1] == before[n - 1]);
    }
    assert(digest_before(after, n) == digest_before(before, n));
    if k > 0 {
        let group = before[n - k];
        assert(row_reads(group, b));
        assert(json_same(group.payload_json, row.payload_json, "/bar"@));
    }
    assert(event_fault(after, n) is None);
    assert forall|i: int| 0 <= i < after.len() implies (#[trigger] event_fault(after, i)) is None by {
        if i < n {
            lemma_fault_of_prefix(before, row, i);
        }
    }
}

/// Appends the three events of a bar, all of them or none. What is appended to a
/// sound ledger leaves it sound.
pub fn append_bar_triplet(rows: &mut Vec<ShadowRow>, bar: &MarketBar) -> (r: Result<
    (),
    ShadowError,
>)
    ensures
        match with_events(old(rows).deep_view(), bar@, 3) {
            Ok(after) => r == Ok::<(), ShadowError>(()) && final(rows).deep_view() == after,
            Err(e) => r == Err::<(), ShadowError>(e) && final(rows).deep_view() == old(
                rows,
            ).deep_view(),
        },
        r is Ok ==> final(rows).deep_view().len() == old(rows).deep_view().len() + 3,
        r is Ok && sound(old(rows).deep_view()) && bar@.symbol == "002256.SZ"@ ==> sound(
            final(rows).deep_view(),
        ),
{
    let ghost start = rows.deep_view();
    let ghost fit = sound(start) && bar@.symbol == "002256.SZ"@;
    let count: usize = rows.len();
    let mut k: usize = 0;
    while k < 3
        invariant
            k <= 3,
            start == old(rows).deep_view(),
            count == start.len(),
            fit == (sound(start) && bar@.symbol == "002256.SZ"@),
            with_events(start, bar@, k as nat) == Ok::<Seq<ShadowRowView>, ShadowError>(
                rows.deep_view(),
            ),
            rows.deep_view().len() == count + k,
            rows.deep_view().subrange(0, count as int) == start,
            fit ==> orderly(rows.deep_view()),
            forall|j: int|
                count <= j < count + k ==> row_reads(#[trigger] rows.deep_view()[j], bar@)
                    && rows.deep_view()[j].bar_timestamp == stamp_text(
                    bar@.timestamp.d(),
                    bar@.timestamp.s(),
                    bar@.timestamp.n(),
                ),
        decreases 3 - k,
    {
        let ghost before = rows.deep_view();
        match append_e2e_event(rows, kind_of(k), bar) {
            Ok(()) => {
                proof {
                    let after = rows.deep_view();
                    assert(after =~= before.push(after.last()));
                    assert(after.subrange(0, count as int) =~= start);
                    if fit {
                        lemma_one_more(before, after, bar@, k as int);
                    }
                }
            },
            Err(e) => {
                proof {
                    lemma_events_stop(start, bar@, (k + 1) as nat, 3);
                }
                rows.truncate(count);
                assert(rows.deep_view() =~= start);
                return Err(e);
            },
        }
        k = k + 1;
    }
    Ok(())
}

proof fn lemma_events_stop(rows: Seq<ShadowRowView>, b: MarketBarView, n: nat, m: nat)
    requires
        n <= m,
        with_events(rows, b, n) is Err,
    ensures
        with_events(rows, b, m) == with_events(rows, b, n),
    decreases m - n,
{
    if n < m {
        lemma_events_stop(rows, b, n, (m - 1) as nat);
    }
}

proof fn lemma_kinds_differ()
    ensures
        kind_at(0) != kind_at(1),
        kind_at(0) != kind_at(2),
        kind_at(1) != kind_at(2),
{
    reveal_strlit("MARKET_DATA_RECEIVED");
    reveal_strlit("MARKET_BAR_DECISIONS_COMMITTED");
    reveal_strlit("MARKET_BAR_PROCESSED");
    assert(kind_at(0).len() != kind_at(1).len());
    assert(kind_at(1).len() != kind_at(2).len());
    assert(kind_at(0)[7] == 'D' && kind_at(2)[7] == 'B');
}

proof fn lemma_kind_counts(rows: Seq<ShadowRowView>, n: nat)
    requires
        n <= rows.len(),
        forall|i: int| 0 <= i < n ==> (#[trigger] rows[i]).event_type == kind_at(i),
    ensures
        kind_count(rows, kind_at(0), n) == (n + 2) / 3,
        kind_count(rows, kind_at(1), n) == (n + 1) / 3,
        kind_count(rows, kind_at(2), n) == n / 3,
    decreases n,
{
    if n > 0 {
        lemma_kinds_differ();
        lemma_kind_counts(rows, (n - 1) as nat);
        let kind = rows[n - 1].event_type;
        assert(kind == kind_at(n - 1));
        assert(kind == kind_at((n - 1) % 3));
    }
}

proof fn lemma_no_event_fault(rows: Seq<ShadowRowView>, n: nat)
    requires
        forall|i: int| 0 <= i < n ==> (#[trigger] event_fault(rows, i)) is None,
    ensures
        first_event_fault(rows, n) is None,
    decreases n,
{
    if n > 0 {
        lemma_no_event_fault(rows, (n - 1) as nat);
    }
}

proof fn lemma_event_fault_at(rows: Seq<ShadowRowView>, n: nat, i: int)
    requires
        0 <= i < n,
        first_event_fault(rows, n) is None,
    ensures
        event_fault(rows, i) is None,
    decreases n,
{
    if i < n - 1 {
        lemma_event_fault_at(rows, (n - 1) as nat, i);
    }
}

/// A ledger verifies for a number of bars exactly where it is sound, holds three
/// events for each of them, is not empty and has money actions off.
pub proof fn law_sound_ledgers_verify(rows: Seq<ShadowRowView>, bar_count: u64)
    ensures
        ledger_fault(rows, Some("false"@), bar_count) is None <==> sound(rows) && rows.len() > 0
            && rows.len() == bar_count * 3,
{
    if sound(rows) && rows.len() > 0 && rows.len() == bar_count * 3 {
        assert forall|i: int| 0 <= i < rows.len() implies (#[trigger] rows[i]).event_type
            == kind_at(i) by {
            assert(event_fault(rows, i) is None);
        }
        lemma_kind_counts(rows, rows.len());
        lemma_no_event_fault(rows, rows.len());
    }
    if ledger_fault(rows, Some("false"@), bar_count) is None {
        assert forall|i: int| 0 <= i < rows.len() implies (#[trigger] event_fault(rows, i)) is None by {
            lemma_event_fault_at(rows, rows.len(), i);
        }
    }
}

/// In a sound ledger every event names the digest of the event before it, and its
/// own digest is that of both.
pub proof fn law_sound_ledgers_are_chained(rows: Seq<ShadowRowView>, i: int)
    requires
        sound(rows),
        0 <= i < rows.len(),
    ensures
        rows[i].previous_sha256 == digest_before(rows, i),
        rows[i].event_sha256 == chained(digest_before(rows, i), rows[i].payload_json),
{
    assert(event_fault(rows, i) is None);
}

} // verus!
