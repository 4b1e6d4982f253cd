//! How current the market data is.
use crate::clock::{local_from_micros, local_moment, nanos_between, Moment};
use crate::live::schedule::LiveError;
use crate::model::ledger::ServiceMode;
use vstd::prelude::*;

verus! {

/// Why a time stamp cannot be trusted, if it cannot.
pub open spec fn stamp_fault(timestamp_us: u64, now: Moment) -> Option<LiveError> {
    match local_moment(timestamp_us as int) {
        None => Some(LiveError::Clock),
        Some(at) => if at.position() > now.position() {
            Some(LiveError::Future)
        } else {
            None
        },
    }
}

/// Checks that a time stamp does not lie in the future.
pub fn market_timestamp_not_future(timestamp_us: u64, now: Moment) -> (r: Result<(), LiveError>)
    ensures
        r == (match stamp_fault(timestamp_us, now) {
            Some(e) => Err::<(), LiveError>(e),
            None => Ok::<(), LiveError>(()),
        }),
{
    match local_from_micros(timestamp_us) {
        None => Err(LiveError::Clock),
        Some(at) => if now.before(&at) {
            Err(LiveError::Future)
        } else {
            Ok(())
        },
    }
}

/// Whether something is at most some seconds old.
pub open spec fn fresh_enough(at: Moment, now: Moment, maximum_age_seconds: i64) -> Result<
    bool,
    LiveError,
> {
    if nanos_between(at, now) < 0 {
        Err(LiveError::Future)
    } else {
        Ok(nanos_between(at, now) <= maximum_age_seconds * 1_000_000_000)
    }
}

fn is_fresh_enough(at: &Moment, now: &Moment, maximum_age_seconds: i64) -> (r: Result<
    bool,
    LiveError,
>)
    ensures
        r == fresh_enough(*at, *now, maximum_age_seconds),
{
    let age: i128 = now.since(at);
    if age < 0 {
        return Err(LiveError::Future);
    }
    Ok(age <= maximum_age_seconds as i128 * 1_000_000_000)
}

/// Whether a watermark is at most some seconds old.
pub open spec fn watermark_current(
    covered_through_us: Option<u64>,
    now: Moment,
    maximum_age_seconds: i64,
) -> Result<bool, LiveError> {
    match covered_through_us {
        None => Ok(false),
        Some(us) => match local_moment(us as int) {
            None => Err(LiveError::Clock),
            Some(at) => fresh_enough(at, now, maximum_age_seconds),
        },
    }
}

/// Whether a watermark is at most some seconds old.
pub fn market_watermark_is_current(
    covered_through_us: Option<u64>,
    now: Moment,
    maximum_age_seconds: i64,
) -> (r: Result<bool, LiveError>)
    ensures
        r == watermark_current(covered_through_us, now, maximum_age_seconds),
{
    match covered_through_us {
        None => Ok(false),
        Some(us) => match local_from_micros(us) {
            None => Err(LiveError::Clock),
            Some(at) => is_fresh_enough(&at, &now, maximum_age_seconds),
        },
    }
}

/// Whether a watermark follows the one before it without a gap.
pub open spec fn contiguous(
    previous: Option<u64>,
    covered_through_us: u64,
    maximum_gap_seconds: i64,
) -> Result<bool, LiveError> {
    match previous {
        None => Ok(false),
        Some(before) => if covered_through_us < before {
            Err(LiveError::Backwards)
        } else if maximum_gap_seconds < 0 || maximum_gap_seconds * 1_000_000 > u64::MAX {
            Err(LiveError::Gap)
        } else {
            Ok(covered_through_us - before <= maximum_gap_seconds * 1_000_000)
        },
    }
}

/// Whether a watermark follows the one before it without a gap.
pub fn market_watermarks_are_contiguous(
    previous_covered_through_us: Option<u64>,
    covered_through_us: u64,
    maximum_gap_seconds: i64,
) -> (r: Result<bool, LiveError>)
    ensures
        r == contiguous(previous_covered_through_us, covered_through_us, maximum_gap_seconds),
{
    let before: u64 = match previous_covered_through_us {
        Some(before) => before,
        None => {
            return Ok(false);
        },
    };
    if covered_through_us < before {
        return Err(LiveError::Backwards);
    }
    if maximum_gap_seconds < 0 {
        return Err(LiveError::Gap);
    }
    match (maximum_gap_seconds as u64).checked_mul(1_000_000) {
        None => Err(LiveError::Gap),
        Some(gap) => Ok(covered_through_us - before <= gap),
    }
}

/// Whether a bar is at most some seconds old.
pub fn market_bar_is_current(bar_timestamp: Moment, now: Moment, maximum_age_seconds: i64) -> (r:
    Result<bool, LiveError>)
    ensures
        r == fresh_enough(bar_timestamp, now, maximum_age_seconds),
{
    is_fresh_enough(&bar_timestamp, &now, maximum_age_seconds)
}

/// What is known of a completion of the source.
#[derive(Clone, Copy, Debug, PartialEq, Eq, Structural)]
pub struct CompletionGate {
    pub live: bool,
    pub current: bool,
    pub previous_current: bool,
    pub matches_today: bool,
    pub released_bars: usize,
    pub bars_current: bool,
}

/// Whether a completion vouches for the market.
pub open spec fn vouches(g: CompletionGate) -> bool {
    g.live && g.current && g.previous_current && g.matches_today && g.released_bars <= 1
        && g.bars_current
}

/// Whether a completion stops trading until the market is caught up with.
pub fn completion_requires_recovery(
    mode: ServiceMode,
    completion_is_live: bool,
    completion_is_current: bool,
    previous_completion_is_current: bool,
    session_matches_today: bool,
    released_bar_count: usize,
    released_bars_are_current: bool,
) -> (r: bool)
    ensures
        r == (mode == ServiceMode::Running && !vouches(
            CompletionGate {
                live: completion_is_live,
                current: completion_is_current,
                previous_current: previous_completion_is_current,
                matches_today: session_matches_today,
                released_bars: released_bar_count,
                bars_current: released_bars_are_current,
            },
        )),
{
    mode == ServiceMode::Running && (!completion_is_live || !completion_is_current
        || !previous_completion_is_current || !session_matches_today || released_bar_count > 1
        || !released_bars_are_current)
}

/// Whether a completion lets trading go on.
pub fn completion_allows_resume(
    mode: ServiceMode,
    completion_is_live: bool,
    completion_is_current: bool,
    previous_completion_is_current: bool,
    session_matches_today: bool,
    released_bar_count: usize,
    released_bars_are_current: bool,
) -> (r: bool)
    ensures
        r == (mode == ServiceMode::ReadOnly && vouches(
            CompletionGate {
                live: completion_is_live,
                current: completion_is_current,
                previous_current: previous_completion_is_current,
                matches_today: session_matches_today,
                released_bars: released_bar_count,
                bars_current: released_bars_are_current,
            },
        )),
{
    mode == ServiceMode::ReadOnly && completion_is_live && completion_is_current
        && previous_completion_is_current && session_matches_today && released_bar_count <= 1
        && released_bars_are_current
}

/// Whether an observation of the source stops trading until the market is caught
/// up with.
pub fn source_observation_requires_recovery(
    mode: ServiceMode,
    observation_is_current: bool,
    previous_observation_is_contiguous: bool,
    session_matches_today: bool,
) -> (r: bool)
    ensures
        r == (mode == ServiceMode::Running && !(observation_is_current
            && previous_observation_is_contiguous && session_matches_today)),
{
    mode == ServiceMode::Running && (!observation_is_current || !previous_observation_is_contiguous
        || !session_matches_today)
}

/// Whether an observation of the source lets trading go on.
pub fn source_observation_allows_resume(
    mode: ServiceMode,
    observation_is_current: bool,
    previous_observation_is_contiguous: bool,
    session_matches_today: bool,
) -> (r: bool)
    ensures
        r == (mode == ServiceMode::ReadOnly && observation_is_current
            && previous_observation_is_contiguous && session_matches_today),
{
    mode == ServiceMode::ReadOnly && observation_is_current && previous_observation_is_contiguous
        && session_matches_today
}

/// Whether a silence of the source stops trading.
pub open spec fn silence_stops(
    mode: ServiceMode,
    observed_at_us: Option<u64>,
    now: Moment,
    maximum_age_seconds: i64,
) -> Result<bool, LiveError> {
    if mode != ServiceMode::Running {
        Ok(false)
    } else {
        match watermark_current(observed_at_us, now, maximum_age_seconds) {
            Err(e) => Err(e),
            Ok(current) => Ok(!current),
        }
    }
}

/// Whether a silence of the source stops trading.
pub fn source_observation_timeout_requires_recovery(
    mode: ServiceMode,
    observed_at_us: Option<u64>,
    now: Moment,
    maximum_age_seconds: i64,
) -> (r: Result<bool, LiveError>)
    ensures
        r == silence_stops(mode, observed_at_us, now, maximum_age_seconds),
{
    if mode != ServiceMode::Running {
        return Ok(false);
    }
    match market_watermark_is_current(observed_at_us, now, maximum_age_seconds) {
        Err(e) => Err(e),
        Ok(current) => Ok(!current),
    }
}

/// The watermark that says that the market is alive: what was observed, or else
/// what was completed.
pub open spec fn preferred(observed: Option<u64>, reviewed: Option<u64>) -> Option<u64> {
    if observed is Some {
        observed
    } else {
        reviewed
    }
}

/// The watermark that says that the market is alive.
pub fn preferred_market_liveness_watermark(
    observed_at_us: Option<u64>,
    reviewed_completion_received_at_us: Option<u64>,
) -> (r: Option<u64>)
    ensures
        r == preferred(observed_at_us, reviewed_completion_received_at_us),
{
    match observed_at_us {
        Some(x) => Some(x),
        None => reviewed_completion_received_at_us,
    }
}

/// The watermark after a completion: when it was received, if it vouches for the
/// market.
pub fn reviewed_completion_liveness_watermark(
    previous_received_at_us: Option<u64>,
    completion_is_live: bool,
    completion_is_current: bool,
    previous_completion_is_contiguous: bool,
    session_matches_today: bool,
    released_bar_count: usize,
    released_bars_are_current: bool,
    source_received_at_us: u64,
) -> (r: Option<u64>)
    ensures
        r == (if vouches(
            CompletionGate {
                live: completion_is_live,
                current: completion_is_current,
                previous_current: previous_completion_is_contiguous,
                matches_today: session_matches_today,
                released_bars: released_bar_count,
                bars_current: released_bars_are_current,
            },
        ) {
            Some(source_received_at_us)
        } else {
            previous_received_at_us
        }),
{
    if completion_is_live && completion_is_current && previous_completion_is_contiguous
        && session_matches_today && released_bar_count <= 1 && released_bars_are_current {
        Some(source_received_at_us)
    } else {
        previous_received_at_us
    }
}

/// Whether what is known of a session lets trading go on.
pub fn market_session_boundary_allows_resume(
    has_complete_history: bool,
    has_safe_resume_boundary: bool,
    allow_partial_boundary: bool,
) -> (r: bool)
    ensures
        r == (has_complete_history || (allow_partial_boundary && has_safe_resume_boundary)),
{
    has_complete_history || (allow_partial_boundary && has_safe_resume_boundary)
}

/// No completion both stops trading and lets it go on.
pub proof fn law_completions_do_not_contradict(g: CompletionGate, mode: ServiceMode)
    ensures
        !((mode == ServiceMode::Running && !vouches(g)) && (mode == ServiceMode::ReadOnly
            && vouches(g))),
{
}

/// A watermark that is current stays so for a shorter silence at the same
/// moment, and what is current for a limit is current for a larger one.
pub proof fn law_larger_limits_admit_more(
    covered: Option<u64>,
    now: Moment,
    limit: i64,
    larger: i64,
)
    requires
        limit <= larger,
        watermark_current(covered, now, limit) == Ok::<bool, LiveError>(true),
    ensures
        watermark_current(covered, now, larger) == Ok::<bool, LiveError>(true),
{
}

} // verus!
