//! What holds of every run of an isolated consumer.
use crate::shadow::{
    contract_fault, messaged, observed, run_fault, ContractView, PathFacts, ShadowObservation,
    ShadowRun,
};
use vstd::prelude::*;

verus! {

/// An observation is counted. It was not received before it was made, and not made before
/// the one before it. The longest gaps and the greatest age are no shorter than any, and
/// each is one that occurred.
pub proof fn law_observations_keep_the_longest_gaps(run: ShadowRun, o: ShadowObservation)
    ensures
        observed(run, o) matches Ok(n) ==> {
            &&& n.observations == run.observations + 1
            &&& o.received_at_us >= o.observed_at_us
            &&& n.last_observed_at_us == Some(o.observed_at_us)
            &&& n.last_receipt_ns == Some(o.receipt_ns)
            &&& run.first_receipt_ns is Some ==> n.first_receipt_ns == run.first_receipt_ns
            &&& run.first_receipt_ns is None ==> n.first_receipt_ns == Some(o.receipt_ns)
            &&& n.maximum_observation_age_us >= run.maximum_observation_age_us
            &&& n.maximum_observation_age_us >= o.received_at_us - o.observed_at_us
            &&& n.maximum_observation_age_us == run.maximum_observation_age_us
                || n.maximum_observation_age_us == o.received_at_us - o.observed_at_us
            &&& n.maximum_observation_gap_us >= run.maximum_observation_gap_us
            &&& n.maximum_receipt_gap_us >= run.maximum_receipt_gap_us
            &&& run.last_observed_at_us matches Some(before) ==> o.observed_at_us >= before
                && n.maximum_observation_gap_us >= o.observed_at_us - before && (
            n.maximum_observation_gap_us == run.maximum_observation_gap_us
                || n.maximum_observation_gap_us == o.observed_at_us - before)
            &&& run.last_observed_at_us is None ==> n.maximum_observation_gap_us
                == run.maximum_observation_gap_us
            &&& run.last_receipt_ns matches Some(before) ==> (o.receipt_ns >= before ==> n.maximum_receipt_gap_us
                >= (o.receipt_ns - before) / 1000 && (n.maximum_receipt_gap_us
                == run.maximum_receipt_gap_us || n.maximum_receipt_gap_us == (o.receipt_ns
                - before) / 1000))
            &&& n.messages == run.messages && n.bars == run.bars
        },
        o.received_at_us < o.observed_at_us ==> observed(run, o) is Err,
{
}

/// A message is counted with its bars, and the run remembers whether its first message
/// released one.
pub proof fn law_messages_are_counted(run: ShadowRun, bars: int, o: Option<ShadowObservation>)
    requires
        0 <= bars,
    ensures
        messaged(run, bars, o) matches Ok(n) ==> {
            &&& n.messages == run.messages + 1
            &&& n.bars == run.bars + bars
            &&& n.first_message_released_bar <==> run.first_message_released_bar || (run.messages
                == 0 && bars > 0)
            &&& o is None ==> n.observations == run.observations
            &&& o is Some ==> n.observations == run.observations + 1
        },
{
}

/// A run is accepted exactly when messages came, the first of them without a bar, some bars
/// came, at least two observations did, and no time before the first, between two, after the
/// last one, or from an observation to its receipt was longer than forty-five seconds.
pub proof fn law_accepted_runs(run: ShadowRun, end_ns: u64)
    ensures
        run_fault(run, end_ns) is None <==> {
            &&& run.messages > 0 && run.bars > 0 && run.observations >= 2
            &&& !run.first_message_released_bar
            &&& run.first_receipt_ns matches Some(first) && first / 1000 <= 45_000_000
            &&& run.last_receipt_ns matches Some(last) && (end_ns >= last ==> (end_ns - last) / 1000
                <= 45_000_000)
            &&& run.maximum_observation_age_us <= 45_000_000
            &&& run.maximum_observation_gap_us <= 45_000_000
            &&& run.maximum_receipt_gap_us <= 45_000_000
        },
{
    if run.first_receipt_ns is Some && run.last_receipt_ns is Some {
        let gaps = crate::shadow::final_gaps(run, end_ns);
        assert(gaps.len() == 5);
        if crate::shadow::healthy(gaps) {
            assert(gaps[0] <= 45_000_000 && gaps[1] <= 45_000_000 && gaps[2] <= 45_000_000
                && gaps[3] <= 45_000_000 && gaps[4] <= 45_000_000);
        }
    }
}

/// An accepted contract is that of an isolated consumer: on this machine, under its own name,
/// apart from the market, with money actions off, and with its files in their place.
pub proof fn law_accepted_contracts(c: ContractView, p: PathFacts)
    ensures
        contract_fault(c, p) is None ==> {
            &&& !c.money_actions_enabled
            &&& c.mode == "ISOLATED_READ_ONLY_E2E"@
            &&& c.mqtt_host == "127.0.0.1"@ && c.mqtt_port == 18_883
            &&& c.worker_mqtt_client_id == c.nonce + "-worker"@
            &&& c.mqtt_namespace == "gridedge-e2e/"@ + c.nonce
            &&& p.root_is_expected && p.contract_in_root && p.parent_is_root
            &&& !p.root_is_link && !p.state_is_link
            &&& p.events_in_state && p.bars_in_state && p.ledger_in_state
        },
{
}

} // verus!
