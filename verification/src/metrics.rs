use vstd::prelude::*;

use crate::error::PublishError;

verus! {

/// Histogram: time from publish to broker ack, in seconds.
/// Labels: exchange=<exchange name>, service="publisher".
pub const PROM_PIPELINE_PUBLISH_DURATION: &'static str = "pipeline_publish_duration_seconds";

/// Counter: messages published and acknowledged by the broker. Labels: service="publisher".
pub const PROM_PIPELINE_EVENTS_PUBLISHED_TOTAL: &'static str = "pipeline_events_published_total";

/// Counter: messages that failed to publish. Labels: service="publisher", reason="nack"|"invalid".
pub const PROM_PIPELINE_EVENTS_FAILED_TOTAL: &'static str = "pipeline_events_failed_total";

/// The value of the `service` label on every pipeline metric.
pub const SERVICE_NAME: &'static str = "publisher";

/// One increment of a pipeline counter: the counter's name and its `reason` label, if any.
/// Every increment also carries the label service="publisher".
pub struct CounterIncrement {
    pub name: &'static str,
    pub reason: Option<&'static str>,
}

/// The counter that one publication increments: the published counter on success, otherwise
/// the failed counter with reason `nack` for a broker refusal and `invalid` for anything else.
pub fn publish_counter(result: &Result<(), PublishError>) -> (increment: CounterIncrement)
    ensures
        match result {
            Ok(()) => increment.name@ == PROM_PIPELINE_EVENTS_PUBLISHED_TOTAL@
                && increment.reason is None,
            Err(PublishError::Nack(_)) => increment.name@ == PROM_PIPELINE_EVENTS_FAILED_TOTAL@
                && (increment.reason matches Some(reason) && reason@ == "nack"@),
            Err(PublishError::Invalid(_)) => increment.name@ == PROM_PIPELINE_EVENTS_FAILED_TOTAL@
                && (increment.reason matches Some(reason) && reason@ == "invalid"@),
        },
{
    match result {
        Ok(()) => CounterIncrement { name: PROM_PIPELINE_EVENTS_PUBLISHED_TOTAL, reason: None },
        Err(PublishError::Nack(_)) => CounterIncrement {
            name: PROM_PIPELINE_EVENTS_FAILED_TOTAL,
            reason: Some("nack"),
        },
        Err(PublishError::Invalid(_)) => CounterIncrement {
            name: PROM_PIPELINE_EVENTS_FAILED_TOTAL,
            reason: Some("invalid"),
        },
    }
}

} // verus!
