//! Decisions of the sink runtime (Danube → external system).

use vstd::prelude::*;
use vstd::string::*;

use std::time::Duration;

use crate::config::ConsumerConfig;
use crate::error::{error_text, ConnectorError, ConnectorResult};
use crate::retry::{backoff_allowed, duration_of_millis, RetryDecision, RetryStrategy};
use crate::clock::{duration_at_least, duration_ge};
use crate::text::{decimal, decimal_string};
use crate::utils::batching::Batcher;
use crate::utils::health::{status_after_failures, HealthChecker, HealthStatus};

verus! {

/// Refuses an empty list of consumer configurations.
pub fn check_consumer_configs(configs: &[ConsumerConfig]) -> (r: ConnectorResult<()>)
    ensures
        configs@.len() == 0 ==> (r matches Err(ConnectorError::Configuration(m)) && m@
            == "No consumer configurations provided by connector"@),
        configs@.len() > 0 ==> r is Ok,
{
    if configs.len() == 0 {
        Err(ConnectorError::config("No consumer configurations provided by connector"))
    } else {
        Ok(())
    }
}

/// What the runtime reports after a health check.
#[derive(Debug)]
pub struct HealthVerdict {
    /// The value of the health gauge
    pub healthy: bool,
    /// `Err` when the connector must stop
    pub outcome: ConnectorResult<()>,
}

/// The message of a health check failure that stops the connector.
pub open spec fn health_failure_text(failures: nat, e: ConnectorError) -> Seq<char> {
    "Connector health check failed "@ + decimal(failures) + " consecutive times: "@ + error_text(e)
}

/// Records the result of a connector's health check.
///
/// A success makes the connector healthy. A failure is counted; the gauge
/// reports healthy unless the failures reached the threshold, and then the
/// runtime stops with a fatal error naming the count and the cause.
pub fn health_check_step(checker: &mut HealthChecker, check: &ConnectorResult<()>) -> (v: HealthVerdict)
    requires
        old(checker).spec_failures() < u64::MAX,
        old(checker).spec_failures() < usize::MAX,
    ensures
        final(checker).spec_threshold() == old(checker).spec_threshold(),
        check is Ok ==> {
            &&& final(checker).spec_status() == HealthStatus::Healthy
            &&& final(checker).spec_failures() == 0
            &&& v.healthy
            &&& v.outcome is Ok
        },
        check matches Err(e) ==> {
            &&& final(checker).spec_failures() == old(checker).spec_failures() + 1
            &&& final(checker).spec_status() == status_after_failures(
                final(checker).spec_failures(),
                final(checker).spec_threshold(),
            )
            &&& v.healthy == (final(checker).spec_failures() < final(checker).spec_threshold())
            &&& (v.outcome is Err) == (final(checker).spec_failures() >= final(checker).spec_threshold())
            &&& v.outcome matches Err(f) ==> (f matches ConnectorError::Fatal { message, source: None }
                && message@ == health_failure_text(final(checker).spec_failures(), *e))
        },
{
    match check {
        Ok(()) => {
            checker.record_success();
            HealthVerdict { healthy: true, outcome: Ok(()) }
        },
        Err(e) => {
            checker.record_failure();
            let unhealthy = match checker.status() {
                HealthStatus::Unhealthy => true,
                _ => false,
            };
            if unhealthy {
                let n = checker.consecutive_failures();
                let m = <String as StringExecFns>::from_str("Connector health check failed ");
                let m = m.concat(decimal_string(n as u64).as_str());
                let m = m.concat(" consecutive times: ");
                let m = m.concat(e.to_display_string().as_str());
                HealthVerdict {
                    healthy: false,
                    outcome: Err(ConnectorError::Fatal { message: m, source: None }),
                }
            } else {
                HealthVerdict { healthy: true, outcome: Ok(()) }
            }
        },
    }
}

/// What the sink runtime does with a batch after the connector processed it.
#[derive(Debug)]
pub enum BatchStep {
    /// Processed: acknowledge its messages.
    Acknowledge,
    /// Wait `backoff` (`backoff_ms` milliseconds), then make retry number `attempt`.
    Retry { attempt: u32, backoff_ms: u64, backoff: Duration },
    /// Invalid data: skip the batch (acknowledge its messages unprocessed) and go on.
    Skip,
    /// Stop the runtime with the connector's error.
    Stop,
}

/// Decides what follows the processing of a batch, after `attempt` retries.
///
/// Success acknowledges the batch; invalid data skips it; a retryable error
/// is retried while fewer than `max_retries` retries were made; any other
/// error, or a retryable one past the limit, stops the runtime.
pub fn batch_step(strategy: &RetryStrategy, outcome: &ConnectorResult<()>, attempt: u32) -> (s: BatchStep)
    ensures
        outcome is Ok ==> s is Acknowledge,
        outcome matches Err(e) ==> {
            &&& (s is Skip) == (e is InvalidData)
            &&& (s is Retry) == (e is Retryable && attempt < strategy.config.max_retries)
            &&& (s is Stop) == (!(e is InvalidData) && !(e is Retryable && attempt
                < strategy.config.max_retries))
        },
        s matches BatchStep::Retry { attempt: next, backoff_ms, backoff } ==> {
            &&& next == attempt + 1
            &&& next <= strategy.config.max_retries
            &&& backoff_allowed(strategy.config, next as nat, backoff_ms as nat)
            &&& backoff_ms <= strategy.config.max_backoff_ms
            &&& backoff == duration_of_millis(backoff_ms)
        },
{
    match outcome {
        Ok(()) => BatchStep::Acknowledge,
        Err(e) => {
            if e.is_invalid_data() {
                BatchStep::Skip
            } else {
                match strategy.decide(e, attempt) {
                    RetryDecision::Retry { attempt: next, backoff_ms, backoff } => BatchStep::Retry {
                        attempt: next,
                        backoff_ms,
                        backoff,
                    },
                    RetryDecision::GiveUp => BatchStep::Stop,
                }
            }
        },
    }
}

/// Whether a health check is due: `elapsed` (since the last one) has
/// reached `interval`.
pub fn health_check_due(elapsed: &Duration, interval: &Duration) -> (b: bool)
    ensures
        b == duration_ge(*elapsed, *interval),
{
    duration_at_least(elapsed, interval)
}

/// Takes a received message into the batch: a decoded record is added, and
/// one that failed to decode is skipped, its error handed back to be counted.
pub fn enqueue_decoded<T>(batch: &mut Batcher<T>, decoded: ConnectorResult<T>) -> (skipped: Option<ConnectorError>)
    ensures
        decoded matches Ok(item) ==> final(batch).spec_items() == old(batch).spec_items().push(item)
            && skipped is None,
        decoded matches Err(e) ==> final(batch).spec_items() == old(batch).spec_items() && skipped
            == Some(e),
        final(batch).spec_max_size() == old(batch).spec_max_size(),
        final(batch).spec_timeout() == old(batch).spec_timeout(),
        final(batch).spec_last_flush() == old(batch).spec_last_flush(),
{
    match decoded {
        Ok(item) => {
            batch.add(item);
            None
        },
        Err(e) => Some(e),
    }
}

} // verus!
