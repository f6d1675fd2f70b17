//! Health check utilities for connectors.

use std::time::{Duration, Instant};
use vstd::prelude::*;

use crate::clock::{elapsed, now};

verus! {

/// Health check status.
#[derive(Debug, Clone, Copy, PartialEq, Eq, Structural)]
pub enum HealthStatus {
    /// Connector is healthy
    Healthy,
    /// Connector is degraded but operational
    Degraded,
    /// Connector is unhealthy
    Unhealthy,
}

/// Health checker with failure tracking.
///
/// A success makes the connector healthy and clears the failure count; each
/// failure counts, and the status is unhealthy once the count of consecutive
/// failures reaches the threshold, degraded before that.
#[derive(Debug)]
pub struct HealthChecker {
    status: HealthStatus,
    consecutive_failures: usize,
    last_success: Option<Instant>,
    last_failure: Option<Instant>,
    failure_threshold: usize,
}

/// The status after `failures` consecutive failures (at least one).
pub open spec fn status_after_failures(failures: nat, threshold: nat) -> HealthStatus {
    if failures >= threshold {
        HealthStatus::Unhealthy
    } else {
        HealthStatus::Degraded
    }
}

/// The status that goes with `failures` consecutive failures: healthy with
/// none, otherwise as `status_after_failures` says.
pub open spec fn status_of(failures: nat, threshold: nat) -> HealthStatus {
    if failures == 0 {
        HealthStatus::Healthy
    } else {
        status_after_failures(failures, threshold)
    }
}

impl HealthChecker {
    /// Every checker's status is the one its failure count gives.
    #[verifier::type_invariant]
    spec fn status_matches_failures(&self) -> bool {
        self.status == status_of(self.consecutive_failures as nat, self.failure_threshold as nat)
    }

    /// The current status.
    pub closed spec fn spec_status(&self) -> HealthStatus {
        self.status
    }

    /// The number of consecutive failures.
    pub closed spec fn spec_failures(&self) -> nat {
        self.consecutive_failures as nat
    }

    /// The failure threshold.
    pub closed spec fn spec_threshold(&self) -> nat {
        self.failure_threshold as nat
    }

    /// Whether a success has been recorded (creation counts as one).
    pub closed spec fn spec_has_success(&self) -> bool {
        self.last_success is Some
    }

    /// Whether a failure has been recorded.
    pub closed spec fn spec_has_failure(&self) -> bool {
        self.last_failure is Some
    }

    /// Create a new health checker: healthy, with no failures.
    pub fn new(failure_threshold: usize) -> (h: Self)
        ensures
            h.spec_status() == HealthStatus::Healthy,
            h.spec_failures() == 0,
            h.spec_threshold() == failure_threshold,
            h.spec_has_success(),
            !h.spec_has_failure(),
    {
        HealthChecker {
            status: HealthStatus::Healthy,
            consecutive_failures: 0,
            last_success: Some(now()),
            last_failure: None,
            failure_threshold,
        }
    }

    /// Record a successful health check.
    pub fn record_success(&mut self)
        ensures
            final(self).spec_status() == HealthStatus::Healthy,
            final(self).spec_failures() == 0,
            final(self).spec_threshold() == old(self).spec_threshold(),
            final(self).spec_has_success(),
            final(self).spec_has_failure() == old(self).spec_has_failure(),
    {
        let t = now();
        *self = HealthChecker {
            status: HealthStatus::Healthy,
            consecutive_failures: 0,
            last_success: Some(t),
            last_failure: self.last_failure,
            failure_threshold: self.failure_threshold,
        };
    }

    /// Record a failed health check.
    pub fn record_failure(&mut self)
        requires
            old(self).spec_failures() < usize::MAX,
        ensures
            final(self).spec_failures() == old(self).spec_failures() + 1,
            final(self).spec_status() == status_after_failures(
                final(self).spec_failures(),
                final(self).spec_threshold(),
            ),
            final(self).spec_threshold() == old(self).spec_threshold(),
            final(self).spec_has_success() == old(self).spec_has_success(),
            final(self).spec_has_failure(),
    {
        let failures = self.consecutive_failures + 1;
        let status = if failures >= self.failure_threshold {
            HealthStatus::Unhealthy
        } else {
            HealthStatus::Degraded
        };
        let t = now();
        *self = HealthChecker {
            status,
            consecutive_failures: failures,
            last_success: self.last_success,
            last_failure: Some(t),
            failure_threshold: self.failure_threshold,
        };
    }

    /// Get the current health status.
    pub fn status(&self) -> (s: HealthStatus)
        ensures
            s == self.spec_status(),
            s == status_of(self.spec_failures(), self.spec_threshold()),
    {
        proof {
            use_type_invariant(self);
        }
        self.status
    }

    /// Check if the connector is healthy.
    pub fn is_healthy(&self) -> (b: bool)
        ensures
            b == (self.spec_status() == HealthStatus::Healthy),
            b == (self.spec_failures() == 0),
    {
        proof {
            use_type_invariant(self);
        }
        match self.status {
            HealthStatus::Healthy => true,
            _ => false,
        }
    }

    /// Get consecutive failure count.
    pub fn consecutive_failures(&self) -> (n: usize)
        ensures
            n == self.spec_failures(),
    {
        self.consecutive_failures
    }

    /// Get the failure threshold.
    pub fn failure_threshold(&self) -> (n: usize)
        ensures
            n == self.spec_threshold(),
    {
        self.failure_threshold
    }

    /// Get time since last success (`None` when no success was recorded).
    pub fn time_since_last_success(&self) -> (d: Option<Duration>)
        ensures
            (d is Some) == self.spec_has_success(),
    {
        match &self.last_success {
            Some(t) => Some(elapsed(t)),
            None => None,
        }
    }

    /// Get time since last failure (`None` when no failure was recorded).
    pub fn time_since_last_failure(&self) -> (d: Option<Duration>)
        ensures
            (d is Some) == self.spec_has_failure(),
    {
        match &self.last_failure {
            Some(t) => Some(elapsed(t)),
            None => None,
        }
    }
}

} // verus!
