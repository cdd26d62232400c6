//! Health classification of PoPs with asymmetric hysteresis: one failure
//! degrades at once, recovery takes a run of successes.

use vstd::prelude::*;
use crate::controller::types::{HealthConfig, HealthStatus};
use crate::table::Table;

verus! {

/// The observations that classify one PoP.
#[derive(Debug, Clone, Copy)]
pub struct HealthTracker {
    pub consecutive_failures: u32,
    pub consecutive_successes: u32,
    pub current_status: HealthStatus,
}

/// The tracker of a PoP that has not been observed yet.
pub open spec fn unobserved() -> HealthTracker {
    HealthTracker {
        consecutive_failures: 0,
        consecutive_successes: 0,
        current_status: HealthStatus::Unknown,
    }
}

/// The tracker after one more success. The run of failures ends; the status
/// becomes `Healthy` once the run of successes reaches the threshold and is
/// left as it was before that.
pub open spec fn after_success(t: HealthTracker, config: HealthConfig) -> HealthTracker {
    let successes = (t.consecutive_successes + 1) as u32;
    HealthTracker {
        consecutive_failures: 0,
        consecutive_successes: successes,
        current_status: if successes >= config.healthy_threshold {
            HealthStatus::Healthy
        } else {
            t.current_status
        },
    }
}

/// The tracker after one more failure. The run of successes ends; the status
/// becomes `Unhealthy` once the run of failures reaches the threshold and
/// `Degraded` before that.
pub open spec fn after_failure(t: HealthTracker, config: HealthConfig) -> HealthTracker {
    let failures = (t.consecutive_failures + 1) as u32;
    HealthTracker {
        consecutive_failures: failures,
        consecutive_successes: 0,
        current_status: if failures >= config.unhealthy_threshold {
            HealthStatus::Unhealthy
        } else {
            HealthStatus::Degraded
        },
    }
}

/// The tracker after `n` successes in a row.
pub open spec fn after_successes(t: HealthTracker, config: HealthConfig, n: nat) -> HealthTracker
    decreases n,
{
    if n == 0 {
        t
    } else {
        after_success(after_successes(t, config, (n - 1) as nat), config)
    }
}

/// The tracker after `n` failures in a row.
pub open spec fn after_failures(t: HealthTracker, config: HealthConfig, n: nat) -> HealthTracker
    decreases n,
{
    if n == 0 {
        t
    } else {
        after_failure(after_failures(t, config, (n - 1) as nat), config)
    }
}

/// Fast degrade: whatever a PoP was before, a single failure leaves it
/// `Degraded` or `Unhealthy`, never `Healthy` and never `Unknown`.
pub proof fn lemma_failure_degrades_at_once(t: HealthTracker, config: HealthConfig)
    requires
        t.consecutive_failures < u32::MAX,
    ensures
        after_failure(t, config).current_status == HealthStatus::Degraded || after_failure(
            t,
            config,
        ).current_status == HealthStatus::Unhealthy,
        after_failure(t, config).current_status == HealthStatus::Unhealthy <==> t.consecutive_failures
            + 1 >= config.unhealthy_threshold,
        after_failure(t, config).consecutive_successes == 0,
{
}

/// What a run of `n` successes does to the counters.
pub proof fn lemma_success_run_counts(t: HealthTracker, config: HealthConfig, n: nat)
    requires
        n >= 1,
        t.consecutive_successes + n <= u32::MAX,
    ensures
        after_successes(t, config, n).consecutive_successes == t.consecutive_successes + n,
        after_successes(t, config, n).consecutive_failures == 0,
    decreases n,
{
    reveal_with_fuel(after_successes, 2);
    if n > 1 {
        lemma_success_run_counts(t, config, (n - 1) as nat);
    }
}

/// What a run of `n` failures does to the counters.
pub proof fn lemma_failure_run_counts(t: HealthTracker, config: HealthConfig, n: nat)
    requires
        n >= 1,
        t.consecutive_failures + n <= u32::MAX,
    ensures
        after_failures(t, config, n).consecutive_failures == t.consecutive_failures + n,
        after_failures(t, config, n).consecutive_successes == 0,
    decreases n,
{
    reveal_with_fuel(after_failures, 2);
    if n > 1 {
        lemma_failure_run_counts(t, config, (n - 1) as nat);
    }
}

/// Slow recover: after a failure, a run of successes that stays below the
/// healthy threshold leaves the status where the failure put it, and the
/// run that reaches the threshold makes the PoP `Healthy`.
pub proof fn lemma_recovery_takes_a_full_run(t: HealthTracker, config: HealthConfig, n: nat)
    requires
        t.consecutive_successes == 0,
        n <= u32::MAX,
    ensures
        n < config.healthy_threshold ==> after_successes(t, config, n).current_status
            == t.current_status,
        n >= 1 && n >= config.healthy_threshold ==> after_successes(t, config, n).current_status
            == HealthStatus::Healthy,
    decreases n,
{
    reveal_with_fuel(after_successes, 2);
    if n >= 1 {
        lemma_recovery_takes_a_full_run(t, config, (n - 1) as nat);
        if n > 1 {
            lemma_success_run_counts(t, config, (n - 1) as nat);
        }
    }
}

/// A run of failures makes a PoP `Unhealthy` exactly when it reaches the
/// unhealthy threshold; a shorter run of at least one failure leaves it
/// `Degraded`.
pub proof fn lemma_failure_run_status(t: HealthTracker, config: HealthConfig, n: nat)
    requires
        t.consecutive_failures == 0,
        1 <= n <= u32::MAX,
    ensures
        after_failures(t, config, n).current_status == if n >= config.unhealthy_threshold {
            HealthStatus::Unhealthy
        } else {
            HealthStatus::Degraded
        },
    decreases n,
{
    reveal_with_fuel(after_failures, 2);
    if n > 1 {
        lemma_failure_run_counts(t, config, (n - 1) as nat);
    }
}

/// Classifies every PoP from the stream of its health checks.
#[derive(Debug)]
pub struct HealthMonitor {
    config: HealthConfig,
    pop_health: Table<HealthTracker>,
}

impl HealthMonitor {
    /// The thresholds the monitor was made with.
    pub closed spec fn config(&self) -> HealthConfig {
        self.config
    }

    /// The trackers of the PoPs observed so far, by PoP id.
    pub closed spec fn trackers(&self) -> Map<Seq<char>, HealthTracker> {
        self.pop_health@
    }

    /// The tracker of `pop_id`: the stored one, or that of an unobserved PoP.
    pub open spec fn tracker_of(&self, pop_id: Seq<char>) -> HealthTracker {
        if self.trackers().contains_key(pop_id) {
            self.trackers()[pop_id]
        } else {
            unobserved()
        }
    }

    /// A monitor that has observed nothing.
    pub fn new(config: HealthConfig) -> (m: HealthMonitor)
        ensures
            m.config() == config,
            m.trackers() == Map::<Seq<char>, HealthTracker>::empty(),
    {
        HealthMonitor { config, pop_health: Table::new() }
    }

    /// The stored tracker of `pop_id`, or that of an unobserved PoP.
    fn current(&self, pop_id: &str) -> (t: HealthTracker)
        ensures
            t == self.tracker_of(pop_id@),
    {
        match self.pop_health.get(pop_id) {
            Some(t) => *t,
            None => HealthTracker {
                consecutive_failures: 0,
                consecutive_successes: 0,
                current_status: HealthStatus::Unknown,
            },
        }
    }

    /// Records a passed health check of `pop_id`. A PoP seen for the first
    /// time starts as unobserved.
    pub fn record_success(&mut self, pop_id: &str)
        requires
            old(self).tracker_of(pop_id@).consecutive_successes < u32::MAX,
        ensures
            final(self).config() == old(self).config(),
            final(self).trackers() == old(self).trackers().insert(
                pop_id@,
                after_success(old(self).tracker_of(pop_id@), old(self).config()),
            ),
    {
        let t = self.current(pop_id);
        let successes: u32 = t.consecutive_successes + 1;
        let status = if successes >= self.config.healthy_threshold {
            HealthStatus::Healthy
        } else {
            t.current_status
        };
        self.pop_health.insert(
            pop_id.to_owned(),
            HealthTracker {
                consecutive_failures: 0,
                consecutive_successes: successes,
                current_status: status,
            },
        );
    }

    /// Records a failed health check of `pop_id`. A PoP seen for the first
    /// time starts as unobserved.
    pub fn record_failure(&mut self, pop_id: &str)
        requires
            old(self).tracker_of(pop_id@).consecutive_failures < u32::MAX,
        ensures
            final(self).config() == old(self).config(),
            final(self).trackers() == old(self).trackers().insert(
                pop_id@,
                after_failure(old(self).tracker_of(pop_id@), old(self).config()),
            ),
    {
        let t = self.current(pop_id);
        let failures: u32 = t.consecutive_failures + 1;
        let status = if failures >= self.config.unhealthy_threshold {
            HealthStatus::Unhealthy
        } else {
            HealthStatus::Degraded
        };
        self.pop_health.insert(
            pop_id.to_owned(),
            HealthTracker {
                consecutive_failures: failures,
                consecutive_successes: 0,
                current_status: status,
            },
        );
    }

    /// The health class of `pop_id`; `Unknown` if it was never observed.
    pub fn get_status(&self, pop_id: &str) -> (s: HealthStatus)
        ensures
            s == self.tracker_of(pop_id@).current_status,
    {
        self.current(pop_id).current_status
    }

    /// The tracker of `pop_id`, if the PoP was observed.
    pub fn get_tracker(&self, pop_id: &str) -> (t: Option<HealthTracker>)
        ensures
            t == if self.trackers().contains_key(pop_id@) {
                Some(self.trackers()[pop_id@])
            } else {
                None
            },
    {
        match self.pop_health.get(pop_id) {
            Some(t) => Some(*t),
            None => None,
        }
    }
}

} // verus!
