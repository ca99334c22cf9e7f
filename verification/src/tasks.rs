//! The workload's settings and the decisions that each worker takes.

use crate::pacing::{next_delay, remaining_nanos, target_delay_millis};
use crate::sampler::DistributionKind;
use crate::text::same_text;
use vstd::prelude::*;

verus! {

/// The kind of workload.
#[derive(Clone, Copy, Debug, PartialEq, Eq, Structural)]
pub enum PayloadKind {
    Timeseries,
    Cache,
}

impl PayloadKind {
    /// The workload that a name selects, if it names one.
    pub open spec fn spec_from_name(name: Seq<char>) -> Option<PayloadKind> {
        if name == "timeseries"@ {
            Some(PayloadKind::Timeseries)
        } else if name == "cache"@ {
            Some(PayloadKind::Cache)
        } else {
            None
        }
    }

    /// The workload that a name selects; `None` for a name that names none.
    pub fn from_name(name: &str) -> (kind: Option<PayloadKind>)
        ensures
            kind == PayloadKind::spec_from_name(name@),
    {
        if same_text(name, "timeseries") {
            Some(PayloadKind::Timeseries)
        } else if same_text(name, "cache") {
            Some(PayloadKind::Cache)
        } else {
            None
        }
    }
}

/// The settings of a workload, fixed at its start.
#[derive(Clone, Copy, Debug, PartialEq, Eq, Structural)]
pub struct WorkloadConfig {
    /// Number of reading workers.
    pub readers: usize,
    /// Number of writing workers.
    pub writers: usize,
    /// How keys are picked.
    pub distribution: DistributionKind,
    /// Lowest rate of a worker, in iterations per second.
    pub rate_min: u64,
    /// Highest rate of a worker, in iterations per second.
    pub rate_max: u64,
    /// Length of one wave of the rate, in seconds.
    pub rate_period: u64,
    /// Number of candidate keys.
    pub cardinality: usize,
    /// The kind of workload.
    pub payload: PayloadKind,
}

/// Why settings make no workload.
#[derive(Clone, Copy, Debug, PartialEq, Eq, Structural)]
pub enum ConfigError {
    /// The payload names no workload.
    UnsupportedPayload,
    /// There are more keys than can be addressed.
    CardinalityOutOfRange,
}

/// What became of a row that a reader handed to the dashboard's queue.
#[derive(Clone, Copy, Debug, PartialEq, Eq, Structural)]
pub enum Delivery {
    /// The row is in the queue.
    Queued,
    /// The queue was full; the row is lost.
    Dropped,
    /// Nobody reads the queue any more; the row is lost.
    Refused,
}

/// What a worker does after an operation.
#[derive(Clone, Copy, Debug, PartialEq, Eq, Structural)]
pub enum WorkerStep {
    /// Leave the loop.
    Stop,
    /// Sleep for the given time, then start the next operation.
    Continue { sleep_nanos: u64 },
}

/// Whether a reader hands the next row of the current read to the queue:
/// it does unless nobody reads the queue any more. A row is never sent
/// again.
pub fn keep_forwarding(delivery: Delivery) -> (keep: bool)
    ensures
        keep == (delivery != Delivery::Refused),
{
    match delivery {
        Delivery::Queued => true,
        Delivery::Dropped => true,
        Delivery::Refused => false,
    }
}

impl WorkloadConfig {
    /// What the settings are made of: the names select the distribution
    /// and the workload, and the rest is taken as it is.
    pub open spec fn spec_new(
        readers: usize,
        writers: usize,
        distribution: Seq<char>,
        rate_min: u64,
        rate_max: u64,
        rate_period: u64,
        cardinality: u64,
        payload: Seq<char>,
    ) -> Result<WorkloadConfig, ConfigError> {
        match PayloadKind::spec_from_name(payload) {
            None => Err(ConfigError::UnsupportedPayload),
            Some(payload) => if cardinality > usize::MAX {
                Err(ConfigError::CardinalityOutOfRange)
            } else {
                Ok(
                    WorkloadConfig {
                        readers,
                        writers,
                        distribution: DistributionKind::spec_from_name(distribution),
                        rate_min,
                        rate_max,
                        rate_period,
                        cardinality: cardinality as usize,
                        payload,
                    },
                )
            },
        }
    }

    /// Makes the settings of a workload. The distribution falls back to
    /// uniform where its name is not known; the payload has to name a
    /// workload.
    pub fn new(
        readers: usize,
        writers: usize,
        distribution: &str,
        rate_min: u64,
        rate_max: u64,
        rate_period: u64,
        cardinality: u64,
        payload: &str,
    ) -> (config: Result<WorkloadConfig, ConfigError>)
        ensures
            config == WorkloadConfig::spec_new(
                readers,
                writers,
                distribution@,
                rate_min,
                rate_max,
                rate_period,
                cardinality,
                payload@,
            ),
    {
        let payload: PayloadKind = match PayloadKind::from_name(payload) {
            Some(payload) => payload,
            None => {
                return Err(ConfigError::UnsupportedPayload);
            },
        };
        if cardinality > usize::MAX as u64 {
            return Err(ConfigError::CardinalityOutOfRange);
        }
        Ok(
            WorkloadConfig {
                readers,
                writers,
                distribution: DistributionKind::from_name(distribution),
                rate_min,
                rate_max,
                rate_period,
                cardinality: cardinality as usize,
                payload,
            },
        )
    }

    /// What a worker does after an operation that took `spent_nanos`,
    /// `elapsed_nanos` after the worker started: it stops once the workload
    /// is cancelled, and else sleeps for what is left of the target delay.
    pub open spec fn spec_after_operation(
        self,
        cancelled: bool,
        elapsed_nanos: u128,
        spent_nanos: u128,
    ) -> WorkerStep {
        if cancelled {
            WorkerStep::Stop
        } else {
            WorkerStep::Continue {
                sleep_nanos: remaining_nanos(
                    target_delay_millis(
                        self.rate_min as int,
                        self.rate_max as int,
                        self.rate_period as int,
                        elapsed_nanos as int,
                    ),
                    spent_nanos as int,
                ) as u64,
            }
        }
    }

    /// What a worker does after an operation that took `spent_nanos`,
    /// `elapsed_nanos` after the worker started.
    pub fn after_operation(&self, cancelled: bool, elapsed_nanos: u128, spent_nanos: u128) -> (step:
        WorkerStep)
        ensures
            step == self.spec_after_operation(cancelled, elapsed_nanos, spent_nanos),
            cancelled <==> step == WorkerStep::Stop,
            self.rate_max == 0 && !cancelled ==> step == (WorkerStep::Continue { sleep_nanos: 0 }),
    {
        if cancelled {
            WorkerStep::Stop
        } else {
            WorkerStep::Continue {
                sleep_nanos: next_delay(
                    self.rate_min,
                    self.rate_max,
                    self.rate_period,
                    elapsed_nanos,
                    spent_nanos,
                ),
            }
        }
    }
}

/// Once the workload is cancelled a worker stops after the operation at
/// hand, whatever its pace and however long the operation took; until then it
/// never stops.
pub proof fn lemma_worker_observes_cancellation(
    config: WorkloadConfig,
    elapsed_nanos: u128,
    spent_nanos: u128,
)
    ensures
        config.spec_after_operation(true, elapsed_nanos, spent_nanos) == WorkerStep::Stop,
        config.spec_after_operation(false, elapsed_nanos, spent_nanos) != WorkerStep::Stop,
{
}

} // verus!
