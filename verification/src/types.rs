//! The values that the data access layer takes and hands back.
use std::ops::Range;
use vstd::prelude::*;

verus! {

/// The number of an L1 batch.
#[derive(Clone, Copy, Debug, PartialEq, Eq, Structural)]
pub struct L1BatchNumber(pub u32);

/// The rounds in which the proof of a batch is put together, in their order.
#[derive(Clone, Copy, Debug, PartialEq, Eq, Structural)]
pub enum AggregationRound {
    BasicCircuits,
    LeafAggregation,
    NodeAggregation,
    Scheduler,
}

impl AggregationRound {
    /// The number that stands for the round in the database.
    pub open spec fn spec_number(self) -> u8 {
        match self {
            AggregationRound::BasicCircuits => 0,
            AggregationRound::LeafAggregation => 1,
            AggregationRound::NodeAggregation => 2,
            AggregationRound::Scheduler => 3,
        }
    }

    #[verifier::when_used_as_spec(spec_number)]
    pub fn number(self) -> (number: u8)
        ensures
            number == self.spec_number(),
    {
        match self {
            AggregationRound::BasicCircuits => 0,
            AggregationRound::LeafAggregation => 1,
            AggregationRound::NodeAggregation => 2,
            AggregationRound::Scheduler => 3,
        }
    }
}

/// Where a witness job stands.
#[derive(Clone, Copy, Debug, PartialEq, Eq, Structural)]
pub enum JobStatus {
    /// The artifacts of the previous round are not there yet.
    WaitingForArtifacts,
    /// The artifacts are there, the proofs of the previous round are not.
    WaitingForProofs,
    /// Ready to be taken by a worker.
    Queued,
    /// Taken by a worker.
    InProgress,
    Successful,
    Failed,
    Skipped,
}

impl JobStatus {
    /// The status as the database spells it.
    pub open spec fn text(self) -> Seq<char> {
        match self {
            JobStatus::WaitingForArtifacts => "waiting_for_artifacts"@,
            JobStatus::WaitingForProofs => "waiting_for_proofs"@,
            JobStatus::Queued => "queued"@,
            JobStatus::InProgress => "in_progress"@,
            JobStatus::Successful => "successful"@,
            JobStatus::Failed => "failed"@,
            JobStatus::Skipped => "skipped"@,
        }
    }

    pub fn name(self) -> (name: &'static str)
        ensures
            name@ == self.text(),
    {
        match self {
            JobStatus::WaitingForArtifacts => "waiting_for_artifacts",
            JobStatus::WaitingForProofs => "waiting_for_proofs",
            JobStatus::Queued => "queued",
            JobStatus::InProgress => "in_progress",
            JobStatus::Successful => "successful",
            JobStatus::Failed => "failed",
            JobStatus::Skipped => "skipped",
        }
    }
}

/// A span of time, as a PostgreSQL interval without months and days.
#[derive(Clone, Copy, Debug, PartialEq, Eq, Structural)]
pub struct Interval {
    pub microseconds: i64,
}

/// A time of day, which is how the database keeps the time that a job took.
#[derive(Clone, Copy, Debug, PartialEq, Eq, Structural)]
pub struct TimeOfDay {
    pub seconds_from_midnight: u32,
    pub nanoseconds: u32,
}

/// A job as a worker gets it: the batch, and the proofs of the previous round.
#[derive(Debug, PartialEq, Eq)]
pub struct WitnessGeneratorJobMetadata<P> {
    pub block_number: L1BatchNumber,
    pub proofs: Vec<P>,
}

/// How many jobs of one round stand where.
#[derive(Clone, Copy, Debug, PartialEq, Eq, Structural)]
pub struct JobCountStatistics {
    pub queued: usize,
    pub in_progress: usize,
    pub failed: usize,
    pub successful: usize,
}

/// Which jobs to list: those of the batches from the start of `blocks` to its end, both
/// included, or all.
#[derive(Debug)]
pub struct GetWitnessJobsParams {
    pub blocks: Option<Range<L1BatchNumber>>,
}

} // verus!
