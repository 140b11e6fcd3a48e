//! The statements of the operations on witness jobs.
use vstd::prelude::*;

use crate::coords::coords_bytes;
use crate::query::{ArgView, QueryView, StatementView, StepView};
use crate::sql::{table_of, Assignment, Column, Condition, Operand, Output, TableName};
use crate::types::{
    AggregationRound, GetWitnessJobsParams, Interval, JobStatus, L1BatchNumber, TimeOfDay,
};

verus! {

/// The argument that stands for a batch.
pub open spec fn batch_arg(block_number: L1BatchNumber) -> ArgView {
    ArgView::Int8(block_number.0 as i64)
}

/// `column = value`.
pub open spec fn put(column: Column, value: Operand) -> Assignment {
    Assignment { column, value }
}

/// Takes the first job that a worker may take: marks it as in progress and counts the attempt.
pub open spec fn claim_statement(
    table: TableName,
    processing_timeout: Interval,
    max_attempts: u32,
    last_l1_batch_to_process: u32,
) -> StatementView {
    StatementView {
        query: QueryView::UpdateFirst {
            table,
            set: seq![
                put(Column::Status, Operand::Status(JobStatus::InProgress)),
                put(Column::Attempts, Operand::OneMore),
                put(Column::UpdatedAt, Operand::Now),
                put(Column::ProcessingStartedAt, Operand::Now),
            ],
            filter: seq![
                Condition::BatchAtMost(3),
                Condition::Claimable { timeout: 1, max_attempts: 2 },
            ],
        },
        args: seq![
            ArgView::Interval(processing_timeout),
            ArgView::Int4(max_attempts as i32),
            ArgView::Int8(last_l1_batch_to_process as i64),
        ],
    }
}

/// The greatest batch whose job in the table succeeded.
pub open spec fn generated_batch_statement(table: TableName) -> StatementView {
    StatementView {
        query: QueryView::Select {
            outputs: seq![Output::GreatestBatch],
            table,
            filter: seq![Condition::StatusIs(JobStatus::Successful)],
            group_by: None,
            order_by: None,
            limit: None,
        },
        args: seq![],
    }
}

/// The proofs of a round of a batch, in their order.
pub open spec fn proofs_statement(
    block_number: L1BatchNumber,
    aggregation_round: AggregationRound,
) -> StatementView {
    StatementView {
        query: QueryView::Select {
            outputs: seq![Output::Column(Column::CircuitType), Output::Column(Column::ProofResult)],
            table: TableName::ProverJobs,
            filter: seq![
                Condition::BatchIs(1),
                Condition::StatusIs(JobStatus::Successful),
                Condition::RoundIs(2),
            ],
            group_by: None,
            order_by: Some(Column::SequenceNumber),
            limit: None,
        },
        args: seq![batch_arg(block_number), ArgView::Int8(aggregation_round.number() as i64)],
    }
}

/// Marks the job of the round as finished.
pub open spec fn success_statement(
    block_number: L1BatchNumber,
    aggregation_round: AggregationRound,
    time_taken: TimeOfDay,
) -> StatementView {
    StatementView {
        query: QueryView::Update {
            table: table_of(aggregation_round),
            set: seq![
                put(Column::Status, Operand::Status(JobStatus::Successful)),
                put(Column::UpdatedAt, Operand::Now),
                put(Column::TimeTaken, Operand::Arg(1)),
            ],
            filter: seq![Condition::BatchIs(2)],
            returning: None,
        },
        args: seq![ArgView::TimeOfDay(time_taken), batch_arg(block_number)],
    }
}

/// Gives the job of the round a status.
pub open spec fn status_statement(
    block_number: L1BatchNumber,
    aggregation_round: AggregationRound,
    status: JobStatus,
) -> StatementView {
    StatementView {
        query: QueryView::Update {
            table: table_of(aggregation_round),
            set: seq![
                put(Column::Status, Operand::Status(status)),
                put(Column::UpdatedAt, Operand::Now),
            ],
            filter: seq![Condition::BatchIs(1)],
            returning: None,
        },
        args: seq![batch_arg(block_number)],
    }
}

/// Marks the job of the round as failed, and asks for the number of attempts.
pub open spec fn failure_statement(
    block_number: L1BatchNumber,
    aggregation_round: AggregationRound,
    time_taken: TimeOfDay,
    error: Seq<char>,
) -> StatementView {
    StatementView {
        query: QueryView::Update {
            table: table_of(aggregation_round),
            set: seq![
                put(Column::Status, Operand::Status(JobStatus::Failed)),
                put(Column::UpdatedAt, Operand::Now),
                put(Column::TimeTaken, Operand::Arg(1)),
                put(Column::Error, Operand::Arg(2)),
            ],
            filter: seq![Condition::BatchIs(3)],
            returning: Some(Column::Attempts),
        },
        args: seq![
            ArgView::TimeOfDay(time_taken),
            ArgView::Text(error),
            batch_arg(block_number),
        ],
    }
}

/// The steps that skip a job together with the proof of its batch.
pub open spec fn skip_steps(
    block_number: L1BatchNumber,
    aggregation_round: AggregationRound,
) -> Seq<StepView> {
    seq![
        StepView::Begin,
        StepView::Run(status_statement(block_number, aggregation_round, JobStatus::Skipped)),
        StepView::SkipProof(block_number),
        StepView::Commit,
    ]
}

/// The steps that mark a job as failed, up to the reply with the number of attempts.
pub open spec fn failure_steps(
    block_number: L1BatchNumber,
    aggregation_round: AggregationRound,
    time_taken: TimeOfDay,
    error: Seq<char>,
) -> Seq<StepView> {
    seq![
        StepView::Begin,
        StepView::Run(failure_statement(block_number, aggregation_round, time_taken, error)),
    ]
}

/// The steps that follow the reply with the number of attempts: a job that used up its attempts
/// has the proof of its batch skipped.
pub open spec fn after_failure_steps(
    block_number: L1BatchNumber,
    attempts: i32,
    max_attempts: u32,
) -> Seq<StepView> {
    if attempts as u32 >= max_attempts {
        seq![StepView::SkipProof(block_number), StepView::Commit]
    } else {
        seq![StepView::Commit]
    }
}

/// The steps that create the aggregation jobs of a batch.
pub open spec fn create_steps(
    block_number: L1BatchNumber,
    number_of_basic_circuits: usize,
    basic_circuits_blob_url: Seq<char>,
    basic_circuits_inputs_blob_url: Seq<char>,
    scheduler_witness_blob_url: Seq<char>,
) -> Seq<StepView> {
    seq![
        StepView::Run(
            leaf_job_statement(
                block_number,
                number_of_basic_circuits,
                basic_circuits_blob_url,
                basic_circuits_inputs_blob_url,
            ),
        ),
        StepView::Run(node_job_statement(block_number)),
        StepView::Run(scheduler_job_statement(block_number, scheduler_witness_blob_url)),
    ]
}

/// Adds the leaf aggregation job, which waits for proofs.
pub open spec fn leaf_job_statement(
    block_number: L1BatchNumber,
    number_of_basic_circuits: usize,
    basic_circuits_blob_url: Seq<char>,
    basic_circuits_inputs_blob_url: Seq<char>,
) -> StatementView {
    StatementView {
        query: QueryView::Insert {
            table: TableName::LeafAggregationWitnessJobs,
            values: seq![
                put(Column::L1BatchNumber, Operand::Arg(1)),
                put(Column::BasicCircuits, Operand::Arg(2)),
                put(Column::BasicCircuitsInputs, Operand::Arg(3)),
                put(Column::BasicCircuitsBlobUrl, Operand::Arg(4)),
                put(Column::BasicCircuitsInputsBlobUrl, Operand::Arg(5)),
                put(Column::NumberOfBasicCircuits, Operand::Arg(6)),
                put(Column::Status, Operand::Status(JobStatus::WaitingForProofs)),
                put(Column::CreatedAt, Operand::Now),
                put(Column::UpdatedAt, Operand::Now),
            ],
            keep_existing: false,
        },
        args: seq![
            batch_arg(block_number),
            ArgView::Bytes(seq![]),
            ArgView::Bytes(seq![]),
            ArgView::Text(basic_circuits_blob_url),
            ArgView::Text(basic_circuits_inputs_blob_url),
            ArgView::Int8(number_of_basic_circuits as i64),
        ],
    }
}

/// Adds the node aggregation job, which waits for artifacts.
pub open spec fn node_job_statement(block_number: L1BatchNumber) -> StatementView {
    StatementView {
        query: QueryView::Insert {
            table: TableName::NodeAggregationWitnessJobs,
            values: seq![
                put(Column::L1BatchNumber, Operand::Arg(1)),
                put(Column::Status, Operand::Status(JobStatus::WaitingForArtifacts)),
                put(Column::CreatedAt, Operand::Now),
                put(Column::UpdatedAt, Operand::Now),
            ],
            keep_existing: false,
        },
        args: seq![batch_arg(block_number)],
    }
}

/// Adds the scheduler job, which waits for artifacts.
pub open spec fn scheduler_job_statement(
    block_number: L1BatchNumber,
    scheduler_witness_blob_url: Seq<char>,
) -> StatementView {
    StatementView {
        query: QueryView::Insert {
            table: TableName::SchedulerWitnessJobs,
            values: seq![
                put(Column::L1BatchNumber, Operand::Arg(1)),
                put(Column::SchedulerWitness, Operand::Arg(2)),
                put(Column::SchedulerWitnessBlobUrl, Operand::Arg(3)),
                put(Column::Status, Operand::Status(JobStatus::WaitingForArtifacts)),
                put(Column::CreatedAt, Operand::Now),
                put(Column::UpdatedAt, Operand::Now),
            ],
            keep_existing: false,
        },
        args: seq![
            batch_arg(block_number),
            ArgView::Bytes(seq![]),
            ArgView::Text(scheduler_witness_blob_url),
        ],
    }
}

/// Stores the artifacts of the leaf aggregation in the node aggregation job, unless that is
/// queued.
pub open spec fn leaf_artifacts_statement(
    block_number: L1BatchNumber,
    number_of_leaf_circuits: usize,
    leaf_layer_subqueues_blob_url: Seq<char>,
    aggregation_outputs_blob_url: Seq<char>,
) -> StatementView {
    StatementView {
        query: QueryView::Update {
            table: TableName::NodeAggregationWitnessJobs,
            set: seq![
                put(Column::NumberOfLeafCircuits, Operand::Arg(1)),
                put(Column::LeafLayerSubqueuesBlobUrl, Operand::Arg(3)),
                put(Column::AggregationOutputsBlobUrl, Operand::Arg(4)),
                put(Column::Status, Operand::Status(JobStatus::WaitingForProofs)),
                put(Column::UpdatedAt, Operand::Now),
            ],
            filter: seq![Condition::BatchIs(2), Condition::StatusIsNot(JobStatus::Queued)],
            returning: None,
        },
        args: seq![
            ArgView::Int8(number_of_leaf_circuits as i64),
            batch_arg(block_number),
            ArgView::Text(leaf_layer_subqueues_blob_url),
            ArgView::Text(aggregation_outputs_blob_url),
        ],
    }
}

/// Stores the artifacts of the node aggregation in the scheduler job, unless that is queued.
pub open spec fn node_artifacts_statement(
    block_number: L1BatchNumber,
    final_node_aggregations_blob_url: Seq<char>,
) -> StatementView {
    StatementView {
        query: QueryView::Update {
            table: TableName::SchedulerWitnessJobs,
            set: seq![
                put(Column::FinalNodeAggregationsBlobUrl, Operand::Arg(2)),
                put(Column::Status, Operand::Status(JobStatus::WaitingForProofs)),
                put(Column::UpdatedAt, Operand::Now),
            ],
            filter: seq![Condition::BatchIs(1), Condition::StatusIsNot(JobStatus::Queued)],
            returning: None,
        },
        args: seq![batch_arg(block_number), ArgView::Text(final_node_aggregations_blob_url)],
    }
}

/// Stores the final aggregation result in the scheduler job.
pub open spec fn final_result_statement(
    block_number: L1BatchNumber,
    aggregation_result_coords: [[u8; 32]; 4],
) -> StatementView {
    StatementView {
        query: QueryView::Update {
            table: TableName::SchedulerWitnessJobs,
            set: seq![
                put(Column::AggregationResultCoords, Operand::Arg(1)),
                put(Column::UpdatedAt, Operand::Now),
            ],
            filter: seq![Condition::BatchIs(2)],
            returning: None,
        },
        args: seq![
            ArgView::Bytes(coords_bytes(aggregation_result_coords)),
            batch_arg(block_number),
        ],
    }
}

/// The number of jobs of the round in each status.
pub open spec fn stats_statement(aggregation_round: AggregationRound) -> StatementView {
    StatementView {
        query: QueryView::Select {
            outputs: seq![Output::RowCount, Output::QuotedStatus],
            table: table_of(aggregation_round),
            filter: seq![],
            group_by: Some(Column::Status),
            order_by: None,
            limit: None,
        },
        args: seq![],
    }
}

/// The column of a job that holds the number of circuits of the round before; the jobs of the
/// first and of the last round have none.
pub open spec fn circuit_count_column(aggregation_round: AggregationRound) -> Option<Column> {
    match aggregation_round {
        AggregationRound::BasicCircuits => None,
        AggregationRound::LeafAggregation => Some(Column::NumberOfBasicCircuits),
        AggregationRound::NodeAggregation => Some(Column::NumberOfLeafCircuits),
        AggregationRound::Scheduler => None,
    }
}

/// The number of circuits that the job of the round holds in `column`.
pub open spec fn circuit_count_statement(
    block_number: L1BatchNumber,
    aggregation_round: AggregationRound,
    column: Column,
) -> StatementView {
    StatementView {
        query: QueryView::Select {
            outputs: seq![Output::ColumnAsCount(column)],
            table: table_of(aggregation_round),
            filter: seq![Condition::BatchIs(1)],
            group_by: None,
            order_by: None,
            limit: None,
        },
        args: seq![batch_arg(block_number)],
    }
}

/// The conditions that the listed jobs meet.
pub open spec fn list_filter(opts: GetWitnessJobsParams) -> Seq<Condition> {
    match opts.blocks {
        Some(blocks) => seq![
            Condition::Always,
            Condition::BatchBetween(blocks.start.0, blocks.end.0),
        ],
        None => seq![Condition::Always],
    }
}

/// The jobs of all rounds.
pub open spec fn list_statement(opts: GetWitnessJobsParams) -> StatementView {
    StatementView { query: QueryView::ListJobs { filter: list_filter(opts) }, args: seq![] }
}

/// Adds the job of the first round, which is queued, where there is none yet.
pub open spec fn inputs_statement(
    block_number: L1BatchNumber,
    merkle_tree_paths_blob_url: Seq<char>,
) -> StatementView {
    StatementView {
        query: QueryView::Insert {
            table: TableName::WitnessInputs,
            values: seq![
                put(Column::L1BatchNumber, Operand::Arg(1)),
                put(Column::MerkleTreePaths, Operand::Arg(2)),
                put(Column::MerkleTreePathsBlobUrl, Operand::Arg(3)),
                put(Column::Status, Operand::Status(JobStatus::Queued)),
                put(Column::CreatedAt, Operand::Now),
                put(Column::UpdatedAt, Operand::Now),
            ],
            keep_existing: true,
        },
        args: seq![
            batch_arg(block_number),
            ArgView::Bytes(seq![]),
            ArgView::Text(merkle_tree_paths_blob_url),
        ],
    }
}

/// The days after which the blobs of a finished job may be cleaned.
pub const BLOB_RETENTION_DAYS: u8 = 30;

/// The jobs whose blobs may be cleaned, with the two columns that hold their addresses.
pub open spec fn cleanable_statement(
    table: TableName,
    filter: Seq<Condition>,
    first: Column,
    second: Column,
    limit: u8,
) -> StatementView {
    StatementView {
        query: QueryView::Select {
            outputs: seq![
                Output::Column(Column::L1BatchNumber),
                Output::Column(first),
                Output::Column(second),
            ],
            table,
            filter,
            group_by: None,
            order_by: None,
            limit: Some(1),
        },
        args: seq![ArgView::Int4(limit as i32)],
    }
}

/// The leaf aggregation jobs whose blobs may be cleaned.
pub open spec fn cleanable_leaf_statement(limit: u8) -> StatementView {
    cleanable_statement(
        TableName::LeafAggregationWitnessJobs,
        seq![
            Condition::StatusIs(JobStatus::Successful),
            Condition::BlobsNotCleaned,
            Condition::NotNull(Column::BasicCircuitsBlobUrl),
            Condition::NotNull(Column::BasicCircuitsInputsBlobUrl),
            Condition::NotUpdatedForDays(BLOB_RETENTION_DAYS),
        ],
        Column::BasicCircuitsBlobUrl,
        Column::BasicCircuitsInputsBlobUrl,
        limit,
    )
}

/// The node aggregation jobs whose blobs may be cleaned.
pub open spec fn cleanable_node_statement(limit: u8) -> StatementView {
    cleanable_statement(
        TableName::NodeAggregationWitnessJobs,
        seq![
            Condition::StatusIs(JobStatus::Successful),
            Condition::BlobsNotCleaned,
            Condition::NotNull(Column::LeafLayerSubqueuesBlobUrl),
            Condition::NotNull(Column::AggregationOutputsBlobUrl),
            Condition::NotUpdatedForDays(BLOB_RETENTION_DAYS),
        ],
        Column::LeafLayerSubqueuesBlobUrl,
        Column::AggregationOutputsBlobUrl,
        limit,
    )
}

/// The scheduler jobs whose blobs may be cleaned.
pub open spec fn cleanable_scheduler_statement(limit: u8) -> StatementView {
    cleanable_statement(
        TableName::SchedulerWitnessJobs,
        seq![
            Condition::StatusIs(JobStatus::Successful),
            Condition::BlobsNotCleaned,
            Condition::NotUpdatedForDays(BLOB_RETENTION_DAYS),
            Condition::NotNull(Column::SchedulerWitnessBlobUrl),
            Condition::NotNull(Column::FinalNodeAggregationsBlobUrl),
        ],
        Column::SchedulerWitnessBlobUrl,
        Column::FinalNodeAggregationsBlobUrl,
        limit,
    )
}

/// Marks the blobs of the batches as cleaned.
pub open spec fn cleaned_statement(
    table: TableName,
    l1_batch_numbers: Seq<i64>,
) -> StatementView {
    StatementView {
        query: QueryView::Update {
            table,
            set: seq![put(Column::IsBlobCleaned, Operand::True)],
            filter: seq![Condition::BatchAmong(1)],
            returning: None,
        },
        args: seq![ArgView::Int8List(l1_batch_numbers)],
    }
}

} // verus!
