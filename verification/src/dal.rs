//! The operations on witness jobs: the statements that each sends to the database.
//!
//! What the operations make of the replies is in [`crate::replies`].
use vstd::prelude::*;

use crate::coords::serialize_coords;
use crate::laws::transactions::{law_failing_is_all_or_nothing, law_skipping_is_all_or_nothing};
use crate::meaning::all_or_nothing;
use crate::query::{
    statement_views, step_views, steps_well_formed, Arg, Query, Statement, Step,
};
use crate::sql::{table_of, Assignment, Column, Condition, Operand, Output, TableName};
use crate::statements::{
    after_failure_steps, circuit_count_column, circuit_count_statement, claim_statement,
    cleanable_leaf_statement, cleanable_node_statement, cleanable_scheduler_statement,
    cleanable_statement, cleaned_statement, create_steps, failure_statement, failure_steps,
    final_result_statement, generated_batch_statement, inputs_statement, leaf_artifacts_statement,
    leaf_job_statement, list_statement, node_artifacts_statement, node_job_statement,
    proofs_statement, scheduler_job_statement, skip_steps, stats_statement, status_statement,
    success_statement, BLOB_RETENTION_DAYS,
};
use crate::types::{
    AggregationRound, GetWitnessJobsParams, Interval, JobStatus, L1BatchNumber, TimeOfDay,
};

verus! {

/// The data access layer of the witness generator.
#[derive(Clone, Copy, Debug)]
pub struct WitnessGeneratorDal;

/// How the number of proofs that a job requires is found out.
#[derive(Debug, PartialEq, Eq)]
pub enum RequiredProofs {
    /// The number is always this.
    Fixed(usize),
    /// The number is what this statement finds.
    Stored(Statement),
}

fn put(column: Column, value: Operand) -> (assignment: Assignment)
    ensures
        assignment == crate::statements::put(column, value),
{
    Assignment { column, value }
}

fn batch_arg(block_number: L1BatchNumber) -> (arg: Arg)
    ensures
        arg@ == crate::statements::batch_arg(block_number),
{
    Arg::Int8(block_number.0 as i64)
}

fn claim(
    table: TableName,
    processing_timeout: Interval,
    max_attempts: u32,
    last_l1_batch_to_process: u32,
) -> (statement: Statement)
    ensures
        statement@ == claim_statement(
            table,
            processing_timeout,
            max_attempts,
            last_l1_batch_to_process,
        ),
{
    let statement = Statement {
        query: Query::UpdateFirst {
            table,
            set: vec![
                put(Column::Status, Operand::Status(JobStatus::InProgress)),
                put(Column::Attempts, Operand::OneMore),
                put(Column::UpdatedAt, Operand::Now),
                put(Column::ProcessingStartedAt, Operand::Now),
            ],
            filter: vec![
                Condition::BatchAtMost(3),
                Condition::Claimable { timeout: 1, max_attempts: 2 },
            ],
        },
        args: vec![
            Arg::Interval(processing_timeout),
            Arg::Int4(max_attempts as i32),
            Arg::Int8(last_l1_batch_to_process as i64),
        ],
    };
    assert(statement@ =~~= claim_statement(
        table,
        processing_timeout,
        max_attempts,
        last_l1_batch_to_process,
    ));
    statement
}

fn generated_batch(table: TableName) -> (statement: Statement)
    ensures
        statement@ == generated_batch_statement(table),
{
    let statement = Statement {
        query: Query::Select {
            outputs: vec![Output::GreatestBatch],
            table,
            filter: vec![Condition::StatusIs(JobStatus::Successful)],
            group_by: None,
            order_by: None,
            limit: None,
        },
        args: Vec::new(),
    };
    assert(statement@ =~~= generated_batch_statement(table));
    statement
}

fn set_status(
    block_number: L1BatchNumber,
    aggregation_round: AggregationRound,
    status: JobStatus,
) -> (statement: Statement)
    ensures
        statement@ == status_statement(block_number, aggregation_round, status),
{
    let statement = Statement {
        query: Query::Update {
            table: table_of(aggregation_round),
            set: vec![
                put(Column::Status, Operand::Status(status)),
                put(Column::UpdatedAt, Operand::Now),
            ],
            filter: vec![Condition::BatchIs(1)],
            returning: None,
        },
        args: vec![batch_arg(block_number)],
    };
    assert(statement@ =~~= status_statement(block_number, aggregation_round, status));
    statement
}

fn cleanable(
    table: TableName,
    filter: Vec<Condition>,
    first: Column,
    second: Column,
    limit: u8,
) -> (statement: Statement)
    ensures
        statement@ == cleanable_statement(table, filter@, first, second, limit),
{
    let statement = Statement {
        query: Query::Select {
            outputs: vec![
                Output::Column(Column::L1BatchNumber),
                Output::Column(first),
                Output::Column(second),
            ],
            table,
            filter,
            group_by: None,
            order_by: None,
            limit: Some(1),
        },
        args: vec![Arg::Int4(limit as i32)],
    };
    assert(statement@ =~~= cleanable_statement(table, filter@, first, second, limit));
    statement
}

fn cleaned(table: TableName, l1_batch_numbers: Vec<i64>) -> (statement: Statement)
    ensures
        statement@ == cleaned_statement(table, l1_batch_numbers@),
{
    let statement = Statement {
        query: Query::Update {
            table,
            set: vec![put(Column::IsBlobCleaned, Operand::True)],
            filter: vec![Condition::BatchAmong(1)],
            returning: None,
        },
        args: vec![Arg::Int8List(l1_batch_numbers)],
    };
    assert(statement@ =~~= cleaned_statement(table, l1_batch_numbers@));
    statement
}

fn add_leaf_job(
    block_number: L1BatchNumber,
    number_of_basic_circuits: usize,
    basic_circuits_blob_url: String,
    basic_circuits_inputs_blob_url: String,
) -> (statement: Statement)
    ensures
        statement@ == leaf_job_statement(
            block_number,
            number_of_basic_circuits,
            basic_circuits_blob_url@,
            basic_circuits_inputs_blob_url@,
        ),
{
    let statement = Statement {
        query: Query::Insert {
            table: TableName::LeafAggregationWitnessJobs,
            values: vec![
                put(Column::L1BatchNumber, Operand::Arg(1)),
                put(Column::BasicCircuits, Operand::Arg(2)),
                put(Column::BasicCircuitsInputs, Operand::Arg(3)),
                put(Column::BasicCircuitsBlobUrl, Operand::Arg(4)),
                put(Column::BasicCircuitsInputsBlobUrl, Operand::Arg(5)),
                put(Column::NumberOfBasicCircuits, Operand::Arg(6)),
                put(Column::Status, Operand::Status(JobStatus::WaitingForProofs)),
                put(Column::CreatedAt, Operand::Now),
                put(Column::UpdatedAt, Operand::Now),
            ],
            keep_existing: false,
        },
        args: vec![
            batch_arg(block_number),
            Arg::Bytes(Vec::new()),
            Arg::Bytes(Vec::new()),
            Arg::Text(basic_circuits_blob_url),
            Arg::Text(basic_circuits_inputs_blob_url),
            Arg::Int8(number_of_basic_circuits as i64),
        ],
    };
    assert(statement@ =~~= leaf_job_statement(
        block_number,
        number_of_basic_circuits,
        basic_circuits_blob_url@,
        basic_circuits_inputs_blob_url@,
    ));
    statement
}

fn add_node_job(block_number: L1BatchNumber) -> (statement: Statement)
    ensures
        statement@ == node_job_statement(block_number),
{
    let statement = Statement {
        query: Query::Insert {
            table: TableName::NodeAggregationWitnessJobs,
            values: vec![
                put(Column::L1BatchNumber, Operand::Arg(1)),
                put(Column::Status, Operand::Status(JobStatus::WaitingForArtifacts)),
                put(Column::CreatedAt, Operand::Now),
                put(Column::UpdatedAt, Operand::Now),
            ],
            keep_existing: false,
        },
        args: vec![batch_arg(block_number)],
    };
    assert(statement@ =~~= node_job_statement(block_number));
    statement
}

fn add_scheduler_job(
    block_number: L1BatchNumber,
    scheduler_witness_blob_url: String,
) -> (statement: Statement)
    ensures
        statement@ == scheduler_job_statement(block_number, scheduler_witness_blob_url@),
{
    let statement = Statement {
        query: Query::Insert {
            table: TableName::SchedulerWitnessJobs,
            values: vec![
                put(Column::L1BatchNumber, Operand::Arg(1)),
                put(Column::SchedulerWitness, Operand::Arg(2)),
                put(Column::SchedulerWitnessBlobUrl, Operand::Arg(3)),
                put(Column::Status, Operand::Status(JobStatus::WaitingForArtifacts)),
                put(Column::CreatedAt, Operand::Now),
                put(Column::UpdatedAt, Operand::Now),
            ],
            keep_existing: false,
        },
        args: vec![
            batch_arg(block_number),
            Arg::Bytes(Vec::new()),
            Arg::Text(scheduler_witness_blob_url),
        ],
    };
    assert(statement@ =~~= scheduler_job_statement(block_number, scheduler_witness_blob_url@));
    statement
}

impl WitnessGeneratorDal {
    /// The table that holds the jobs of a round.
    pub fn input_table_name_for(aggregation_round: AggregationRound) -> (name: &'static str)
        ensures
            name@ == table_of(aggregation_round).text(),
    {
        table_of(aggregation_round).name()
    }

    /// Takes the next job of the first round. The batch number of the job, if any, goes to
    /// [`WitnessGeneratorDal::basic_circuit_witness_job`].
    pub fn get_next_basic_circuit_witness_job(
        processing_timeout: Interval,
        max_attempts: u32,
        last_l1_batch_to_process: u32,
    ) -> (statement: Statement)
        ensures
            statement@ == claim_statement(
                TableName::WitnessInputs,
                processing_timeout,
                max_attempts,
                last_l1_batch_to_process,
            ),
            statement@.well_formed(),
    {
        claim(
            TableName::WitnessInputs,
            processing_timeout,
            max_attempts,
            last_l1_batch_to_process,
        )
    }

    /// Takes the next leaf aggregation job. The batch number of the job and its number of basic
    /// circuits, if any, make a [`crate::replies::ClaimedJob`].
    pub fn get_next_leaf_aggregation_witness_job(
        processing_timeout: Interval,
        max_attempts: u32,
        last_l1_batch_to_process: u32,
    ) -> (statement: Statement)
        ensures
            statement@ == claim_statement(
                TableName::LeafAggregationWitnessJobs,
                processing_timeout,
                max_attempts,
                last_l1_batch_to_process,
            ),
            statement@.well_formed(),
    {
        claim(
            TableName::LeafAggregationWitnessJobs,
            processing_timeout,
            max_attempts,
            last_l1_batch_to_process,
        )
    }

    /// Takes the next node aggregation job. The batch number of the job and its number of leaf
    /// circuits, if any, make a [`crate::replies::ClaimedJob`].
    pub fn get_next_node_aggregation_witness_job(
        processing_timeout: Interval,
        max_attempts: u32,
        last_l1_batch_to_process: u32,
    ) -> (statement: Statement)
        ensures
            statement@ == claim_statement(
                TableName::NodeAggregationWitnessJobs,
                processing_timeout,
                max_attempts,
                last_l1_batch_to_process,
            ),
            statement@.well_formed(),
    {
        claim(
            TableName::NodeAggregationWitnessJobs,
            processing_timeout,
            max_attempts,
            last_l1_batch_to_process,
        )
    }

    /// Takes the next scheduler job. The batch number of the job, if any, makes a
    /// [`crate::replies::ClaimedJob`].
    pub fn get_next_scheduler_witness_job(
        processing_timeout: Interval,
        max_attempts: u32,
        last_l1_batch_to_process: u32,
    ) -> (statement: Statement)
        ensures
            statement@ == claim_statement(
                TableName::SchedulerWitnessJobs,
                processing_timeout,
                max_attempts,
                last_l1_batch_to_process,
            ),
            statement@.well_formed(),
    {
        claim(
            TableName::SchedulerWitnessJobs,
            processing_timeout,
            max_attempts,
            last_l1_batch_to_process,
        )
    }

    /// The last batch of each round whose job succeeded. The replies go to
    /// [`WitnessGeneratorDal::witness_generated_l1_batches`], in the same order.
    pub fn get_witness_generated_l1_batches() -> (statements: Vec<Statement>)
        ensures
            statement_views(statements@) == seq![
                generated_batch_statement(TableName::NodeAggregationWitnessJobs),
                generated_batch_statement(TableName::LeafAggregationWitnessJobs),
                generated_batch_statement(TableName::SchedulerWitnessJobs),
                generated_batch_statement(TableName::WitnessInputs),
            ],
            forall|i: int| 0 <= i < statements.len() ==> (#[trigger] statements@[i])@.well_formed(),
    {
        let statements = vec![
            generated_batch(TableName::NodeAggregationWitnessJobs),
            generated_batch(TableName::LeafAggregationWitnessJobs),
            generated_batch(TableName::SchedulerWitnessJobs),
            generated_batch(TableName::WitnessInputs),
        ];
        assert(statement_views(statements@) =~= seq![
            generated_batch_statement(TableName::NodeAggregationWitnessJobs),
            generated_batch_statement(TableName::LeafAggregationWitnessJobs),
            generated_batch_statement(TableName::SchedulerWitnessJobs),
            generated_batch_statement(TableName::WitnessInputs),
        ]);
        statements
    }

    /// The proofs of a round of a batch. The results go to
    /// [`WitnessGeneratorDal::proof_results`], in the same order.
    pub fn load_proofs_for_block(
        block_number: L1BatchNumber,
        aggregation_round: AggregationRound,
    ) -> (statement: Statement)
        ensures
            statement@ == proofs_statement(block_number, aggregation_round),
            statement@.well_formed(),
    {
        let statement = Statement {
            query: Query::Select {
                outputs: vec![
                    Output::Column(Column::CircuitType),
                    Output::Column(Column::ProofResult),
                ],
                table: TableName::ProverJobs,
                filter: vec![
                    Condition::BatchIs(1),
                    Condition::StatusIs(JobStatus::Successful),
                    Condition::RoundIs(2),
                ],
                group_by: None,
                order_by: Some(Column::SequenceNumber),
                limit: None,
            },
            args: vec![batch_arg(block_number), Arg::Int8(aggregation_round.number() as i64)],
        };
        assert(statement@ =~~= proofs_statement(block_number, aggregation_round));
        statement
    }

    /// Marks a job as finished, with the time that it took.
    pub fn mark_witness_job_as_successful(
        block_number: L1BatchNumber,
        aggregation_round: AggregationRound,
        time_taken: TimeOfDay,
    ) -> (statement: Statement)
        ensures
            statement@ == success_statement(block_number, aggregation_round, time_taken),
            statement@.well_formed(),
    {
        let statement = Statement {
            query: Query::Update {
                table: table_of(aggregation_round),
                set: vec![
                    put(Column::Status, Operand::Status(JobStatus::Successful)),
                    put(Column::UpdatedAt, Operand::Now),
                    put(Column::TimeTaken, Operand::Arg(1)),
                ],
                filter: vec![Condition::BatchIs(2)],
                returning: None,
            },
            args: vec![Arg::TimeOfDay(time_taken), batch_arg(block_number)],
        };
        assert(statement@ =~~= success_statement(block_number, aggregation_round, time_taken));
        statement
    }

    /// Is sent by the prover when all the required proofs are computed.
    pub fn mark_witness_job_as_queued(
        block_number: L1BatchNumber,
        aggregation_round: AggregationRound,
    ) -> (statement: Statement)
        ensures
            statement@ == status_statement(block_number, aggregation_round, JobStatus::Queued),
            statement@.well_formed(),
    {
        set_status(block_number, aggregation_round, JobStatus::Queued)
    }

    /// Skips a job and, in the same transaction, the proof of its batch.
    pub fn mark_witness_job_as_skipped(
        block_number: L1BatchNumber,
        aggregation_round: AggregationRound,
    ) -> (steps: Vec<Step>)
        ensures
            step_views(steps@) == skip_steps(block_number, aggregation_round),
            steps_well_formed(step_views(steps@)),
            all_or_nothing(step_views(steps@)),
    {
        let steps = vec![
            Step::Begin,
            Step::Run(set_status(block_number, aggregation_round, JobStatus::Skipped)),
            Step::SkipProof(block_number),
            Step::Commit,
        ];
        assert(step_views(steps@) =~= skip_steps(block_number, aggregation_round));
        proof {
            law_skipping_is_all_or_nothing(block_number, aggregation_round);
        }
        steps
    }

    /// Is sent by the witness generator when the previous aggregation round is complete.
    pub fn mark_witness_job_as_waiting_for_proofs(
        block_number: L1BatchNumber,
        aggregation_round: AggregationRound,
    ) -> (statement: Statement)
        ensures
            statement@ == status_statement(
                block_number,
                aggregation_round,
                JobStatus::WaitingForProofs,
            ),
            statement@.well_formed(),
    {
        set_status(block_number, aggregation_round, JobStatus::WaitingForProofs)
    }

    /// Marks a job as failed. The steps end with a statement that hands back the number of
    /// attempts; [`WitnessGeneratorDal::after_failure`] says how to go on. Until then nothing is
    /// committed.
    pub fn mark_witness_job_as_failed(
        block_number: L1BatchNumber,
        aggregation_round: AggregationRound,
        time_taken: TimeOfDay,
        error: String,
    ) -> (steps: Vec<Step>)
        ensures
            step_views(steps@) == failure_steps(
                block_number,
                aggregation_round,
                time_taken,
                error@,
            ),
            steps_well_formed(step_views(steps@)),
            forall|attempts: i32, max_attempts: u32|
                all_or_nothing(
                    step_views(steps@) + #[trigger] after_failure_steps(
                        block_number,
                        attempts,
                        max_attempts,
                    ),
                ),
    {
        let statement = Statement {
            query: Query::Update {
                table: table_of(aggregation_round),
                set: vec![
                    put(Column::Status, Operand::Status(JobStatus::Failed)),
                    put(Column::UpdatedAt, Operand::Now),
                    put(Column::TimeTaken, Operand::Arg(1)),
                    put(Column::Error, Operand::Arg(2)),
                ],
                filter: vec![Condition::BatchIs(3)],
                returning: Some(Column::Attempts),
            },
            args: vec![Arg::TimeOfDay(time_taken), Arg::Text(error), batch_arg(block_number)],
        };
        assert(statement@ =~~= failure_statement(
            block_number,
            aggregation_round,
            time_taken,
            error@,
        ));
        let steps = vec![Step::Begin, Step::Run(statement)];
        assert(step_views(steps@) =~= failure_steps(
            block_number,
            aggregation_round,
            time_taken,
            error@,
        ));
        assert forall|attempts: i32, max_attempts: u32|
            all_or_nothing(
                step_views(steps@) + #[trigger] after_failure_steps(
                    block_number,
                    attempts,
                    max_attempts,
                ),
            ) by {
            law_failing_is_all_or_nothing(
                block_number,
                aggregation_round,
                time_taken,
                error@,
                attempts,
                max_attempts,
            );
        }
        steps
    }

    /// Goes on after a job was marked as failed: where it has no attempts left, the proof of its
    /// batch is skipped.
    pub fn after_failure(
        block_number: L1BatchNumber,
        attempts: i32,
        max_attempts: u32,
    ) -> (steps: Vec<Step>)
        ensures
            step_views(steps@) == after_failure_steps(block_number, attempts, max_attempts),
            steps_well_formed(step_views(steps@)),
    {
        let mut steps: Vec<Step> = Vec::new();
        if attempts as u32 >= max_attempts {
            steps.push(Step::SkipProof(block_number));
        }
        steps.push(Step::Commit);
        assert(step_views(steps@) =~= after_failure_steps(block_number, attempts, max_attempts));
        steps
    }

    /// Creates a leaf aggregation job that waits for proofs, and a node aggregation job and a
    /// scheduler job that wait for artifacts. The witness generator has the jobs wait for proofs
    /// when the corresponding artifacts are computed, and the prover queues them when all the
    /// proofs that they depend on are computed. The jobs are added one by one, without a
    /// transaction: where one is refused, those before it stay.
    pub fn create_aggregation_jobs(
        block_number: L1BatchNumber,
        number_of_basic_circuits: usize,
        basic_circuits_blob_url: String,
        basic_circuits_inputs_blob_url: String,
        scheduler_witness_blob_url: String,
    ) -> (steps: Vec<Step>)
        ensures
            step_views(steps@) == create_steps(
                block_number,
                number_of_basic_circuits,
                basic_circuits_blob_url@,
                basic_circuits_inputs_blob_url@,
                scheduler_witness_blob_url@,
            ),
            steps_well_formed(step_views(steps@)),
    {
        let steps = vec![
            Step::Run(
                add_leaf_job(
                    block_number,
                    number_of_basic_circuits,
                    basic_circuits_blob_url,
                    basic_circuits_inputs_blob_url,
                ),
            ),
            Step::Run(add_node_job(block_number)),
            Step::Run(add_scheduler_job(block_number, scheduler_witness_blob_url)),
        ];
        assert(step_views(steps@) =~= create_steps(
            block_number,
            number_of_basic_circuits,
            basic_circuits_blob_url@,
            basic_circuits_inputs_blob_url@,
            scheduler_witness_blob_url@,
        ));
        steps
    }

    /// Saves artifacts in the node aggregation job and has it wait for proofs; the prover queues
    /// it when all the proofs that it depends on are computed. A job that is queued already,
    /// since the same leaf aggregation job ran twice at the same time, is left as it is.
    pub fn save_leaf_aggregation_artifacts(
        block_number: L1BatchNumber,
        number_of_leaf_circuits: usize,
        leaf_layer_subqueues_blob_url: String,
        aggregation_outputs_blob_url: String,
    ) -> (statement: Statement)
        ensures
            statement@ == leaf_artifacts_statement(
                block_number,
                number_of_leaf_circuits,
                leaf_layer_subqueues_blob_url@,
                aggregation_outputs_blob_url@,
            ),
            statement@.well_formed(),
    {
        let statement = Statement {
            query: Query::Update {
                table: TableName::NodeAggregationWitnessJobs,
                set: vec![
                    put(Column::NumberOfLeafCircuits, Operand::Arg(1)),
                    put(Column::LeafLayerSubqueuesBlobUrl, Operand::Arg(3)),
                    put(Column::AggregationOutputsBlobUrl, Operand::Arg(4)),
                    put(Column::Status, Operand::Status(JobStatus::WaitingForProofs)),
                    put(Column::UpdatedAt, Operand::Now),
                ],
                filter: vec![Condition::BatchIs(2), Condition::StatusIsNot(JobStatus::Queued)],
                returning: None,
            },
            args: vec![
                Arg::Int8(number_of_leaf_circuits as i64),
                batch_arg(block_number),
                Arg::Text(leaf_layer_subqueues_blob_url),
                Arg::Text(aggregation_outputs_blob_url),
            ],
        };
        assert(statement@ =~~= leaf_artifacts_statement(
            block_number,
            number_of_leaf_circuits,
            leaf_layer_subqueues_blob_url@,
            aggregation_outputs_blob_url@,
        ));
        statement
    }

    /// Saves artifacts in the scheduler job and has it wait for proofs; the prover queues it when
    /// all the proofs that it depends on are computed. A job that is queued already, since the
    /// same node aggregation job ran twice at the same time, is left as it is.
    pub fn save_node_aggregation_artifacts(
        block_number: L1BatchNumber,
        final_node_aggregations_blob_url: String,
    ) -> (statement: Statement)
        ensures
            statement@ == node_artifacts_statement(block_number, final_node_aggregations_blob_url@),
            statement@.well_formed(),
    {
        let statement = Statement {
            query: Query::Update {
                table: TableName::SchedulerWitnessJobs,
                set: vec![
                    put(Column::FinalNodeAggregationsBlobUrl, Operand::Arg(2)),
                    put(Column::Status, Operand::Status(JobStatus::WaitingForProofs)),
                    put(Column::UpdatedAt, Operand::Now),
                ],
                filter: vec![Condition::BatchIs(1), Condition::StatusIsNot(JobStatus::Queued)],
                returning: None,
            },
            args: vec![batch_arg(block_number), Arg::Text(final_node_aggregations_blob_url)],
        };
        assert(statement@ =~~= node_artifacts_statement(
            block_number,
            final_node_aggregations_blob_url@,
        ));
        statement
    }

    /// Saves the final aggregation result in the scheduler job.
    pub fn save_final_aggregation_result(
        block_number: L1BatchNumber,
        aggregation_result_coords: [[u8; 32]; 4],
    ) -> (statement: Statement)
        ensures
            statement@ == final_result_statement(block_number, aggregation_result_coords),
            statement@.well_formed(),
    {
        let serialized = match serialize_coords(&aggregation_result_coords) {
            Ok(bytes) => bytes,
            Err(_) => {
                assert(false);
                Vec::new()
            },
        };
        let statement = Statement {
            query: Query::Update {
                table: TableName::SchedulerWitnessJobs,
                set: vec![
                    put(Column::AggregationResultCoords, Operand::Arg(1)),
                    put(Column::UpdatedAt, Operand::Now),
                ],
                filter: vec![Condition::BatchIs(2)],
                returning: None,
            },
            args: vec![Arg::Bytes(serialized), batch_arg(block_number)],
        };
        assert(statement@ =~~= final_result_statement(block_number, aggregation_result_coords));
        statement
    }

    /// Counts the jobs of a round by status. The rows go to
    /// [`WitnessGeneratorDal::witness_jobs_stats`].
    pub fn get_witness_jobs_stats(aggregation_round: AggregationRound) -> (statement: Statement)
        ensures
            statement@ == stats_statement(aggregation_round),
            statement@.well_formed(),
    {
        let statement = Statement {
            query: Query::Select {
                outputs: vec![Output::RowCount, Output::QuotedStatus],
                table: table_of(aggregation_round),
                filter: Vec::new(),
                group_by: Some(Column::Status),
                order_by: None,
                limit: None,
            },
            args: Vec::new(),
        };
        assert(statement@ =~~= stats_statement(aggregation_round));
        statement
    }

    /// How many proofs the job of a round needs. The jobs of the first round need none, and
    /// asking for their number is an error. A number that is stored goes to
    /// [`WitnessGeneratorDal::stored_proofs_count`].
    pub fn required_proofs_count(
        block_number: L1BatchNumber,
        aggregation_round: AggregationRound,
    ) -> (required: RequiredProofs)
        requires
            aggregation_round != AggregationRound::BasicCircuits,
        ensures
            match circuit_count_column(aggregation_round) {
                Some(column) => {
                    &&& required matches RequiredProofs::Stored(statement)
                    &&& statement@ == circuit_count_statement(
                        block_number,
                        aggregation_round,
                        column,
                    )
                    &&& statement@.well_formed()
                },
                None => required == RequiredProofs::Fixed(1),
            },
    {
        let column = match aggregation_round {
            AggregationRound::LeafAggregation => Column::NumberOfBasicCircuits,
            AggregationRound::NodeAggregation => Column::NumberOfLeafCircuits,
            // There is always just one final node circuit
            _ => return RequiredProofs::Fixed(1),
        };
        let statement = Statement {
            query: Query::Select {
                outputs: vec![Output::ColumnAsCount(column)],
                table: table_of(aggregation_round),
                filter: vec![Condition::BatchIs(1)],
                group_by: None,
                order_by: None,
                limit: None,
            },
            args: vec![batch_arg(block_number)],
        };
        assert(statement@ =~~= circuit_count_statement(block_number, aggregation_round, column));
        RequiredProofs::Stored(statement)
    }

    /// Lists the jobs of all rounds.
    pub fn get_jobs(opts: GetWitnessJobsParams) -> (statement: Statement)
        ensures
            statement@ == list_statement(opts),
            statement@.well_formed(),
    {
        let mut filter: Vec<Condition> = vec![Condition::Always];
        match &opts.blocks {
            Some(blocks) => {
                filter.push(Condition::BatchBetween(blocks.start.0, blocks.end.0));
            },
            None => {},
        }
        let statement = Statement { query: Query::ListJobs { filter }, args: Vec::new() };
        assert(statement@ =~~= list_statement(opts));
        statement
    }

    /// Adds a queued job of the first round, unless the batch has one.
    pub fn save_witness_inputs(
        block_number: L1BatchNumber,
        merkle_tree_paths_blob_url: String,
    ) -> (statement: Statement)
        ensures
            statement@ == inputs_statement(block_number, merkle_tree_paths_blob_url@),
            statement@.well_formed(),
    {
        let statement = Statement {
            query: Query::Insert {
                table: TableName::WitnessInputs,
                values: vec![
                    put(Column::L1BatchNumber, Operand::Arg(1)),
                    put(Column::MerkleTreePaths, Operand::Arg(2)),
                    put(Column::MerkleTreePathsBlobUrl, Operand::Arg(3)),
                    put(Column::Status, Operand::Status(JobStatus::Queued)),
                    put(Column::CreatedAt, Operand::Now),
                    put(Column::UpdatedAt, Operand::Now),
                ],
                keep_existing: true,
            },
            args: vec![
                batch_arg(block_number),
                Arg::Bytes(Vec::new()),
                Arg::Text(merkle_tree_paths_blob_url),
            ],
        };
        assert(statement@ =~~= inputs_statement(block_number, merkle_tree_paths_blob_url@));
        assert(statement@.query->values[3].column == Column::Status);
        statement
    }

    /// The leaf aggregation jobs whose blobs may be cleaned. The rows go to
    /// [`WitnessGeneratorDal::blob_urls_to_be_cleaned`].
    pub fn get_basic_circuit_and_circuit_inputs_blob_urls_to_be_cleaned(
        limit: u8,
    ) -> (statement: Statement)
        ensures
            statement@ == cleanable_leaf_statement(limit),
            statement@.well_formed(),
    {
        let filter = vec![
            Condition::StatusIs(JobStatus::Successful),
            Condition::BlobsNotCleaned,
            Condition::NotNull(Column::BasicCircuitsBlobUrl),
            Condition::NotNull(Column::BasicCircuitsInputsBlobUrl),
            Condition::NotUpdatedForDays(BLOB_RETENTION_DAYS),
        ];
        let statement = cleanable(
            TableName::LeafAggregationWitnessJobs,
            filter,
            Column::BasicCircuitsBlobUrl,
            Column::BasicCircuitsInputsBlobUrl,
            limit,
        );
        assert(statement@ =~~= cleanable_leaf_statement(limit));
        statement
    }

    /// The node aggregation jobs whose blobs may be cleaned. The rows go to
    /// [`WitnessGeneratorDal::blob_urls_to_be_cleaned`].
    pub fn get_leaf_layer_subqueues_and_aggregation_outputs_blob_urls_to_be_cleaned(
        limit: u8,
    ) -> (statement: Statement)
        ensures
            statement@ == cleanable_node_statement(limit),
            statement@.well_formed(),
    {
        let filter = vec![
            Condition::StatusIs(JobStatus::Successful),
            Condition::BlobsNotCleaned,
            Condition::NotNull(Column::LeafLayerSubqueuesBlobUrl),
            Condition::NotNull(Column::AggregationOutputsBlobUrl),
            Condition::NotUpdatedForDays(BLOB_RETENTION_DAYS),
        ];
        let statement = cleanable(
            TableName::NodeAggregationWitnessJobs,
            filter,
            Column::LeafLayerSubqueuesBlobUrl,
            Column::AggregationOutputsBlobUrl,
            limit,
        );
        assert(statement@ =~~= cleanable_node_statement(limit));
        statement
    }

    /// The scheduler jobs whose blobs may be cleaned. The rows go to
    /// [`WitnessGeneratorDal::blob_urls_to_be_cleaned`].
    pub fn get_scheduler_witness_and_node_aggregations_blob_urls_to_be_cleaned(
        limit: u8,
    ) -> (statement: Statement)
        ensures
            statement@ == cleanable_scheduler_statement(limit),
            statement@.well_formed(),
    {
        let filter = vec![
            Condition::StatusIs(JobStatus::Successful),
            Condition::BlobsNotCleaned,
            Condition::NotUpdatedForDays(BLOB_RETENTION_DAYS),
            Condition::NotNull(Column::SchedulerWitnessBlobUrl),
            Condition::NotNull(Column::FinalNodeAggregationsBlobUrl),
        ];
        let statement = cleanable(
            TableName::SchedulerWitnessJobs,
            filter,
            Column::SchedulerWitnessBlobUrl,
            Column::FinalNodeAggregationsBlobUrl,
            limit,
        );
        assert(statement@ =~~= cleanable_scheduler_statement(limit));
        statement
    }

    /// Marks the blobs of the leaf aggregation jobs of the batches as cleaned.
    pub fn mark_leaf_aggregation_gcs_blobs_as_cleaned(
        l1_batch_numbers: Vec<i64>,
    ) -> (statement: Statement)
        ensures
            statement@ == cleaned_statement(
                TableName::LeafAggregationWitnessJobs,
                l1_batch_numbers@,
            ),
            statement@.well_formed(),
    {
        cleaned(TableName::LeafAggregationWitnessJobs, l1_batch_numbers)
    }

    /// Marks the blobs of the node aggregation jobs of the batches as cleaned.
    pub fn mark_node_aggregation_gcs_blobs_as_cleaned(
        l1_batch_numbers: Vec<i64>,
    ) -> (statement: Statement)
        ensures
            statement@ == cleaned_statement(
                TableName::NodeAggregationWitnessJobs,
                l1_batch_numbers@,
            ),
            statement@.well_formed(),
    {
        cleaned(TableName::NodeAggregationWitnessJobs, l1_batch_numbers)
    }

    /// Marks the blobs of the scheduler jobs of the batches as cleaned.
    pub fn mark_scheduler_witness_gcs_blobs_as_cleaned(
        l1_batch_numbers: Vec<i64>,
    ) -> (statement: Statement)
        ensures
            statement@ == cleaned_statement(TableName::SchedulerWitnessJobs, l1_batch_numbers@),
            statement@.well_formed(),
    {
        cleaned(TableName::SchedulerWitnessJobs, l1_batch_numbers)
    }
}

} // verus!
