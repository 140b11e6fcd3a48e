//! What holds whatever operations run in between.
use vstd::prelude::*;

use crate::laws::blobs::{
    cleanable_batches, law_blobs_of_old_finished_jobs_are_found,
    law_given_blobs_are_marked_as_cleaned,
};
use crate::laws::common::{lemma_assigned_to, lemma_not_assigned_to, Search};
use crate::laws::pipeline::{law_created_jobs_wait, law_leaf_artifacts_do_not_unqueue_a_job};
use crate::laws::reading::{law_circuit_count_is_that_of_the_job, required_count};
use crate::laws::tables::law_jobs_stay_jobs;
use crate::meaning::{
    assigned, cell, found, has_status, holds_jobs, is_answer, is_job, is_least, least, left_after,
    meets, run, session, take_all, Database, Datum, ReplyRow, Row,
};
use crate::query::{steps_well_formed, QueryView, StatementView, StepView};
use crate::replies::ClaimedJob;
use crate::sql::{table_of, Assignment, Column, Condition, Output, TableName};
use crate::statements::{
    after_failure_steps, circuit_count_column, circuit_count_statement, cleaned_statement,
    create_steps, failure_steps, final_result_statement, inputs_statement,
    leaf_artifacts_statement, node_artifacts_statement, skip_steps, status_statement,
    success_statement,
};
use crate::types::{AggregationRound, JobStatus, L1BatchNumber, TimeOfDay};

verus! {

/// The operations that change something.
pub enum Operation {
    TakeJob { round: AggregationRound, search: Search },
    MarkSuccessful {
        block_number: L1BatchNumber,
        round: AggregationRound,
        time_taken: TimeOfDay,
    },
    MarkQueued { block_number: L1BatchNumber, round: AggregationRound },
    MarkWaitingForProofs { block_number: L1BatchNumber, round: AggregationRound },
    MarkSkipped { block_number: L1BatchNumber, round: AggregationRound },
    MarkFailed {
        block_number: L1BatchNumber,
        round: AggregationRound,
        time_taken: TimeOfDay,
        error: Seq<char>,
        attempts: i32,
        max_attempts: u32,
    },
    CreateJobs {
        block_number: L1BatchNumber,
        number_of_basic_circuits: usize,
        basic_circuits_blob_url: Seq<char>,
        basic_circuits_inputs_blob_url: Seq<char>,
        scheduler_witness_blob_url: Seq<char>,
    },
    SaveLeafArtifacts {
        block_number: L1BatchNumber,
        number_of_leaf_circuits: usize,
        leaf_layer_subqueues_blob_url: Seq<char>,
        aggregation_outputs_blob_url: Seq<char>,
    },
    SaveNodeArtifacts {
        block_number: L1BatchNumber,
        final_node_aggregations_blob_url: Seq<char>,
    },
    SaveResult { block_number: L1BatchNumber, aggregation_result_coords: [[u8; 32]; 4] },
    SaveInputs { block_number: L1BatchNumber, merkle_tree_paths_blob_url: Seq<char> },
    MarkCleaned { round: AggregationRound, l1_batch_numbers: Seq<i64> },
}

impl Operation {
    /// The steps of the operation.
    pub open spec fn steps(self) -> Seq<StepView> {
        match self {
            Operation::TakeJob { round, search } => seq![StepView::Run(search.statement(round))],
            Operation::MarkSuccessful { block_number, round, time_taken } => seq![
                StepView::Run(success_statement(block_number, round, time_taken)),
            ],
            Operation::MarkQueued { block_number, round } => seq![
                StepView::Run(status_statement(block_number, round, JobStatus::Queued)),
            ],
            Operation::MarkWaitingForProofs { block_number, round } => seq![
                StepView::Run(status_statement(block_number, round, JobStatus::WaitingForProofs)),
            ],
            Operation::MarkSkipped { block_number, round } => skip_steps(block_number, round),
            Operation::MarkFailed {
                block_number,
                round,
                time_taken,
                error,
                attempts,
                max_attempts,
            } => failure_steps(block_number, round, time_taken, error) + after_failure_steps(
                block_number,
                attempts,
                max_attempts,
            ),
            Operation::CreateJobs {
                block_number,
                number_of_basic_circuits,
                basic_circuits_blob_url,
                basic_circuits_inputs_blob_url,
                scheduler_witness_blob_url,
            } => create_steps(
                block_number,
                number_of_basic_circuits,
                basic_circuits_blob_url,
                basic_circuits_inputs_blob_url,
                scheduler_witness_blob_url,
            ),
            Operation::SaveLeafArtifacts {
                block_number,
                number_of_leaf_circuits,
                leaf_layer_subqueues_blob_url,
                aggregation_outputs_blob_url,
            } => seq![
                StepView::Run(
                    leaf_artifacts_statement(
                        block_number,
                        number_of_leaf_circuits,
                        leaf_layer_subqueues_blob_url,
                        aggregation_outputs_blob_url,
                    ),
                ),
            ],
            Operation::SaveNodeArtifacts { block_number, final_node_aggregations_blob_url } => seq![
                StepView::Run(
                    node_artifacts_statement(block_number, final_node_aggregations_blob_url),
                ),
            ],
            Operation::SaveResult { block_number, aggregation_result_coords } => seq![
                StepView::Run(final_result_statement(block_number, aggregation_result_coords)),
            ],
            Operation::SaveInputs { block_number, merkle_tree_paths_blob_url } => seq![
                StepView::Run(inputs_statement(block_number, merkle_tree_paths_blob_url)),
            ],
            Operation::MarkCleaned { round, l1_batch_numbers } => seq![
                StepView::Run(cleaned_statement(table_of(round), l1_batch_numbers)),
            ],
        }
    }
}

/// An operation of which `steps_taken` steps were taken at the time `now`, while others had the
/// rows with the keys in `locked` locked.
pub struct Event {
    pub operation: Operation,
    pub steps_taken: nat,
    pub locked: Set<int>,
    pub now: int,
}

impl Event {
    /// The database that the event leaves.
    pub open spec fn left(self, db: Database) -> Database {
        let steps = self.operation.steps();
        let n = if self.steps_taken < steps.len() {
            self.steps_taken as int
        } else {
            steps.len() as int
        };
        left_after(db, steps, n, self.locked, self.now)
    }
}

/// The database that the events leave, one after the other.
pub open spec fn after_events(db: Database, events: Seq<Event>) -> Database
    decreases events.len(),
{
    if events.len() == 0 {
        db
    } else {
        events.last().left(after_events(db, events.drop_last()))
    }
}

/// The statements of the operations are well-formed.
#[verifier::spinoff_prover]
#[verifier::rlimit(40)]
proof fn lemma_operation_is_well_formed(operation: Operation)
    ensures
        steps_well_formed(operation.steps()),
{
    match operation {
        Operation::SaveInputs { block_number, merkle_tree_paths_blob_url } => {
            let statement = inputs_statement(block_number, merkle_tree_paths_blob_url);
            assert(statement.query->values[3].column == Column::Status);
        },
        _ => {},
    }
}

/// Whether the database is well-formed and the job of the round for the batch holds the datum in
/// the column.
spec fn job_holds(
    db: Database,
    round: AggregationRound,
    batch: int,
    column: Column,
    value: Datum,
) -> bool {
    &&& db.well_formed()
    &&& db.has_job(round, batch)
    &&& cell(db.job(round, batch), column) == value
}

/// Whether the statement leaves the datum in the column where the job of the round for the batch
/// holds it.
spec fn leaves(
    statement: StatementView,
    round: AggregationRound,
    batch: int,
    column: Column,
    value: Datum,
) -> bool {
    match statement.query {
        QueryView::Update { table, set, filter, .. } => table == table_of(round) ==> leaves_row(
            set,
            filter,
            statement,
            batch,
            column,
            value,
        ),
        QueryView::UpdateFirst { table, set, filter } => table == table_of(round) ==> leaves_row(
            set,
            filter,
            statement,
            batch,
            column,
            value,
        ),
        _ => true,
    }
}

/// Whether the assignments leave the datum in the column of a row of the batch that meets the
/// filter.
spec fn leaves_row(
    set: Seq<Assignment>,
    filter: Seq<Condition>,
    statement: StatementView,
    batch: int,
    column: Column,
    value: Datum,
) -> bool {
    forall|row: Row, now: int| #[trigger]
        meets(row, filter, statement.args, now) && is_job(batch, row) && cell(row, column) == value
            ==> cell(assigned(row, set, statement.args, now), column) == value
}

/// Whether all statements among the steps leave the datum.
spec fn steps_leave(
    steps: Seq<StepView>,
    round: AggregationRound,
    batch: int,
    column: Column,
    value: Datum,
) -> bool {
    forall|i: int|
        0 <= i < steps.len() ==> ((#[trigger] steps[i]) matches StepView::Run(statement) ==> leaves(
            statement,
            round,
            batch,
            column,
            value,
        ))
}

/// The assignments of an update.
spec fn assignments(statement: StatementView) -> Seq<Assignment> {
    match statement.query {
        QueryView::Update { set, .. } => set,
        QueryView::UpdateFirst { set, .. } => set,
        _ => seq![],
    }
}

/// A statement that does not set the column leaves what it holds.
proof fn lemma_leaves_other_columns(
    statement: StatementView,
    round: AggregationRound,
    batch: int,
    column: Column,
    value: Datum,
)
    requires
        forall|j: int|
            0 <= j < assignments(statement).len() ==> (#[trigger] assignments(statement)[j]).column
                != column,
    ensures
        leaves(statement, round, batch, column, value),
{
    let set = assignments(statement);
    assert forall|row: Row, now: int| cell(row, column) == value implies cell(
        #[trigger] assigned(row, set, statement.args, now),
        column,
    ) == value by {
        lemma_not_assigned_to(row, set, statement.args, now, column);
    }
}

/// What running a statement that leaves the datum does.
proof fn lemma_run_leaves(
    db: Database,
    statement: StatementView,
    locked: Set<int>,
    now: int,
    round: AggregationRound,
    batch: int,
    column: Column,
    value: Datum,
)
    requires
        job_holds(db, round, batch, column, value),
        statement.well_formed(),
        leaves(statement, round, batch, column, value),
    ensures
        run(db, statement, locked, now) matches Some(after) ==> job_holds(
            after,
            round,
            batch,
            column,
            value,
        ),
{
    law_jobs_stay_jobs(db, statement, locked, now);
    match run(db, statement, locked, now) {
        Some(after) => {
            let name = table_of(round);
            let row = db.job(round, batch);
            assert(after.has_job(round, batch));
            assert(holds_jobs(db.table(name)));
            assert(is_job(batch, row));
            match statement.query {
                QueryView::UpdateFirst { table, set, filter } => {
                    let keys = found(db.table(table), filter, statement.args, now).difference(
                        locked,
                    );
                    if exists|key: int| is_least(key, keys) {
                        let key = least(keys)->Some_0;
                        assert(is_least(key, keys));
                        assert(keys.contains(key));
                        if table == name && key == batch {
                            assert(meets(row, filter, statement.args, now));
                        }
                    }
                },
                _ => {},
            }
        },
        None => {},
    }
}

/// What taking steps that leave the datum does.
proof fn lemma_session_leaves(
    db: Database,
    steps: Seq<StepView>,
    locked: Set<int>,
    now: int,
    round: AggregationRound,
    batch: int,
    column: Column,
    value: Datum,
)
    requires
        job_holds(db, round, batch, column, value),
        steps_well_formed(steps),
        steps_leave(steps, round, batch, column, value),
    ensures
        job_holds(session(db, steps, locked, now).seen, round, batch, column, value),
        job_holds(session(db, steps, locked, now).left(), round, batch, column, value),
    decreases steps.len(),
{
    if steps.len() > 0 {
        let rest = steps.drop_last();
        let last = steps[steps.len() - 1];
        assert forall|i: int| 0 <= i < rest.len() implies ((#[trigger] rest[i]) matches StepView::Run(
            statement,
        ) ==> statement.well_formed() && leaves(statement, round, batch, column, value)) by {
            assert(rest[i] == steps[i]);
        }
        lemma_session_leaves(db, rest, locked, now, round, batch, column, value);
        let before = session(db, rest, locked, now);
        match last {
            StepView::Run(statement) => {
                lemma_run_leaves(before.seen, statement, locked, now, round, batch, column, value);
            },
            StepView::SkipProof(block_number) => {
                lemma_skipped_proof(before.seen, block_number, round, batch);
            },
            _ => {},
        }
    }
}

/// Skipping a proof does not touch the jobs.
proof fn lemma_skipped_proof(
    db: Database,
    block_number: L1BatchNumber,
    round: AggregationRound,
    batch: int,
)
    requires
        db.well_formed(),
    ensures
        db.with_skipped_proof(block_number).well_formed(),
        db.with_skipped_proof(block_number).has_job(round, batch) == db.has_job(round, batch),
        db.with_skipped_proof(block_number).job(round, batch) == db.job(round, batch),
{
    let after = db.with_skipped_proof(block_number);
    assert(after.tables == db.tables);
    assert forall|name: TableName|
        name != TableName::ProverJobs implies holds_jobs(#[trigger] after.table(name)) by {
        assert(after.table(name) == db.table(name));
    }
}

/// What events whose operations leave the datum do.
proof fn lemma_events_leave(
    db: Database,
    events: Seq<Event>,
    round: AggregationRound,
    batch: int,
    column: Column,
    value: Datum,
)
    requires
        job_holds(db, round, batch, column, value),
        forall|i: int|
            0 <= i < events.len() ==> steps_leave(
                (#[trigger] events[i]).operation.steps(),
                round,
                batch,
                column,
                value,
            ),
    ensures
        job_holds(after_events(db, events), round, batch, column, value),
    decreases events.len(),
{
    if events.len() > 0 {
        let rest = events.drop_last();
        let event = events[events.len() - 1];
        assert forall|i: int| 0 <= i < rest.len() implies steps_leave(
            (#[trigger] rest[i]).operation.steps(),
            round,
            batch,
            column,
            value,
        ) by {
            assert(rest[i] == events[i]);
        }
        lemma_events_leave(db, rest, round, batch, column, value);
        let steps = event.operation.steps();
        let n = if event.steps_taken < steps.len() {
            event.steps_taken as int
        } else {
            steps.len() as int
        };
        lemma_operation_is_well_formed(event.operation);
        assert forall|i: int| 0 <= i < n implies ((#[trigger] steps.take(n)[i]) matches StepView::Run(
            statement,
        ) ==> statement.well_formed() && leaves(statement, round, batch, column, value)) by {
            assert(steps.take(n)[i] == steps[i]);
        }
        lemma_session_leaves(
            after_events(db, rest),
            steps.take(n),
            event.locked,
            event.now,
            round,
            batch,
            column,
            value,
        );
    }
}

/// Whatever operations run, and however far they come, the tables of witness jobs stay tables of
/// jobs, and no job ever goes away.
pub proof fn law_operations_keep_jobs(
    db: Database,
    events: Seq<Event>,
    round: AggregationRound,
    batch: int,
)
    requires
        db.well_formed(),
        db.has_job(round, batch),
    ensures
        after_events(db, events).well_formed(),
        after_events(db, events).has_job(round, batch),
{
    let column = Column::L1BatchNumber;
    let value = Datum::Int(batch);
    assert(holds_jobs(db.table(table_of(round))));
    assert(is_job(batch, db.job(round, batch)));
    assert forall|i: int| 0 <= i < events.len() implies steps_leave(
        (#[trigger] events[i]).operation.steps(),
        round,
        batch,
        column,
        value,
    ) by {
        let steps = events[i].operation.steps();
        lemma_operation_is_well_formed(events[i].operation);
        assert forall|j: int| 0 <= j < steps.len() implies ((#[trigger] steps[j]) matches StepView::Run(
            statement,
        ) ==> leaves(statement, round, batch, column, value)) by {
            match steps[j] {
                StepView::Run(statement) => {
                    assert(statement.well_formed());
                    lemma_leaves_other_columns(statement, round, batch, column, value);
                },
                _ => {},
            }
        }
    }
    lemma_events_leave(db, events, round, batch, column, value);
}

/// No operation takes the mark off blobs that are marked as cleaned.
proof fn lemma_operation_leaves_cleaned(operation: Operation, round: AggregationRound, batch: int)
    ensures
        steps_leave(
            operation.steps(),
            round,
            batch,
            Column::IsBlobCleaned,
            Datum::Bool(true),
        ),
{
    let column = Column::IsBlobCleaned;
    let value = Datum::Bool(true);
    let steps = operation.steps();
    assert forall|i: int| 0 <= i < steps.len() implies ((#[trigger] steps[i]) matches StepView::Run(
        statement,
    ) ==> leaves(statement, round, batch, column, value)) by {
        match steps[i] {
            StepView::Run(statement) => {
                if operation is MarkCleaned {
                    let set = assignments(statement);
                    assert forall|row: Row, now: int| cell(
                        #[trigger] assigned(row, set, statement.args, now),
                        column,
                    ) == value by {
                        lemma_assigned_to(row, set, statement.args, now, 0);
                    }
                } else {
                    lemma_leaves_other_columns(statement, round, batch, column, value);
                }
            },
            _ => {},
        }
    }
}

/// Blobs of a job that are marked as cleaned are never found again, whatever operations run after
/// that.
pub proof fn law_cleaned_blobs_are_never_found_again(
    db: Database,
    round: AggregationRound,
    l1_batch_numbers: Seq<i64>,
    locked: Set<int>,
    now: int,
    events: Seq<Event>,
    limit: u8,
    later: int,
    i: int,
)
    requires
        db.well_formed(),
        round != AggregationRound::BasicCircuits,
        0 <= i < l1_batch_numbers.len(),
        db.has_job(round, l1_batch_numbers[i] as int),
    ensures
        run(
            db,
            cleaned_statement(table_of(round), l1_batch_numbers),
            locked,
            now,
        ) matches Some(after) && !cleanable_batches(
            after_events(after, events),
            round,
            limit,
            later,
        ).contains(l1_batch_numbers[i] as int),
{
    let statement = cleaned_statement(table_of(round), l1_batch_numbers);
    let after = run(db, statement, locked, now)->Some_0;
    let batch = l1_batch_numbers[i] as int;
    law_given_blobs_are_marked_as_cleaned(db, round, l1_batch_numbers, locked, now);
    assert(statement.well_formed());
    law_jobs_stay_jobs(db, statement, locked, now);
    assert(after.has_job(round, batch));
    assert(cell(after.job(round, batch), Column::IsBlobCleaned) == Datum::Bool(true));
    assert forall|k: int| 0 <= k < events.len() implies steps_leave(
        (#[trigger] events[k]).operation.steps(),
        round,
        batch,
        Column::IsBlobCleaned,
        Datum::Bool(true),
    ) by {
        lemma_operation_leaves_cleaned(events[k].operation, round, batch);
    }
    lemma_events_leave(after, events, round, batch, Column::IsBlobCleaned, Datum::Bool(true));
    law_blobs_of_old_finished_jobs_are_found(
        after_events(after, events),
        round,
        limit,
        later,
        batch,
    );
}

/// No operation changes the number of basic circuits of a job.
proof fn lemma_operation_leaves_basic_circuit_count(
    operation: Operation,
    round: AggregationRound,
    batch: int,
    value: Datum,
)
    ensures
        steps_leave(operation.steps(), round, batch, Column::NumberOfBasicCircuits, value),
{
    let column = Column::NumberOfBasicCircuits;
    let steps = operation.steps();
    assert forall|i: int| 0 <= i < steps.len() implies ((#[trigger] steps[i]) matches StepView::Run(
        statement,
    ) ==> leaves(statement, round, batch, column, value)) by {
        match steps[i] {
            StepView::Run(statement) => {
                lemma_leaves_other_columns(statement, round, batch, column, value);
            },
            _ => {},
        }
    }
}

/// The number of basic circuits with which the jobs of a batch are created is, whatever operations
/// run after that, the number of proofs that the leaf aggregation job requires, and the number of
/// proofs with which it is handed over. This is about numbers that fit into the column.
pub proof fn law_created_circuit_count_stays_required(
    db: Database,
    block_number: L1BatchNumber,
    number_of_basic_circuits: usize,
    basic_circuits_blob_url: Seq<char>,
    basic_circuits_inputs_blob_url: Seq<char>,
    scheduler_witness_blob_url: Seq<char>,
    locked: Set<int>,
    now: int,
    events: Seq<Event>,
    reply: Seq<ReplyRow>,
    later: int,
)
    requires
        db.well_formed(),
        !db.has_job(AggregationRound::LeafAggregation, block_number.0 as int),
        !db.has_job(AggregationRound::NodeAggregation, block_number.0 as int),
        !db.has_job(AggregationRound::Scheduler, block_number.0 as int),
        number_of_basic_circuits <= i32::MAX,
        take_all(
            db,
            create_steps(
                block_number,
                number_of_basic_circuits,
                basic_circuits_blob_url,
                basic_circuits_inputs_blob_url,
                scheduler_witness_blob_url,
            ),
            locked,
            now,
        ) matches Some(after) ==> is_answer(
            reply,
            after_events(after, events),
            circuit_count_statement(
                block_number,
                AggregationRound::LeafAggregation,
                Column::NumberOfBasicCircuits,
            ),
            locked,
            later,
        ),
    ensures
        circuit_count_column(AggregationRound::LeafAggregation) == Some(
            Column::NumberOfBasicCircuits,
        ),
        reply.len() == 1,
        reply[0][Output::ColumnAsCount(Column::NumberOfBasicCircuits)] == Datum::Int(
            number_of_basic_circuits as int,
        ),
        required_count(AggregationRound::LeafAggregation, number_of_basic_circuits as i32)
            == number_of_basic_circuits,
        take_all(
            db,
            create_steps(
                block_number,
                number_of_basic_circuits,
                basic_circuits_blob_url,
                basic_circuits_inputs_blob_url,
                scheduler_witness_blob_url,
            ),
            locked,
            now,
        ) matches Some(after) && cell(
            after_events(after, events).job(
                AggregationRound::LeafAggregation,
                block_number.0 as int,
            ),
            Column::NumberOfBasicCircuits,
        ) == Datum::Int(number_of_basic_circuits as int),
        (ClaimedJob::LeafAggregation {
            block_number,
            number_of_basic_circuits: number_of_basic_circuits as i64,
        }).proof_count() == number_of_basic_circuits,
{
    let round = AggregationRound::LeafAggregation;
    let batch = block_number.0 as int;
    let column = Column::NumberOfBasicCircuits;
    let value = Datum::Int(number_of_basic_circuits as int);
    law_created_jobs_wait(
        db,
        block_number,
        number_of_basic_circuits,
        basic_circuits_blob_url,
        basic_circuits_inputs_blob_url,
        scheduler_witness_blob_url,
        locked,
        now,
    );
    let after = take_all(
        db,
        create_steps(
            block_number,
            number_of_basic_circuits,
            basic_circuits_blob_url,
            basic_circuits_inputs_blob_url,
            scheduler_witness_blob_url,
        ),
        locked,
        now,
    )->Some_0;
    assert(after.has_job(round, batch));
    assert forall|k: int| 0 <= k < events.len() implies steps_leave(
        (#[trigger] events[k]).operation.steps(),
        round,
        batch,
        column,
        value,
    ) by {
        lemma_operation_leaves_basic_circuit_count(events[k].operation, round, batch, value);
    }
    lemma_events_leave(after, events, round, batch, column, value);
    law_circuit_count_is_that_of_the_job(
        after_events(after, events),
        block_number,
        round,
        column,
        reply,
        locked,
        later,
    );
}

/// Whether the operation does not save another number of leaf circuits for the batch.
pub open spec fn saves_no_other_count(
    operation: Operation,
    block_number: L1BatchNumber,
    number_of_leaf_circuits: usize,
) -> bool {
    operation matches Operation::SaveLeafArtifacts {
        block_number: other,
        number_of_leaf_circuits: number,
        ..
    } ==> (other == block_number ==> number == number_of_leaf_circuits)
}

/// No other operation changes the number of leaf circuits of a job.
proof fn lemma_operation_leaves_leaf_circuit_count(
    operation: Operation,
    block_number: L1BatchNumber,
    number_of_leaf_circuits: usize,
)
    requires
        saves_no_other_count(operation, block_number, number_of_leaf_circuits),
    ensures
        steps_leave(
            operation.steps(),
            AggregationRound::NodeAggregation,
            block_number.0 as int,
            Column::NumberOfLeafCircuits,
            Datum::Int((number_of_leaf_circuits as i64) as int),
        ),
{
    let round = AggregationRound::NodeAggregation;
    let batch = block_number.0 as int;
    let column = Column::NumberOfLeafCircuits;
    let value = Datum::Int((number_of_leaf_circuits as i64) as int);
    let steps = operation.steps();
    assert forall|i: int| 0 <= i < steps.len() implies ((#[trigger] steps[i]) matches StepView::Run(
        statement,
    ) ==> leaves(statement, round, batch, column, value)) by {
        match steps[i] {
            StepView::Run(statement) => {
                if operation is SaveLeafArtifacts {
                    let set = statement.query->Update_set;
                    let filter = statement.query->Update_filter;
                    assert forall|row: Row, now: int| #[trigger]
                        meets(row, filter, statement.args, now) && is_job(batch, row) && cell(
                            row,
                            column,
                        ) == value implies cell(
                        assigned(row, set, statement.args, now),
                        column,
                    ) == value by {
                        assert(filter[0].holds(row, statement.args, now));
                        lemma_assigned_to(row, set, statement.args, now, 0);
                    }
                } else {
                    lemma_leaves_other_columns(statement, round, batch, column, value);
                }
            },
            _ => {},
        }
    }
}

/// The number of leaf circuits that is saved with the artifacts of the leaf aggregation is, whatever
/// operations run after that, the number of proofs that the node aggregation job requires, and the
/// number of proofs with which it is handed over, as long as no other number is saved for the
/// batch. This is about numbers that fit into the column.
pub proof fn law_saved_circuit_count_stays_required(
    db: Database,
    block_number: L1BatchNumber,
    number_of_leaf_circuits: usize,
    leaf_layer_subqueues_blob_url: Seq<char>,
    aggregation_outputs_blob_url: Seq<char>,
    locked: Set<int>,
    now: int,
    events: Seq<Event>,
    reply: Seq<ReplyRow>,
    later: int,
)
    requires
        db.well_formed(),
        db.has_job(AggregationRound::NodeAggregation, block_number.0 as int),
        !has_status(
            db.job(AggregationRound::NodeAggregation, block_number.0 as int),
            JobStatus::Queued,
        ),
        number_of_leaf_circuits <= i32::MAX,
        forall|k: int|
            0 <= k < events.len() ==> saves_no_other_count(
                (#[trigger] events[k]).operation,
                block_number,
                number_of_leaf_circuits,
            ),
        run(
            db,
            leaf_artifacts_statement(
                block_number,
                number_of_leaf_circuits,
                leaf_layer_subqueues_blob_url,
                aggregation_outputs_blob_url,
            ),
            locked,
            now,
        ) matches Some(after) ==> is_answer(
            reply,
            after_events(after, events),
            circuit_count_statement(
                block_number,
                AggregationRound::NodeAggregation,
                Column::NumberOfLeafCircuits,
            ),
            locked,
            later,
        ),
    ensures
        circuit_count_column(AggregationRound::NodeAggregation) == Some(
            Column::NumberOfLeafCircuits,
        ),
        reply.len() == 1,
        reply[0][Output::ColumnAsCount(Column::NumberOfLeafCircuits)] == Datum::Int(
            number_of_leaf_circuits as int,
        ),
        required_count(AggregationRound::NodeAggregation, number_of_leaf_circuits as i32)
            == number_of_leaf_circuits,
        run(
            db,
            leaf_artifacts_statement(
                block_number,
                number_of_leaf_circuits,
                leaf_layer_subqueues_blob_url,
                aggregation_outputs_blob_url,
            ),
            locked,
            now,
        ) matches Some(after) && cell(
            after_events(after, events).job(
                AggregationRound::NodeAggregation,
                block_number.0 as int,
            ),
            Column::NumberOfLeafCircuits,
        ) == Datum::Int(number_of_leaf_circuits as int),
        (ClaimedJob::NodeAggregation {
            block_number,
            number_of_leaf_circuits: number_of_leaf_circuits as i64,
        }).proof_count() == number_of_leaf_circuits,
{
    let round = AggregationRound::NodeAggregation;
    let batch = block_number.0 as int;
    let column = Column::NumberOfLeafCircuits;
    let value = Datum::Int(number_of_leaf_circuits as int);
    let statement = leaf_artifacts_statement(
        block_number,
        number_of_leaf_circuits,
        leaf_layer_subqueues_blob_url,
        aggregation_outputs_blob_url,
    );
    law_leaf_artifacts_do_not_unqueue_a_job(
        db,
        block_number,
        number_of_leaf_circuits,
        leaf_layer_subqueues_blob_url,
        aggregation_outputs_blob_url,
        locked,
        now,
    );
    let after = run(db, statement, locked, now)->Some_0;
    assert(statement.well_formed());
    law_jobs_stay_jobs(db, statement, locked, now);
    assert(after.has_job(round, batch));
    assert forall|k: int| 0 <= k < events.len() implies steps_leave(
        (#[trigger] events[k]).operation.steps(),
        round,
        batch,
        column,
        value,
    ) by {
        lemma_operation_leaves_leaf_circuit_count(
            events[k].operation,
            block_number,
            number_of_leaf_circuits,
        );
    }
    lemma_events_leave(after, events, round, batch, column, value);
    law_circuit_count_is_that_of_the_job(
        after_events(after, events),
        block_number,
        round,
        column,
        reply,
        locked,
        later,
    );
}

} // verus!
