//! How the jobs of a batch come into being and wait for one another.
use vstd::prelude::*;

use crate::laws::claiming::law_waiting_and_finished_jobs_are_not_taken;
use crate::laws::common::{
    law_statuses_are_distinct, lemma_assigned_frame, lemma_assigned_to, lemma_insert,
    lemma_three_steps, lemma_update_of_one_batch, same_but_for_new, Search,
};
use crate::laws::marking::{got_status, law_job_gets_its_status, law_queued_job_may_be_taken};
use crate::laws::tables::law_jobs_stay_jobs;
use crate::meaning::{
    assigned, cell, has_status, holds_jobs, meets, run, take_all, Database, Datum, Row,
};
use crate::query::{StatementView, StepView};
use crate::sql::{table_of, Assignment, Column, Condition, TableName};
use crate::statements::{
    batch_arg, create_steps, inputs_statement, leaf_artifacts_statement, leaf_job_statement,
    node_artifacts_statement, node_job_statement, scheduler_job_statement, status_statement,
};
use crate::types::{AggregationRound, JobStatus, L1BatchNumber};

verus! {

/// Whether the row is that of the job of the round as it is created at the time `now`.
pub open spec fn is_created_job(
    row: Row,
    round: AggregationRound,
    number_of_basic_circuits: usize,
    basic_circuits_blob_url: Seq<char>,
    basic_circuits_inputs_blob_url: Seq<char>,
    scheduler_witness_blob_url: Seq<char>,
    now: int,
) -> bool {
    &&& cell(row, Column::CreatedAt) == Datum::Time(now)
    &&& cell(row, Column::UpdatedAt) == Datum::Time(now)
    &&& match round {
        AggregationRound::BasicCircuits => false,
        AggregationRound::LeafAggregation => {
            &&& has_status(row, JobStatus::WaitingForProofs)
            &&& cell(row, Column::NumberOfBasicCircuits) == Datum::Int(
                (number_of_basic_circuits as i64) as int,
            )
            &&& cell(row, Column::BasicCircuits) == Datum::Bytes(seq![])
            &&& cell(row, Column::BasicCircuitsInputs) == Datum::Bytes(seq![])
            &&& cell(row, Column::BasicCircuitsBlobUrl) == Datum::Text(basic_circuits_blob_url)
            &&& cell(row, Column::BasicCircuitsInputsBlobUrl) == Datum::Text(
                basic_circuits_inputs_blob_url,
            )
        },
        AggregationRound::NodeAggregation => has_status(row, JobStatus::WaitingForArtifacts),
        AggregationRound::Scheduler => {
            &&& has_status(row, JobStatus::WaitingForArtifacts)
            &&& cell(row, Column::SchedulerWitness) == Datum::Bytes(seq![])
            &&& cell(row, Column::SchedulerWitnessBlobUrl) == Datum::Text(
                scheduler_witness_blob_url,
            )
        },
    }
}

/// The rows that the three statements insert are those of the jobs as they are created.
pub(crate) proof fn lemma_created_rows(
    db: Database,
    block_number: L1BatchNumber,
    number_of_basic_circuits: usize,
    basic_circuits_blob_url: Seq<char>,
    basic_circuits_inputs_blob_url: Seq<char>,
    scheduler_witness_blob_url: Seq<char>,
    round: AggregationRound,
    now: int,
)
    requires
        round != AggregationRound::BasicCircuits,
    ensures
        ({
            let statement = match round {
                AggregationRound::LeafAggregation => leaf_job_statement(
                    block_number,
                    number_of_basic_circuits,
                    basic_circuits_blob_url,
                    basic_circuits_inputs_blob_url,
                ),
                AggregationRound::NodeAggregation => node_job_statement(block_number),
                _ => scheduler_job_statement(block_number, scheduler_witness_blob_url),
            };
            is_created_job(
                assigned(
                    db.defaults[table_of(round)],
                    statement.query->values,
                    statement.args,
                    now,
                ),
                round,
                number_of_basic_circuits,
                basic_circuits_blob_url,
                basic_circuits_inputs_blob_url,
                scheduler_witness_blob_url,
                now,
            )
        }),
{
    let defaults = db.defaults[table_of(round)];
    match round {
        AggregationRound::LeafAggregation => {
            let statement = leaf_job_statement(
                block_number,
                number_of_basic_circuits,
                basic_circuits_blob_url,
                basic_circuits_inputs_blob_url,
            );
            let values = statement.query->values;
            lemma_assigned_to(defaults, values, statement.args, now, 1);
            lemma_assigned_to(defaults, values, statement.args, now, 2);
            lemma_assigned_to(defaults, values, statement.args, now, 3);
            lemma_assigned_to(defaults, values, statement.args, now, 4);
            lemma_assigned_to(defaults, values, statement.args, now, 5);
            lemma_assigned_to(defaults, values, statement.args, now, 6);
            lemma_assigned_to(defaults, values, statement.args, now, 7);
            lemma_assigned_to(defaults, values, statement.args, now, 8);
        },
        AggregationRound::NodeAggregation => {
            let statement = node_job_statement(block_number);
            let values = statement.query->values;
            lemma_assigned_to(defaults, values, statement.args, now, 1);
            lemma_assigned_to(defaults, values, statement.args, now, 2);
            lemma_assigned_to(defaults, values, statement.args, now, 3);
        },
        _ => {
            let statement = scheduler_job_statement(block_number, scheduler_witness_blob_url);
            let values = statement.query->values;
            lemma_assigned_to(defaults, values, statement.args, now, 1);
            lemma_assigned_to(defaults, values, statement.args, now, 2);
            lemma_assigned_to(defaults, values, statement.args, now, 3);
            lemma_assigned_to(defaults, values, statement.args, now, 4);
            lemma_assigned_to(defaults, values, statement.args, now, 5);
        },
    }
}

/// Creating the aggregation jobs of a batch that has none adds a leaf aggregation job that waits
/// for proofs, with the number of basic circuits and the addresses of its blobs, and a node
/// aggregation job and a scheduler job that wait for artifacts, each created and last changed at
/// that time. Nothing else changes.
pub proof fn law_created_jobs_wait(
    db: Database,
    block_number: L1BatchNumber,
    number_of_basic_circuits: usize,
    basic_circuits_blob_url: Seq<char>,
    basic_circuits_inputs_blob_url: Seq<char>,
    scheduler_witness_blob_url: Seq<char>,
    locked: Set<int>,
    now: int,
)
    requires
        db.well_formed(),
        !db.has_job(AggregationRound::LeafAggregation, block_number.0 as int),
        !db.has_job(AggregationRound::NodeAggregation, block_number.0 as int),
        !db.has_job(AggregationRound::Scheduler, block_number.0 as int),
    ensures
        take_all(
            db,
            create_steps(
                block_number,
                number_of_basic_circuits,
                basic_circuits_blob_url,
                basic_circuits_inputs_blob_url,
                scheduler_witness_blob_url,
            ),
            locked,
            now,
        ) matches Some(after) && {
            let batch = block_number.0 as int;
            &&& after.well_formed()
            &&& forall|round: AggregationRound|
                round != AggregationRound::BasicCircuits ==> #[trigger] after.has_job(round, batch)
                    && is_created_job(
                    after.job(round, batch),
                    round,
                    number_of_basic_circuits,
                    basic_circuits_blob_url,
                    basic_circuits_inputs_blob_url,
                    scheduler_witness_blob_url,
                    now,
                )
            &&& after.skipped_proofs == db.skipped_proofs
            &&& after.table(TableName::WitnessInputs) == db.table(TableName::WitnessInputs)
            &&& after.table(TableName::ProverJobs) == db.table(TableName::ProverJobs)
            &&& forall|round: AggregationRound, other: int|
                other != batch ==> (#[trigger] after.has_job(round, other) <==> db.has_job(
                    round,
                    other,
                ))
            &&& forall|round: AggregationRound, other: int|
                other != batch && db.has_job(round, other) ==> #[trigger] after.job(round, other)
                    == db.job(round, other)
        },
{
    let batch = block_number.0 as int;
    let first = leaf_job_statement(
        block_number,
        number_of_basic_circuits,
        basic_circuits_blob_url,
        basic_circuits_inputs_blob_url,
    );
    let second = node_job_statement(block_number);
    let third = scheduler_job_statement(block_number, scheduler_witness_blob_url);
    lemma_insert(db, AggregationRound::LeafAggregation, first, block_number, locked, now);
    let with_leaf = run(db, first, locked, now)->Some_0;
    assert(with_leaf.table(TableName::NodeAggregationWitnessJobs) == db.table(
        TableName::NodeAggregationWitnessJobs,
    ));
    assert(with_leaf.table(TableName::SchedulerWitnessJobs) == db.table(
        TableName::SchedulerWitnessJobs,
    ));
    lemma_insert(with_leaf, AggregationRound::NodeAggregation, second, block_number, locked, now);
    let with_node = run(with_leaf, second, locked, now)->Some_0;
    assert(with_node.table(TableName::SchedulerWitnessJobs) == db.table(
        TableName::SchedulerWitnessJobs,
    ));
    assert(with_node.table(TableName::LeafAggregationWitnessJobs) == with_leaf.table(
        TableName::LeafAggregationWitnessJobs,
    ));
    lemma_insert(with_node, AggregationRound::Scheduler, third, block_number, locked, now);
    let after = run(with_node, third, locked, now)->Some_0;
    lemma_three_steps(db, first, second, third, locked, now);
    assert(create_steps(
        block_number,
        number_of_basic_circuits,
        basic_circuits_blob_url,
        basic_circuits_inputs_blob_url,
        scheduler_witness_blob_url,
    ) =~= seq![StepView::Run(first), StepView::Run(second), StepView::Run(third)]);
    assert(after.table(TableName::LeafAggregationWitnessJobs) == with_leaf.table(
        TableName::LeafAggregationWitnessJobs,
    ));
    assert(after.table(TableName::NodeAggregationWitnessJobs) == with_node.table(
        TableName::NodeAggregationWitnessJobs,
    ));
    assert forall|round: AggregationRound|
        round != AggregationRound::BasicCircuits implies #[trigger] after.has_job(round, batch)
        && is_created_job(
        after.job(round, batch),
        round,
        number_of_basic_circuits,
        basic_circuits_blob_url,
        basic_circuits_inputs_blob_url,
        scheduler_witness_blob_url,
        now,
    ) by {
        lemma_created_rows(
            db,
            block_number,
            number_of_basic_circuits,
            basic_circuits_blob_url,
            basic_circuits_inputs_blob_url,
            scheduler_witness_blob_url,
            round,
            now,
        );
    }
    assert(with_node.table(TableName::WitnessInputs) == with_leaf.table(TableName::WitnessInputs));
    assert(with_node.table(TableName::ProverJobs) == with_leaf.table(TableName::ProverJobs));
    assert forall|round: AggregationRound, other: int| other != batch implies (
    #[trigger] after.has_job(round, other) <==> db.has_job(round, other)) by {
        assert(after.table(TableName::WitnessInputs) == db.table(TableName::WitnessInputs));
    }
    assert forall|round: AggregationRound, other: int|
        other != batch && db.has_job(round, other) implies #[trigger] after.job(round, other)
        == db.job(round, other) by {
        assert(after.table(TableName::WitnessInputs) == db.table(TableName::WitnessInputs));
        assert(with_leaf.job(round, other) == db.job(round, other));
        assert(with_node.job(round, other) == with_leaf.job(round, other));
    }
}

/// The aggregation jobs of a batch are not created twice: where one of them is there already, the
/// database refuses. What was added before that stays, as
/// [`crate::laws::transactions::law_creation_keeps_the_jobs_that_it_added`] says.
pub proof fn law_jobs_are_not_created_twice(
    db: Database,
    block_number: L1BatchNumber,
    number_of_basic_circuits: usize,
    basic_circuits_blob_url: Seq<char>,
    basic_circuits_inputs_blob_url: Seq<char>,
    scheduler_witness_blob_url: Seq<char>,
    locked: Set<int>,
    now: int,
)
    requires
        db.well_formed(),
        db.has_job(AggregationRound::LeafAggregation, block_number.0 as int) || db.has_job(
            AggregationRound::NodeAggregation,
            block_number.0 as int,
        ) || db.has_job(AggregationRound::Scheduler, block_number.0 as int),
    ensures
        take_all(
            db,
            create_steps(
                block_number,
                number_of_basic_circuits,
                basic_circuits_blob_url,
                basic_circuits_inputs_blob_url,
                scheduler_witness_blob_url,
            ),
            locked,
            now,
        ) is None,
{
    let first = leaf_job_statement(
        block_number,
        number_of_basic_circuits,
        basic_circuits_blob_url,
        basic_circuits_inputs_blob_url,
    );
    let second = node_job_statement(block_number);
    let third = scheduler_job_statement(block_number, scheduler_witness_blob_url);
    lemma_three_steps(db, first, second, third, locked, now);
    assert(create_steps(
        block_number,
        number_of_basic_circuits,
        basic_circuits_blob_url,
        basic_circuits_inputs_blob_url,
        scheduler_witness_blob_url,
    ) =~= seq![StepView::Run(first), StepView::Run(second), StepView::Run(third)]);
    lemma_insert(db, AggregationRound::LeafAggregation, first, block_number, locked, now);
    match run(db, first, locked, now) {
        Some(with_leaf) => {
            assert(with_leaf.table(TableName::NodeAggregationWitnessJobs) == db.table(
                TableName::NodeAggregationWitnessJobs,
            ));
            assert(with_leaf.table(TableName::SchedulerWitnessJobs) == db.table(
                TableName::SchedulerWitnessJobs,
            ));
            lemma_insert(
                with_leaf,
                AggregationRound::NodeAggregation,
                second,
                block_number,
                locked,
                now,
            );
            match run(with_leaf, second, locked, now) {
                Some(with_node) => {
                    assert(with_node.table(TableName::SchedulerWitnessJobs) == db.table(
                        TableName::SchedulerWitnessJobs,
                    ));
                    lemma_insert(
                        with_node,
                        AggregationRound::Scheduler,
                        third,
                        block_number,
                        locked,
                        now,
                    );
                },
                None => {},
            }
        },
        None => {},
    }
}

/// Saving the witness inputs of a batch that has no job of the first round adds one, which is
/// queued; nothing else changes. Where the batch has such a job, nothing changes at all.
pub proof fn law_saved_inputs_are_queued_once(
    db: Database,
    block_number: L1BatchNumber,
    merkle_tree_paths_blob_url: Seq<char>,
    locked: Set<int>,
    now: int,
)
    requires
        db.well_formed(),
    ensures
        run(
            db,
            inputs_statement(block_number, merkle_tree_paths_blob_url),
            locked,
            now,
        ) matches Some(after) && {
            let batch = block_number.0 as int;
            let row = after.job(AggregationRound::BasicCircuits, batch);
            if db.has_job(AggregationRound::BasicCircuits, batch) {
                after == db
            } else {
                &&& after.well_formed()
                &&& same_but_for_new(db, after, AggregationRound::BasicCircuits, batch)
                &&& has_status(row, JobStatus::Queued)
                &&& cell(row, Column::MerkleTreePathsBlobUrl) == Datum::Text(
                    merkle_tree_paths_blob_url,
                )
                &&& cell(row, Column::CreatedAt) == Datum::Time(now)
                &&& cell(row, Column::UpdatedAt) == Datum::Time(now)
            }
        },
{
    let statement = inputs_statement(block_number, merkle_tree_paths_blob_url);
    lemma_insert(db, AggregationRound::BasicCircuits, statement, block_number, locked, now);
    let defaults = db.defaults[TableName::WitnessInputs];
    lemma_assigned_to(defaults, statement.query->values, statement.args, now, 2);
    lemma_assigned_to(defaults, statement.query->values, statement.args, now, 3);
    lemma_assigned_to(defaults, statement.query->values, statement.args, now, 4);
    lemma_assigned_to(defaults, statement.query->values, statement.args, now, 5);
}

/// Saving the witness inputs of a batch again, whatever they are then, changes nothing.
pub proof fn law_saving_inputs_again_changes_nothing(
    db: Database,
    block_number: L1BatchNumber,
    merkle_tree_paths_blob_url: Seq<char>,
    locked: Set<int>,
    now: int,
    other_blob_url: Seq<char>,
    later: int,
)
    requires
        db.well_formed(),
    ensures
        run(
            db,
            inputs_statement(block_number, merkle_tree_paths_blob_url),
            locked,
            now,
        ) matches Some(after) && run(
            after,
            inputs_statement(block_number, other_blob_url),
            locked,
            later,
        ) == Some(after),
{
    law_saved_inputs_are_queued_once(db, block_number, merkle_tree_paths_blob_url, locked, now);
    let after = run(
        db,
        inputs_statement(block_number, merkle_tree_paths_blob_url),
        locked,
        now,
    )->Some_0;
    assert(after.has_job(AggregationRound::BasicCircuits, block_number.0 as int));
    law_saved_inputs_are_queued_once(after, block_number, other_blob_url, locked, later);
}

/// A row meets the conditions on the batch number and the status if and only if it is that of
/// the batch and has another status.
proof fn lemma_not_queued_filter(
    db: Database,
    round: AggregationRound,
    statement: StatementView,
    k: u8,
    block_number: L1BatchNumber,
    key: int,
    now: int,
)
    requires
        db.well_formed(),
        statement.query is Update,
        statement.query->Update_filter == seq![
            Condition::BatchIs(k),
            Condition::StatusIsNot(JobStatus::Queued),
        ],
        1 <= k <= statement.args.len(),
        statement.args[k - 1] == batch_arg(block_number),
        db.has_job(round, key),
    ensures
        meets(db.job(round, key), statement.query->Update_filter, statement.args, now) <==> key
            == block_number.0 && !has_status(db.job(round, key), JobStatus::Queued),
{
    let filter = statement.query->Update_filter;
    let row = db.job(round, key);
    assert(holds_jobs(db.table(table_of(round))));
    assert(filter[0] == Condition::BatchIs(k));
    assert(filter[1] == Condition::StatusIsNot(JobStatus::Queued));
    assert(meets(row, filter, statement.args, now) <==> filter[0].holds(row, statement.args, now)
        && filter[1].holds(row, statement.args, now));
}

/// Saving the artifacts of the leaf aggregation stores them in the node aggregation job and has it
/// wait for proofs. A job that is queued already stays as it is.
pub proof fn law_leaf_artifacts_do_not_unqueue_a_job(
    db: Database,
    block_number: L1BatchNumber,
    number_of_leaf_circuits: usize,
    leaf_layer_subqueues_blob_url: Seq<char>,
    aggregation_outputs_blob_url: Seq<char>,
    locked: Set<int>,
    now: int,
)
    requires
        db.well_formed(),
    ensures
        run(
            db,
            leaf_artifacts_statement(
                block_number,
                number_of_leaf_circuits,
                leaf_layer_subqueues_blob_url,
                aggregation_outputs_blob_url,
            ),
            locked,
            now,
        ) matches Some(after) && {
            let batch = block_number.0 as int;
            let round = AggregationRound::NodeAggregation;
            let row = after.job(round, batch);
            if db.has_job(round, batch) && !has_status(db.job(round, batch), JobStatus::Queued) {
                &&& got_status(
                    db,
                    after,
                    round,
                    block_number,
                    JobStatus::WaitingForProofs,
                    seq![
                        Column::NumberOfLeafCircuits,
                        Column::LeafLayerSubqueuesBlobUrl,
                        Column::AggregationOutputsBlobUrl,
                    ],
                    now,
                )
                &&& cell(row, Column::NumberOfLeafCircuits) == Datum::Int(
                    (number_of_leaf_circuits as i64) as int,
                )
                &&& cell(row, Column::LeafLayerSubqueuesBlobUrl) == Datum::Text(
                    leaf_layer_subqueues_blob_url,
                )
                &&& cell(row, Column::AggregationOutputsBlobUrl) == Datum::Text(
                    aggregation_outputs_blob_url,
                )
            } else {
                after == db
            }
        },
{
    let round = AggregationRound::NodeAggregation;
    let batch = block_number.0 as int;
    let statement = leaf_artifacts_statement(
        block_number,
        number_of_leaf_circuits,
        leaf_layer_subqueues_blob_url,
        aggregation_outputs_blob_url,
    );
    let set = statement.query->Update_set;
    assert forall|key: int| #[trigger] db.has_job(round, key) implies (meets(
        db.job(round, key),
        statement.query->Update_filter,
        statement.args,
        now,
    ) <==> key == batch && !has_status(db.job(round, key), JobStatus::Queued)) by {
        lemma_not_queued_filter(db, round, statement, 2, block_number, key, now);
    }
    lemma_update_of_one_batch(db, round, statement, batch, locked, now);
    if db.has_job(round, batch) {
        let row = db.job(round, batch);
        lemma_assigned_to(row, set, statement.args, now, 0);
        lemma_assigned_to(row, set, statement.args, now, 1);
        lemma_assigned_to(row, set, statement.args, now, 2);
        lemma_assigned_to(row, set, statement.args, now, 3);
        lemma_assigned_to(row, set, statement.args, now, 4);
        let columns = seq![
            Column::NumberOfLeafCircuits,
            Column::LeafLayerSubqueuesBlobUrl,
            Column::AggregationOutputsBlobUrl,
            Column::Status,
            Column::UpdatedAt,
        ];
        assert(columns =~= set.map_values(|assignment: Assignment| assignment.column));
        lemma_assigned_frame(row, set, statement.args, now, columns);
        let listed = seq![Column::Status, Column::UpdatedAt] + seq![
            Column::NumberOfLeafCircuits,
            Column::LeafLayerSubqueuesBlobUrl,
            Column::AggregationOutputsBlobUrl,
        ];
        lemma_same_columns_5(columns, listed);
    }
}

/// The two lists hold the same columns.
proof fn lemma_same_columns_5(columns: Seq<Column>, listed: Seq<Column>)
    requires
        columns.len() == 5,
        listed.len() == 5,
        listed[0] == columns[3],
        listed[1] == columns[4],
        listed[2] == columns[0],
        listed[3] == columns[1],
        listed[4] == columns[2],
    ensures
        forall|column: Column| !listed.contains(column) ==> !#[trigger] columns.contains(column),
{
    assert forall|column: Column| #[trigger] columns.contains(column) implies listed.contains(
        column,
    ) by {
        let i = choose|i: int| 0 <= i < columns.len() && columns[i] == column;
        if i >= 3 {
            assert(listed[i - 3] == column);
        } else {
            assert(listed[i + 2] == column);
        }
    }
}

/// Saving the artifacts of the node aggregation stores them in the scheduler job and has it wait
/// for proofs. A job that is queued already stays as it is.
pub proof fn law_node_artifacts_do_not_unqueue_a_job(
    db: Database,
    block_number: L1BatchNumber,
    final_node_aggregations_blob_url: Seq<char>,
    locked: Set<int>,
    now: int,
)
    requires
        db.well_formed(),
    ensures
        run(
            db,
            node_artifacts_statement(block_number, final_node_aggregations_blob_url),
            locked,
            now,
        ) matches Some(after) && {
            let batch = block_number.0 as int;
            let round = AggregationRound::Scheduler;
            if db.has_job(round, batch) && !has_status(db.job(round, batch), JobStatus::Queued) {
                &&& got_status(
                    db,
                    after,
                    round,
                    block_number,
                    JobStatus::WaitingForProofs,
                    seq![Column::FinalNodeAggregationsBlobUrl],
                    now,
                )
                &&& cell(after.job(round, batch), Column::FinalNodeAggregationsBlobUrl)
                    == Datum::Text(final_node_aggregations_blob_url)
            } else {
                after == db
            }
        },
{
    let round = AggregationRound::Scheduler;
    let batch = block_number.0 as int;
    let statement = node_artifacts_statement(block_number, final_node_aggregations_blob_url);
    let set = statement.query->Update_set;
    assert forall|key: int| #[trigger] db.has_job(round, key) implies (meets(
        db.job(round, key),
        statement.query->Update_filter,
        statement.args,
        now,
    ) <==> key == batch && !has_status(db.job(round, key), JobStatus::Queued)) by {
        lemma_not_queued_filter(db, round, statement, 1, block_number, key, now);
    }
    lemma_update_of_one_batch(db, round, statement, batch, locked, now);
    if db.has_job(round, batch) {
        let row = db.job(round, batch);
        lemma_assigned_to(row, set, statement.args, now, 0);
        lemma_assigned_to(row, set, statement.args, now, 1);
        lemma_assigned_to(row, set, statement.args, now, 2);
        let columns = seq![
            Column::FinalNodeAggregationsBlobUrl,
            Column::Status,
            Column::UpdatedAt,
        ];
        assert(columns =~= set.map_values(|assignment: Assignment| assignment.column));
        lemma_assigned_frame(row, set, statement.args, now, columns);
        let listed = seq![Column::Status, Column::UpdatedAt] + seq![
            Column::FinalNodeAggregationsBlobUrl,
        ];
        assert forall|column: Column| #[trigger] columns.contains(column) implies listed.contains(
            column,
        ) by {
            let i = choose|i: int| 0 <= i < columns.len() && columns[i] == column;
            if i >= 1 {
                assert(listed[i - 1] == column);
            } else {
                assert(listed[2] == column);
            }
        }
    }
}

/// No worker may take any of the aggregation jobs that were just created.
pub proof fn law_created_jobs_are_not_taken(
    db: Database,
    block_number: L1BatchNumber,
    number_of_basic_circuits: usize,
    basic_circuits_blob_url: Seq<char>,
    basic_circuits_inputs_blob_url: Seq<char>,
    scheduler_witness_blob_url: Seq<char>,
    locked: Set<int>,
    now: int,
    round: AggregationRound,
    search: Search,
    later: int,
)
    requires
        db.well_formed(),
        !db.has_job(AggregationRound::LeafAggregation, block_number.0 as int),
        !db.has_job(AggregationRound::NodeAggregation, block_number.0 as int),
        !db.has_job(AggregationRound::Scheduler, block_number.0 as int),
        round != AggregationRound::BasicCircuits,
    ensures
        take_all(
            db,
            create_steps(
                block_number,
                number_of_basic_circuits,
                basic_circuits_blob_url,
                basic_circuits_inputs_blob_url,
                scheduler_witness_blob_url,
            ),
            locked,
            now,
        ) matches Some(after) && !search.allows(after, round, block_number.0 as int, later),
{
    law_created_jobs_wait(
        db,
        block_number,
        number_of_basic_circuits,
        basic_circuits_blob_url,
        basic_circuits_inputs_blob_url,
        scheduler_witness_blob_url,
        locked,
        now,
    );
    let after = take_all(
        db,
        create_steps(
            block_number,
            number_of_basic_circuits,
            basic_circuits_blob_url,
            basic_circuits_inputs_blob_url,
            scheduler_witness_blob_url,
        ),
        locked,
        now,
    )->Some_0;
    assert(after.has_job(round, block_number.0 as int));
    let status = if round == AggregationRound::LeafAggregation {
        JobStatus::WaitingForProofs
    } else {
        JobStatus::WaitingForArtifacts
    };
    law_waiting_and_finished_jobs_are_not_taken(
        after,
        round,
        block_number.0 as int,
        status,
        search,
        later,
    );
}

/// A node aggregation job that waits for artifacts gets them and waits for proofs, while no worker
/// may take it; once it is queued, a worker may take it, and finds the number of leaf circuits.
pub proof fn law_node_job_is_taken_after_artifacts_and_proofs(
    db: Database,
    block_number: L1BatchNumber,
    number_of_leaf_circuits: usize,
    leaf_layer_subqueues_blob_url: Seq<char>,
    aggregation_outputs_blob_url: Seq<char>,
    locked: Set<int>,
    saved_at: int,
    queued_at: int,
    search: Search,
    now: int,
)
    requires
        db.well_formed(),
        db.has_job(AggregationRound::NodeAggregation, block_number.0 as int),
        has_status(
            db.job(AggregationRound::NodeAggregation, block_number.0 as int),
            JobStatus::WaitingForArtifacts,
        ),
        block_number.0 <= search.last_l1_batch_to_process,
    ensures
        ({
            let round = AggregationRound::NodeAggregation;
            let batch = block_number.0 as int;
            let save = leaf_artifacts_statement(
                block_number,
                number_of_leaf_circuits,
                leaf_layer_subqueues_blob_url,
                aggregation_outputs_blob_url,
            );
            let queue = status_statement(block_number, round, JobStatus::Queued);
            &&& !search.allows(db, round, batch, now)
            &&& run(db, save, locked, saved_at) matches Some(saved)
            &&& has_status(saved.job(round, batch), JobStatus::WaitingForProofs)
            &&& !search.allows(saved, round, batch, now)
            &&& run(saved, queue, locked, queued_at) matches Some(queued)
            &&& search.allows(queued, round, batch, now)
            &&& cell(queued.job(round, batch), Column::NumberOfLeafCircuits) == Datum::Int(
                (number_of_leaf_circuits as i64) as int,
            )
        }),
{
    let round = AggregationRound::NodeAggregation;
    let batch = block_number.0 as int;
    let save = leaf_artifacts_statement(
        block_number,
        number_of_leaf_circuits,
        leaf_layer_subqueues_blob_url,
        aggregation_outputs_blob_url,
    );
    law_statuses_are_distinct(JobStatus::WaitingForArtifacts, JobStatus::Queued);
    law_waiting_and_finished_jobs_are_not_taken(
        db,
        round,
        batch,
        JobStatus::WaitingForArtifacts,
        search,
        now,
    );
    law_leaf_artifacts_do_not_unqueue_a_job(
        db,
        block_number,
        number_of_leaf_circuits,
        leaf_layer_subqueues_blob_url,
        aggregation_outputs_blob_url,
        locked,
        saved_at,
    );
    let saved = run(db, save, locked, saved_at)->Some_0;
    law_waiting_and_finished_jobs_are_not_taken(
        saved,
        round,
        batch,
        JobStatus::WaitingForProofs,
        search,
        now,
    );
    assert(save.well_formed());
    law_jobs_stay_jobs(db, save, locked, saved_at);
    law_queued_job_may_be_taken(saved, block_number, round, locked, queued_at, search, now);
    law_job_gets_its_status(saved, block_number, round, JobStatus::Queued, locked, queued_at);
    assert(saved.has_job(round, batch));
    assert(!(seq![Column::Status, Column::UpdatedAt] + seq![]).contains(Column::NumberOfLeafCircuits));
}

/// A scheduler job that waits for artifacts gets them and waits for proofs, while no worker may
/// take it; once it is queued, a worker may take it, and finds the address of the artifacts.
pub proof fn law_scheduler_job_is_taken_after_artifacts_and_proofs(
    db: Database,
    block_number: L1BatchNumber,
    final_node_aggregations_blob_url: Seq<char>,
    locked: Set<int>,
    saved_at: int,
    queued_at: int,
    search: Search,
    now: int,
)
    requires
        db.well_formed(),
        db.has_job(AggregationRound::Scheduler, block_number.0 as int),
        has_status(
            db.job(AggregationRound::Scheduler, block_number.0 as int),
            JobStatus::WaitingForArtifacts,
        ),
        block_number.0 <= search.last_l1_batch_to_process,
    ensures
        ({
            let round = AggregationRound::Scheduler;
            let batch = block_number.0 as int;
            let save = node_artifacts_statement(block_number, final_node_aggregations_blob_url);
            let queue = status_statement(block_number, round, JobStatus::Queued);
            &&& !search.allows(db, round, batch, now)
            &&& run(db, save, locked, saved_at) matches Some(saved)
            &&& has_status(saved.job(round, batch), JobStatus::WaitingForProofs)
            &&& !search.allows(saved, round, batch, now)
            &&& run(saved, queue, locked, queued_at) matches Some(queued)
            &&& search.allows(queued, round, batch, now)
            &&& cell(queued.job(round, batch), Column::FinalNodeAggregationsBlobUrl) == Datum::Text(
                final_node_aggregations_blob_url,
            )
        }),
{
    let round = AggregationRound::Scheduler;
    let batch = block_number.0 as int;
    let save = node_artifacts_statement(block_number, final_node_aggregations_blob_url);
    law_statuses_are_distinct(JobStatus::WaitingForArtifacts, JobStatus::Queued);
    law_waiting_and_finished_jobs_are_not_taken(
        db,
        round,
        batch,
        JobStatus::WaitingForArtifacts,
        search,
        now,
    );
    law_node_artifacts_do_not_unqueue_a_job(
        db,
        block_number,
        final_node_aggregations_blob_url,
        locked,
        saved_at,
    );
    let saved = run(db, save, locked, saved_at)->Some_0;
    law_waiting_and_finished_jobs_are_not_taken(
        saved,
        round,
        batch,
        JobStatus::WaitingForProofs,
        search,
        now,
    );
    assert(save.well_formed());
    law_jobs_stay_jobs(db, save, locked, saved_at);
    law_queued_job_may_be_taken(saved, block_number, round, locked, queued_at, search, now);
    law_job_gets_its_status(saved, block_number, round, JobStatus::Queued, locked, queued_at);
    assert(saved.has_job(round, batch));
    assert(!(seq![Column::Status, Column::UpdatedAt] + seq![]).contains(Column::FinalNodeAggregationsBlobUrl));
}

} // verus!
