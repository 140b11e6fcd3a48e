//! What the operations that only read find.
use vstd::prelude::*;

use crate::coords::coords_bytes;
use crate::laws::claiming::law_worker_gets_the_first_available_job;
use crate::laws::common::{
    law_statuses_are_distinct, lemma_assigned_frame, lemma_assigned_to, lemma_batch_filter,
    lemma_update_of_one_batch, same_but_for, same_row_but_for, Search,
};
use crate::laws::marking::law_successful_job_gets_its_time;
use crate::laws::tables::{law_jobs_stay_jobs, law_rounds_have_their_own_tables};
use crate::meaning::{
    cell, found, greatest_batch, group, has_status, holds_jobs, in_order, is_answer,
    is_greatest_batch, is_job, job_columns, listed_row, lists_jobs, meets, reply_row, run, selects,
    selects_groups, Database,
    Datum, ReplyRow, Row, Table,
};
use crate::replies::{count_of, counts, reported_batch, ClaimedJob};
use crate::sql::{table_of, Assignment, Column, Condition, Output, TableName};
use crate::statements::{
    circuit_count_column, circuit_count_statement, final_result_statement,
    generated_batch_statement, list_filter, list_statement, proofs_statement, stats_statement,
    success_statement,
};
use crate::types::{
    AggregationRound, GetWitnessJobsParams, JobStatus, L1BatchNumber, TimeOfDay,
};

verus! {

/// Whether the prover job is one that succeeded for the round of the batch.
pub open spec fn is_proof_of(
    row: Row,
    block_number: L1BatchNumber,
    round: AggregationRound,
) -> bool {
    &&& cell(row, Column::L1BatchNumber) == Datum::Int(block_number.0 as int)
    &&& has_status(row, JobStatus::Successful)
    &&& cell(row, Column::AggregationRound) == Datum::Int(round.number() as int)
}

/// The proofs of a round of a batch are the results of the prover jobs for that round of that
/// batch that succeeded.
pub proof fn law_proofs_are_those_of_the_round(
    row: Row,
    block_number: L1BatchNumber,
    round: AggregationRound,
    now: int,
)
    ensures
        meets(
            row,
            proofs_statement(block_number, round).query->Select_filter,
            proofs_statement(block_number, round).args,
            now,
        ) <==> is_proof_of(row, block_number, round),
{
    let statement = proofs_statement(block_number, round);
    let filter = statement.query->Select_filter;
    assert(filter[0] == Condition::BatchIs(1));
    assert(filter[1] == Condition::StatusIs(JobStatus::Successful));
    assert(filter[2] == Condition::RoundIs(2));
    assert(meets(row, filter, statement.args, now) <==> {
        &&& filter[0].holds(row, statement.args, now)
        &&& filter[1].holds(row, statement.args, now)
        &&& filter[2].holds(row, statement.args, now)
    });
}

/// Whether the keys are those of the prover jobs that succeeded for the round of the batch, each
/// once, in the order of their sequence numbers.
pub open spec fn are_proofs(
    keys: Seq<int>,
    db: Database,
    block_number: L1BatchNumber,
    round: AggregationRound,
) -> bool {
    let table = db.table(TableName::ProverJobs);
    &&& keys.no_duplicates()
    &&& forall|key: int| #[trigger]
        keys.contains(key) <==> table.dom().contains(key) && is_proof_of(
            table[key],
            block_number,
            round,
        )
    &&& forall|i: int, j: int|
        0 <= i < j < keys.len() ==> in_order(
            cell(table[#[trigger] keys[i]], Column::SequenceNumber),
            cell(table[#[trigger] keys[j]], Column::SequenceNumber),
        )
}

/// A job is handed over with the proofs of its batch for the round before its own: the results of
/// all prover jobs that succeeded, and no other, in the order of their sequence numbers.
pub proof fn law_job_gets_the_proofs_of_the_round_before(
    db: Database,
    job: ClaimedJob,
    reply: Seq<ReplyRow>,
    locked: Set<int>,
    now: int,
)
    requires
        is_answer(
            reply,
            db,
            proofs_statement(job.batch(), job.proofs_round()),
            locked,
            now,
        ),
    ensures
        job.proofs_round().number() + 1 == job.round().number(),
        exists|keys: Seq<int>|
            {
                &&& #[trigger] are_proofs(keys, db, job.batch(), job.proofs_round())
                &&& reply.len() == keys.len()
                &&& forall|i: int|
                    0 <= i < keys.len() ==> (#[trigger] reply[i])[Output::Column(
                        Column::ProofResult,
                    )] == cell(db.table(TableName::ProverJobs)[keys[i]], Column::ProofResult)
            },
{
    let statement = proofs_statement(job.batch(), job.proofs_round());
    let table = db.table(TableName::ProverJobs);
    let outputs = statement.query->outputs;
    let rows = found(table, statement.query->Select_filter, statement.args, now);
    lemma_plain_outputs(outputs);
    let keys = choose|keys: Seq<int>| selects(keys, reply, table, statement, now);
    assert forall|key: int| #[trigger] keys.contains(key) <==> table.dom().contains(key)
        && is_proof_of(table[key], job.batch(), job.proofs_round()) by {
        law_proofs_are_those_of_the_round(table[key], job.batch(), job.proofs_round(), now);
        if keys.contains(key) {
            let k = choose|k: int| 0 <= k < keys.len() && keys[k] == key;
            assert(rows.contains(keys[k]));
        }
        if table.dom().contains(key) && is_proof_of(table[key], job.batch(), job.proofs_round()) {
            assert(rows.contains(key));
        }
    }
    assert(are_proofs(keys, db, job.batch(), job.proofs_round()));
    assert(outputs[1] == Output::Column(Column::ProofResult));
}

/// The number of proofs that the job of a round requires, given the number that is stored in it.
pub open spec fn required_count(round: AggregationRound, stored: i32) -> usize {
    match circuit_count_column(round) {
        Some(_) => stored as usize,
        None => 1,
    }
}

/// A job is handed over with as many proofs as it is said to require.
pub proof fn law_job_gets_as_many_proofs_as_it_requires(job: ClaimedJob, stored: i32)
    requires
        job matches ClaimedJob::LeafAggregation { number_of_basic_circuits, .. }
            ==> number_of_basic_circuits == stored,
        job matches ClaimedJob::NodeAggregation { number_of_leaf_circuits, .. }
            ==> number_of_leaf_circuits == stored,
    ensures
        job.proof_count() == required_count(job.round(), stored),
{
    assert((stored as i64) as usize == stored as usize) by (bit_vector);
}

/// Whether jobs of the batch with this number are to be listed.
pub open spec fn in_range(opts: GetWitnessJobsParams, batch: int) -> bool {
    match opts.blocks {
        Some(blocks) => blocks.start.0 <= batch <= blocks.end.0,
        None => true,
    }
}

/// The jobs that meet the conditions of a list are those in the range.
proof fn lemma_list_filter(
    db: Database,
    opts: GetWitnessJobsParams,
    round: AggregationRound,
    batch: int,
    now: int,
)
    requires
        db.well_formed(),
    ensures
        found(
            db.table(table_of(round)),
            list_filter(opts),
            list_statement(opts).args,
            now,
        ).contains(batch) <==> db.has_job(round, batch) && in_range(opts, batch),
{
    let filter = list_filter(opts);
    let args = list_statement(opts).args;
    let row = db.job(round, batch);
    assert(holds_jobs(db.table(table_of(round))));
    assert(filter[0] == Condition::Always);
    match opts.blocks {
        Some(blocks) => {
            assert(filter[1] == Condition::BatchBetween(blocks.start.0, blocks.end.0));
            assert(meets(row, filter, args, now) <==> filter[0].holds(row, args, now)
                && filter[1].holds(row, args, now));
        },
        None => {
            assert(meets(row, filter, args, now) <==> filter[0].holds(row, args, now));
        },
    }
    if db.has_job(round, batch) {
        assert(is_job(batch, row));
    }
}

/// Whether the row is that of a job in the range.
pub open spec fn is_listed(
    row: ReplyRow,
    db: Database,
    opts: GetWitnessJobsParams,
    round: AggregationRound,
    batch: int,
) -> bool {
    &&& db.has_job(round, batch)
    &&& in_range(opts, batch)
    &&& row == listed_row(round, db.job(round, batch))
}

/// Whether the row is that of some job in the range.
pub open spec fn is_of_listed_job(
    row: ReplyRow,
    db: Database,
    opts: GetWitnessJobsParams,
) -> bool {
    exists|round: AggregationRound, batch: int| is_listed(row, db, opts, round, batch)
}

/// The data by which a row of the list tells its job.
proof fn lemma_listed_row(db: Database, round: AggregationRound, batch: int)
    requires
        db.well_formed(),
        db.has_job(round, batch),
    ensures
        ({
            let row = listed_row(round, db.job(round, batch));
            &&& row[Output::Column(Column::AggregationRound)] == Datum::Int(round.number() as int)
            &&& row[Output::Column(Column::L1BatchNumber)] == Datum::Int(batch)
        }),
{
    assert(holds_jobs(db.table(table_of(round))));
    assert(is_job(batch, db.job(round, batch)));
    assert(job_columns()[0] == Column::L1BatchNumber);
}

/// The list of jobs has all jobs of all rounds, or, where a range is given, those of the batches
/// from its start to its end, both included; each job once, with its round, and nothing else.
pub proof fn law_listed_jobs_are_those_in_the_range(
    db: Database,
    opts: GetWitnessJobsParams,
    reply: Seq<ReplyRow>,
    locked: Set<int>,
    now: int,
)
    requires
        db.well_formed(),
        is_answer(reply, db, list_statement(opts), locked, now),
    ensures
        forall|round: AggregationRound, batch: int| #[trigger]
            db.has_job(round, batch) && in_range(opts, batch) ==> reply.contains(
                listed_row(round, db.job(round, batch)),
            ),
        forall|i: int| 0 <= i < reply.len() ==> is_of_listed_job(#[trigger] reply[i], db, opts),
        reply.no_duplicates(),
{
    let filter = list_filter(opts);
    let args = list_statement(opts).args;
    let jobs = choose|jobs: Seq<(AggregationRound, int)>|
        lists_jobs(jobs, reply, db, filter, args, now);
    assert forall|i: int| 0 <= i < jobs.len() implies is_listed(
        reply[i],
        db,
        opts,
        (#[trigger] jobs[i]).0,
        jobs[i].1,
    ) by {
        let (round, batch) = jobs[i];
        assert(jobs.contains((round, batch)));
        assert(found(db.table(table_of(round)), filter, args, now).contains(batch));
        lemma_list_filter(db, opts, round, batch, now);
    }
    assert forall|i: int| 0 <= i < reply.len() implies is_of_listed_job(
        #[trigger] reply[i],
        db,
        opts,
    ) by {
        assert(is_listed(reply[i], db, opts, jobs[i].0, jobs[i].1));
    }
    assert forall|round: AggregationRound, batch: int| #[trigger]
        db.has_job(round, batch) && in_range(opts, batch) implies reply.contains(
        listed_row(round, db.job(round, batch)),
    ) by {
        lemma_list_filter(db, opts, round, batch, now);
        assert(found(db.table(table_of(round)), filter, args, now).contains(batch));
        let i = choose|i: int| 0 <= i < jobs.len() && jobs[i] == (round, batch);
        assert(reply[i] == listed_row(round, db.job(round, batch)));
    }
    assert forall|i: int, j: int|
        0 <= i < reply.len() && 0 <= j < reply.len() && i != j implies reply[i] != reply[j] by {
        lemma_listed_row(db, jobs[i].0, jobs[i].1);
        lemma_listed_row(db, jobs[j].0, jobs[j].1);
        if reply[i] == reply[j] {
            law_rounds_have_their_own_tables(jobs[i].0, jobs[j].0);
            assert(jobs[i] == jobs[j]);
        }
    }
}

/// Whether the job of the round for the batch with this number succeeded.
pub open spec fn succeeded(db: Database, round: AggregationRound, batch: int) -> bool {
    db.has_job(round, batch) && has_status(db.job(round, batch), JobStatus::Successful)
}

/// The number that is read from a reply, if there is one.
pub open spec fn read_number(datum: Datum) -> Option<i64> {
    match datum {
        Datum::Int(number) => Some(number as i64),
        _ => None,
    }
}

/// A finite set of rows has a greatest batch number unless it is empty.
proof fn lemma_greatest_batch(table: Table, keys: Set<int>)
    requires
        keys.finite(),
        forall|key: int| #[trigger]
            keys.contains(key) ==> cell(table[key], Column::L1BatchNumber) == Datum::Int(key),
    ensures
        match greatest_batch(table, keys) {
            Datum::Int(number) => {
                &&& keys.contains(number)
                &&& forall|key: int| #[trigger] keys.contains(key) ==> key <= number
            },
            Datum::Null => keys =~= Set::<int>::empty(),
            _ => false,
        },
    decreases keys.len(),
{
    if !(keys =~= Set::<int>::empty()) {
        let key = keys.choose();
        let rest = keys.remove(key);
        lemma_greatest_batch(table, rest);
        let greatest = match greatest_batch(table, rest) {
            Datum::Int(other) => if other > key {
                other
            } else {
                key
            },
            _ => key,
        };
        assert(keys.contains(greatest));
        assert forall|k: int| #[trigger] keys.contains(k) implies k <= greatest by {
            if k != key {
                assert(rest.contains(k));
            }
        }
        assert(is_greatest_batch(greatest, table, keys));
    }
}

/// The reply to the search for the last generated batch of a round: one row, with the greatest
/// batch whose job succeeded.
proof fn lemma_generated_batch(
    db: Database,
    round: AggregationRound,
    reply: Seq<ReplyRow>,
    locked: Set<int>,
    now: int,
)
    requires
        db.well_formed(),
        is_answer(reply, db, generated_batch_statement(table_of(round)), locked, now),
    ensures
        reply.len() == 1,
        match reply[0][Output::GreatestBatch] {
            Datum::Int(number) => {
                &&& succeeded(db, round, number)
                &&& forall|batch: int| #[trigger] succeeded(db, round, batch) ==> batch <= number
            },
            Datum::Null => forall|batch: int| !#[trigger] succeeded(db, round, batch),
            _ => false,
        },
{
    let table = db.table(table_of(round));
    let statement = generated_batch_statement(table_of(round));
    let filter = statement.query->Select_filter;
    let outputs = statement.query->outputs;
    let batches = found(table, filter, statement.args, now);
    assert(outputs[0] == Output::GreatestBatch && outputs[0].is_aggregate());
    assert(outputs.contains(Output::GreatestBatch));
    assert(filter[0] == Condition::StatusIs(JobStatus::Successful));
    assert(holds_jobs(table));
    vstd::set_lib::lemma_set_subset_finite(table.dom(), batches);
    assert forall|batch: int| #[trigger] succeeded(db, round, batch) <==> batches.contains(
        batch,
    ) by {
        let row = db.job(round, batch);
        assert(meets(row, filter, statement.args, now) <==> filter[0].holds(
            row,
            statement.args,
            now,
        ));
    }
    assert forall|key: int| #[trigger] batches.contains(key) implies cell(
        table[key],
        Column::L1BatchNumber,
    ) == Datum::Int(key) by {
        assert(table.dom().contains(key));
        assert(is_job(key, table[key]));
    }
    lemma_greatest_batch(table, batches);
    match greatest_batch(table, batches) {
        Datum::Int(number) => {
            assert(batches.contains(number));
            assert(succeeded(db, round, number));
        },
        _ => {},
    }
}

/// The batch that is reported as the last generated one of a round is the greatest whose job
/// succeeded, or zero where no job succeeded. This is about batches whose number is one of a
/// batch.
pub proof fn law_last_successful_batch_is_reported(
    db: Database,
    round: AggregationRound,
    reply: Seq<ReplyRow>,
    locked: Set<int>,
    now: int,
)
    requires
        db.well_formed(),
        is_answer(reply, db, generated_batch_statement(table_of(round)), locked, now),
        reply[0][Output::GreatestBatch] matches Datum::Int(number) ==> 0 <= number <= u32::MAX,
    ensures
        reply.len() == 1,
        ({
            let reported =
                reported_batch(read_number(reply[0][Output::GreatestBatch])).0 as int;
            &&& forall|batch: int| #[trigger]
                succeeded(db, round, batch) ==> batch <= reported
            &&& succeeded(db, round, reported) || (reported == 0 && forall|batch: int|
                !#[trigger] succeeded(db, round, batch))
        }),
{
    lemma_generated_batch(db, round, reply, locked, now);
}

/// Marking a job as successful makes the batch that is reported for its round the greater of the
/// one that was reported and the marked one.
pub proof fn law_marked_batch_is_reported_if_greater(
    db: Database,
    block_number: L1BatchNumber,
    round: AggregationRound,
    time_taken: TimeOfDay,
    locked: Set<int>,
    now: int,
    reply: Seq<ReplyRow>,
    reply_after: Seq<ReplyRow>,
    later: int,
)
    requires
        db.well_formed(),
        is_answer(reply, db, generated_batch_statement(table_of(round)), locked, now),
        reply[0][Output::GreatestBatch] matches Datum::Int(number) ==> 0 <= number <= u32::MAX,
        run(db, success_statement(block_number, round, time_taken), locked, now) matches Some(after)
            && is_answer(
            reply_after,
            after,
            generated_batch_statement(table_of(round)),
            locked,
            later,
        ),
    ensures
        ({
            let reported = reported_batch(read_number(reply[0][Output::GreatestBatch])).0;
            let reported_after = reported_batch(
                read_number(reply_after[0][Output::GreatestBatch]),
            ).0;
            reported_after == if db.has_job(round, block_number.0 as int) && reported
                < block_number.0 {
                block_number.0
            } else {
                reported
            }
        }),
{
    let statement = success_statement(block_number, round, time_taken);
    let after = run(db, statement, locked, now)->Some_0;
    let batch = block_number.0 as int;
    assert(statement.well_formed());
    law_jobs_stay_jobs(db, statement, locked, now);
    law_successful_job_gets_its_time(db, block_number, round, time_taken, locked, now);
    lemma_generated_batch(db, round, reply, locked, now);
    lemma_generated_batch(after, round, reply_after, locked, later);
    assert forall|other: int| #[trigger] succeeded(after, round, other) <==> succeeded(
        db,
        round,
        other,
    ) || (other == batch && db.has_job(round, batch)) by {
        if db.has_job(round, batch) {
            assert(after.has_job(round, other) <==> db.has_job(round, other));
            if other != batch && db.has_job(round, other) {
                assert(after.job(round, other) == db.job(round, other));
            }
        }
    }
    match reply[0][Output::GreatestBatch] {
        Datum::Int(number) => {
            assert(succeeded(after, round, number));
        },
        _ => {},
    }
    if db.has_job(round, batch) {
        assert(succeeded(after, round, batch));
    }
    match reply_after[0][Output::GreatestBatch] {
        Datum::Int(number) => {
            assert(succeeded(after, round, number));
        },
        _ => {},
    }
}

/// Outputs that are columns are not aggregates.
pub(crate) proof fn lemma_plain_outputs(outputs: Seq<Output>)
    requires
        forall|i: int| 0 <= i < outputs.len() ==> !(#[trigger] outputs[i]).is_aggregate(),
    ensures
        !(exists|i: int| 0 <= i < outputs.len() && (#[trigger] outputs[i]).is_aggregate()),
{
}

/// The search for the number of circuits of a job hands back the number that the job of the batch
/// holds; nothing, where there is no such job.
pub proof fn law_circuit_count_is_that_of_the_job(
    db: Database,
    block_number: L1BatchNumber,
    round: AggregationRound,
    column: Column,
    reply: Seq<ReplyRow>,
    locked: Set<int>,
    now: int,
)
    requires
        db.well_formed(),
        is_answer(
            reply,
            db,
            circuit_count_statement(block_number, round, column),
            locked,
            now,
        ),
    ensures
        if db.has_job(round, block_number.0 as int) {
            &&& reply.len() == 1
            &&& reply[0][Output::ColumnAsCount(column)] == cell(
                db.job(round, block_number.0 as int),
                column,
            )
        } else {
            reply.len() == 0
        },
{
    let batch = block_number.0 as int;
    let table = db.table(table_of(round));
    let statement = circuit_count_statement(block_number, round, column);
    let filter = statement.query->Select_filter;
    let outputs = statement.query->outputs;
    let rows = found(table, filter, statement.args, now);
    lemma_plain_outputs(outputs);
    assert forall|key: int| #[trigger] rows.contains(key) <==> key == batch && db.has_job(
        round,
        key,
    ) by {
        if db.has_job(round, key) {
            lemma_batch_filter(db, round, filter, statement.args, 1, block_number, key, now);
        }
    }
    let keys = choose|keys: Seq<int>| selects(keys, reply, table, statement, now);
    assert(outputs[0] == Output::ColumnAsCount(column));
    if keys.len() > 0 {
        assert(rows.contains(keys[0]));
    }
    if keys.len() > 1 {
        assert(rows.contains(keys[1]));
    }
    if db.has_job(round, batch) {
        assert(rows.contains(batch));
        assert(keys.contains(batch));
    }
}

/// The jobs of the round that have the status.
pub open spec fn jobs_with_status(
    db: Database,
    round: AggregationRound,
    status: Seq<char>,
) -> Set<int> {
    Set::new(
        |batch: int|
            db.has_job(round, batch) && cell(db.job(round, batch), Column::Status) == Datum::Text(
                status,
            ),
    )
}

/// Whether the rows are what is read from the reply to a count of the jobs by status.
pub open spec fn are_counts_read(rows: Seq<(String, i64)>, reply: Seq<ReplyRow>) -> bool {
    &&& rows.len() == reply.len()
    &&& forall|i: int|
        0 <= i < rows.len() ==> {
            &&& Datum::Text((#[trigger] rows[i]).0@) == reply[i][Output::QuotedStatus]
            &&& Datum::Int(rows[i].1 as int) == reply[i][Output::RowCount]
        }
}

/// The statistics of a round, made from the reply to the count of its jobs by status, give the
/// number of jobs in each status. This is about numbers that fit.
pub proof fn law_statistics_count_the_jobs(
    db: Database,
    round: AggregationRound,
    reply: Seq<ReplyRow>,
    locked: Set<int>,
    now: int,
    rows: Seq<(String, i64)>,
    status: JobStatus,
)
    requires
        db.well_formed(),
        is_answer(reply, db, stats_statement(round), locked, now),
        are_counts_read(rows, reply),
        jobs_with_status(db, round, status.text()).len() <= usize::MAX,
    ensures
        count_of(counts(rows), status) == jobs_with_status(db, round, status.text()).len(),
{
    let table = db.table(table_of(round));
    let statement = stats_statement(round);
    let outputs = statement.query->outputs;
    let all = found(table, statement.query->Select_filter, statement.args, now);
    let column = Column::Status;
    let keys = choose|keys: Seq<int>|
        selects_groups(keys, reply, table, statement, column, now);
    let jobs = jobs_with_status(db, round, status.text());
    assert(all =~= table.dom()) by {
        assert forall|key: int| table.dom().contains(key) implies all.contains(key) by {
            assert(meets(table[key], statement.query->Select_filter, statement.args, now));
        }
    }
    assert(holds_jobs(table));
    assert(outputs =~= seq![Output::RowCount, Output::QuotedStatus]);
    assert forall|i: int| 0 <= i < rows.len() implies Datum::Text((#[trigger] rows[i]).0@) == cell(
        table[keys[i]],
        column,
    ) && rows[i].1 == group(table, all, column, cell(table[keys[i]], column)).len() by {
        lemma_count_row(
            table,
            group(table, all, column, cell(table[keys[i]], column)),
            table[keys[i]],
            reply[i],
        );
    }
    assert(group(table, all, column, Datum::Text(status.text())) =~= jobs);
    lemma_counts(rows, status.text());
    if counts(rows).contains_key(status.text()) {
        let i = choose|i: int|
            0 <= i < rows.len() && (#[trigger] rows[i]).0@ == status.text() && rows[i].1 == counts(
                rows,
            )[status.text()];
        assert(rows[i].1 == jobs.len());
    } else if jobs.len() > 0 {
        assert(!(jobs =~= Set::<int>::empty()));
        let batch = jobs.choose();
        assert(all.contains(batch));
        let i = choose|i: int|
            0 <= i < keys.len() && cell(table[#[trigger] keys[i]], column) == cell(
                table[batch],
                column,
            );
        assert(rows[i].0@ == status.text());
    }
}

/// Taking a queued job moves one job of the round from those that are queued to those that are in
/// progress in the statistics, and no other. This is about numbers that fit.
pub proof fn law_taken_job_moves_in_the_statistics(
    db: Database,
    round: AggregationRound,
    search: Search,
    locked: Set<int>,
    now: int,
    reply: Seq<ReplyRow>,
    rows: Seq<(String, i64)>,
    reply_after: Seq<ReplyRow>,
    rows_after: Seq<(String, i64)>,
    later: int,
    status: JobStatus,
)
    requires
        db.well_formed(),
        search.taken(db, round, locked, now) matches Some(batch) && has_status(
            db.job(round, batch),
            JobStatus::Queued,
        ),
        is_answer(reply, db, stats_statement(round), locked, now),
        are_counts_read(rows, reply),
        run(db, search.statement(round), locked, now) matches Some(after) ==> is_answer(
            reply_after,
            after,
            stats_statement(round),
            locked,
            later,
        ),
        are_counts_read(rows_after, reply_after),
        jobs_with_status(db, round, status.text()).len() < usize::MAX,
    ensures
        ({
            let before = count_of(counts(rows), status);
            let after = count_of(counts(rows_after), status);
            match status {
                JobStatus::Queued => after == before - 1,
                JobStatus::InProgress => after == before + 1,
                _ => after == before,
            }
        }),
{
    let statement = search.statement(round);
    let after = run(db, statement, locked, now)->Some_0;
    let batch = search.taken(db, round, locked, now)->Some_0;
    let jobs = jobs_with_status(db, round, status.text());
    let jobs_after = jobs_with_status(after, round, status.text());
    law_worker_gets_the_first_available_job(db, round, search, locked, now);
    assert(statement.well_formed());
    law_jobs_stay_jobs(db, statement, locked, now);
    law_statuses_are_distinct(status, JobStatus::Queued);
    law_statuses_are_distinct(status, JobStatus::InProgress);
    assert(holds_jobs(db.table(table_of(round))));
    vstd::set_lib::lemma_set_subset_finite(db.table(table_of(round)).dom(), jobs);
    assert forall|other: int| other != batch implies (jobs_after.contains(other)
        <==> jobs.contains(other)) by {
        assert(after.has_job(round, other) <==> db.has_job(round, other));
        if db.has_job(round, other) {
            assert(after.job(round, other) == db.job(round, other));
        }
    }
    assert(after.has_job(round, batch) && db.has_job(round, batch));
    match status {
        JobStatus::Queued => {
            assert(jobs_after =~= jobs.remove(batch));
        },
        JobStatus::InProgress => {
            assert(jobs_after =~= jobs.insert(batch));
        },
        _ => {
            assert(jobs_after =~= jobs);
        },
    }
    law_statistics_count_the_jobs(db, round, reply, locked, now, rows, status);
    law_statistics_count_the_jobs(after, round, reply_after, locked, later, rows_after, status);
}

/// What a row of the count of jobs by status holds.
proof fn lemma_count_row(table: Table, keys: Set<int>, row: Row, reply: ReplyRow)
    requires
        reply == reply_row(seq![Output::RowCount, Output::QuotedStatus], table, keys, row),
    ensures
        reply[Output::RowCount] == Datum::Int(keys.len() as int),
        reply[Output::QuotedStatus] == cell(row, Column::Status),
{
    let outputs = seq![Output::RowCount, Output::QuotedStatus];
    assert(outputs[0] == Output::RowCount);
    assert(outputs[1] == Output::QuotedStatus);
}

/// The counts have an entry for every status that there is a row of, and it comes from such a
/// row.
proof fn lemma_counts(rows: Seq<(String, i64)>, status: Seq<char>)
    ensures
        counts(rows).contains_key(status) <==> exists|i: int|
            0 <= i < rows.len() && (#[trigger] rows[i]).0@ == status,
        counts(rows).contains_key(status) ==> exists|i: int|
            0 <= i < rows.len() && (#[trigger] rows[i]).0@ == status && rows[i].1 == counts(
                rows,
            )[status],
    decreases rows.len(),
{
    if rows.len() > 0 {
        let rest = rows.drop_last();
        lemma_counts(rest, status);
        assert(rows.last() == rows[rows.len() - 1]);
        if counts(rest).contains_key(status) {
            let i = choose|i: int|
                0 <= i < rest.len() && (#[trigger] rest[i]).0@ == status && rest[i].1 == counts(
                    rest,
                )[status];
            assert(rows[i] == rest[i]);
        }
        assert forall|i: int|
            0 <= i < rows.len() && (#[trigger] rows[i]).0@ == status implies counts(
            rows,
        ).contains_key(status) by {
            if i < rows.len() - 1 {
                assert(rest[i] == rows[i]);
            }
        }
    }
}

/// Saving the final aggregation result stores it in the scheduler job of the batch and changes
/// nothing else, the status included.
pub proof fn law_final_result_is_stored(
    db: Database,
    block_number: L1BatchNumber,
    aggregation_result_coords: [[u8; 32]; 4],
    locked: Set<int>,
    now: int,
)
    requires
        db.well_formed(),
    ensures
        run(
            db,
            final_result_statement(block_number, aggregation_result_coords),
            locked,
            now,
        ) matches Some(after) && {
            let round = AggregationRound::Scheduler;
            let batch = block_number.0 as int;
            let row = after.job(round, batch);
            if db.has_job(round, batch) {
                &&& same_but_for(db, after, round, batch)
                &&& cell(row, Column::AggregationResultCoords) == Datum::Bytes(
                    coords_bytes(aggregation_result_coords),
                )
                &&& cell(row, Column::UpdatedAt) == Datum::Time(now)
                &&& same_row_but_for(
                    db.job(round, batch),
                    row,
                    seq![Column::AggregationResultCoords, Column::UpdatedAt],
                )
            } else {
                after == db
            }
        },
{
    let round = AggregationRound::Scheduler;
    let batch = block_number.0 as int;
    let statement = final_result_statement(block_number, aggregation_result_coords);
    let set = statement.query->Update_set;
    let filter = statement.query->Update_filter;
    assert forall|key: int| db.has_job(round, key) implies (meets(
        db.job(round, key),
        filter,
        statement.args,
        now,
    ) <==> key == batch) by {
        lemma_batch_filter(db, round, filter, statement.args, 2, block_number, key, now);
    }
    lemma_update_of_one_batch(db, round, statement, batch, locked, now);
    if db.has_job(round, batch) {
        let row = db.job(round, batch);
        lemma_assigned_to(row, set, statement.args, now, 0);
        lemma_assigned_to(row, set, statement.args, now, 1);
        let columns = seq![Column::AggregationResultCoords, Column::UpdatedAt];
        assert(columns =~= set.map_values(|assignment: Assignment| assignment.column));
        lemma_assigned_frame(row, set, statement.args, now, columns);
    }
}

/// The stored form of a result has a fixed length and gives every byte of the result back.
pub proof fn law_stored_result_can_be_read_back(coords: [[u8; 32]; 4], i: int, j: int)
    requires
        0 <= i < 4,
        0 <= j < 32,
    ensures
        coords_bytes(coords).len() == 128,
        coords_bytes(coords)[32 * i + j] == coords@[i]@[j],
{
}

} // verus!
