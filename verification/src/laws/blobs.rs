//! When the blobs of a job are cleaned.
use vstd::prelude::*;

use crate::laws::common::{lemma_assigned_frame, lemma_assigned_to, same_row_but_for};
use crate::laws::reading::lemma_plain_outputs;
use crate::meaning::{
    cell, found, has_status, holds_jobs, is_answer, is_job, meets, not_updated_for, run,
    selects, Database, Datum, ReplyRow, Row,
};
use crate::query::StatementView;
use crate::sql::{table_of, Assignment, Column, Condition, Output};
use crate::statements::{
    cleanable_leaf_statement, cleanable_node_statement, cleanable_scheduler_statement,
    cleaned_statement,
};
use crate::types::{AggregationRound, JobStatus};

verus! {

/// The columns that hold the addresses of the blobs of a job; for the rounds whose jobs have two.
pub open spec fn blob_columns(round: AggregationRound) -> (Column, Column) {
    match round {
        AggregationRound::LeafAggregation => (
            Column::BasicCircuitsBlobUrl,
            Column::BasicCircuitsInputsBlobUrl,
        ),
        AggregationRound::NodeAggregation => (
            Column::LeafLayerSubqueuesBlobUrl,
            Column::AggregationOutputsBlobUrl,
        ),
        _ => (Column::SchedulerWitnessBlobUrl, Column::FinalNodeAggregationsBlobUrl),
    }
}

/// The statement that looks for jobs of the round whose blobs may be cleaned.
pub open spec fn cleanup_statement(round: AggregationRound, limit: u8) -> StatementView {
    match round {
        AggregationRound::LeafAggregation => cleanable_leaf_statement(limit),
        AggregationRound::NodeAggregation => cleanable_node_statement(limit),
        _ => cleanable_scheduler_statement(limit),
    }
}

/// The batches whose blobs the statement finds; it hands out no more of them than its limit.
pub open spec fn cleanable_batches(
    db: Database,
    round: AggregationRound,
    limit: u8,
    now: int,
) -> Set<int> {
    found(
        db.table(table_of(round)),
        cleanup_statement(round, limit).query->Select_filter,
        cleanup_statement(round, limit).args,
        now,
    )
}

/// Whether the blobs of the job may be cleaned at the time `now`: it succeeded, was last changed
/// more than thirty days ago, has the addresses of both blobs, and they are not cleaned yet.
pub open spec fn may_be_cleaned(row: Row, round: AggregationRound, now: int) -> bool {
    &&& has_status(row, JobStatus::Successful)
    &&& not_updated_for(row, 30, now)
    &&& cell(row, blob_columns(round).0) != Datum::Null
    &&& cell(row, blob_columns(round).1) != Datum::Null
    &&& cell(row, Column::IsBlobCleaned) == Datum::Bool(false)
}

/// The search for blobs to be cleaned finds those of the jobs whose blobs may be cleaned.
pub proof fn law_blobs_of_old_finished_jobs_are_found(
    db: Database,
    round: AggregationRound,
    limit: u8,
    now: int,
    batch: int,
)
    requires
        round != AggregationRound::BasicCircuits,
    ensures
        cleanable_batches(db, round, limit, now).contains(batch) <==> db.has_job(round, batch)
            && may_be_cleaned(db.job(round, batch), round, now),
{
    let statement = cleanup_statement(round, limit);
    let filter = statement.query->Select_filter;
    let row = db.job(round, batch);
    assert(filter.len() == 5);
    assert(filter[0] == Condition::StatusIs(JobStatus::Successful));
    assert(filter[1] == Condition::BlobsNotCleaned);
    assert(meets(row, filter, statement.args, now) <==> {
        &&& filter[0].holds(row, statement.args, now)
        &&& filter[1].holds(row, statement.args, now)
        &&& filter[2].holds(row, statement.args, now)
        &&& filter[3].holds(row, statement.args, now)
        &&& filter[4].holds(row, statement.args, now)
    });
}

/// Whether the row hands out the addresses of the blobs of the job for the batch with this number,
/// and the job is one whose blobs may be cleaned.
pub open spec fn hands_out(
    row: ReplyRow,
    db: Database,
    round: AggregationRound,
    batch: int,
    now: int,
) -> bool {
    let job = db.job(round, batch);
    let (first, second) = blob_columns(round);
    &&& db.has_job(round, batch)
    &&& may_be_cleaned(job, round, now)
    &&& row[Output::Column(Column::L1BatchNumber)] == Datum::Int(batch)
    &&& row[Output::Column(first)] == cell(job, first)
    &&& row[Output::Column(second)] == cell(job, second)
}

/// Whether the row hands out the addresses of the blobs of some job whose blobs may be cleaned.
pub open spec fn is_handed_out(
    row: ReplyRow,
    db: Database,
    round: AggregationRound,
    now: int,
) -> bool {
    exists|batch: int| hands_out(row, db, round, batch, now)
}

/// The address that is read from a reply, if there is one.
pub open spec fn is_address_read(address: Option<String>, datum: Datum) -> bool {
    match address {
        Some(url) => datum == Datum::Text(url@),
        None => datum == Datum::Null,
    }
}

/// Whether the rows are what is read from the reply to the search for blobs to be cleaned.
pub open spec fn are_addresses_read(
    rows: Seq<(i64, Option<String>, Option<String>)>,
    reply: Seq<ReplyRow>,
    round: AggregationRound,
) -> bool {
    let (first, second) = blob_columns(round);
    &&& rows.len() == reply.len()
    &&& forall|i: int|
        0 <= i < rows.len() ==> {
            &&& Datum::Int((#[trigger] rows[i]).0 as int) == reply[i][Output::Column(
                Column::L1BatchNumber,
            )]
            &&& is_address_read(rows[i].1, reply[i][Output::Column(first)])
            &&& is_address_read(rows[i].2, reply[i][Output::Column(second)])
        }
}

/// The search for blobs to be cleaned hands out no more jobs than its limit, and fewer only where
/// there are no more; each job once, with the addresses of both its blobs. So no address is missing
/// in what is read from the reply.
pub proof fn law_both_addresses_are_handed_out(
    db: Database,
    round: AggregationRound,
    limit: u8,
    locked: Set<int>,
    now: int,
    reply: Seq<ReplyRow>,
    rows: Seq<(i64, Option<String>, Option<String>)>,
)
    requires
        db.well_formed(),
        round != AggregationRound::BasicCircuits,
        is_answer(reply, db, cleanup_statement(round, limit), locked, now),
        are_addresses_read(rows, reply, round),
    ensures
        reply.len() <= limit,
        forall|i: int|
            0 <= i < reply.len() ==> is_handed_out(#[trigger] reply[i], db, round, now),
        forall|i: int, j: int|
            0 <= i < j < reply.len() ==> (#[trigger] reply[i])[Output::Column(
                Column::L1BatchNumber,
            )] != (#[trigger] reply[j])[Output::Column(Column::L1BatchNumber)],
        reply.len() < limit ==> forall|batch: int| #[trigger]
            db.has_job(round, batch) && may_be_cleaned(db.job(round, batch), round, now)
                ==> exists|i: int|
                0 <= i < reply.len() && hands_out(#[trigger] reply[i], db, round, batch, now),
        forall|i: int|
            0 <= i < rows.len() ==> (#[trigger] rows[i]).1 is Some && rows[i].2 is Some,
{
    let table = db.table(table_of(round));
    let statement = cleanup_statement(round, limit);
    let outputs = statement.query->outputs;
    let batches = cleanable_batches(db, round, limit, now);
    let (first, second) = blob_columns(round);
    assert(outputs[0] == Output::Column(Column::L1BatchNumber));
    assert(outputs[1] == Output::Column(first));
    assert(outputs[2] == Output::Column(second));
    lemma_plain_outputs(outputs);
    let keys = choose|keys: Seq<int>| selects(keys, reply, table, statement, now);
    assert(holds_jobs(table));
    assert forall|i: int| 0 <= i < reply.len() implies hands_out(
        #[trigger] reply[i],
        db,
        round,
        keys[i],
        now,
    ) by {
        assert(batches.contains(keys[i]));
        law_blobs_of_old_finished_jobs_are_found(db, round, limit, now, keys[i]);
        assert(is_job(keys[i], table[keys[i]]));
    }
    assert forall|i: int| 0 <= i < reply.len() implies is_handed_out(
        #[trigger] reply[i],
        db,
        round,
        now,
    ) by {
        assert(hands_out(reply[i], db, round, keys[i], now));
    }
    if reply.len() < limit {
        assert forall|batch: int| #[trigger]
            db.has_job(round, batch) && may_be_cleaned(
                db.job(round, batch),
                round,
                now,
            ) implies exists|i: int|
            0 <= i < reply.len() && hands_out(#[trigger] reply[i], db, round, batch, now) by {
            law_blobs_of_old_finished_jobs_are_found(db, round, limit, now, batch);
            assert(batches.contains(batch));
            let i = choose|i: int| 0 <= i < keys.len() && keys[i] == batch;
            assert(hands_out(reply[i], db, round, batch, now));
        }
    }
    assert forall|i: int| 0 <= i < rows.len() implies (#[trigger] rows[i]).1 is Some && rows[i].2
        is Some by {
        assert(hands_out(reply[i], db, round, keys[i], now));
    }
}

/// Marking blobs as cleaned marks those of the jobs of the given batches, and changes nothing else.
pub proof fn law_given_blobs_are_marked_as_cleaned(
    db: Database,
    round: AggregationRound,
    l1_batch_numbers: Seq<i64>,
    locked: Set<int>,
    now: int,
)
    requires
        db.well_formed(),
    ensures
        run(
            db,
            cleaned_statement(table_of(round), l1_batch_numbers),
            locked,
            now,
        ) matches Some(after) && {
            &&& after == db.with_table(table_of(round), after.table(table_of(round)))
            &&& forall|batch: int| #[trigger]
                after.has_job(round, batch) <==> db.has_job(round, batch)
            &&& forall|batch: int|
                db.has_job(round, batch) ==> {
                    let row = #[trigger] after.job(round, batch);
                    if exists|i: int|
                        0 <= i < l1_batch_numbers.len() && batch == #[trigger] l1_batch_numbers[i] {
                        &&& cell(row, Column::IsBlobCleaned) == Datum::Bool(true)
                        &&& same_row_but_for(
                            db.job(round, batch),
                            row,
                            seq![Column::IsBlobCleaned],
                        )
                    } else {
                        row == db.job(round, batch)
                    }
                }
        },
{
    let statement = cleaned_statement(table_of(round), l1_batch_numbers);
    let set = statement.query->Update_set;
    let filter = statement.query->Update_filter;
    let after = run(db, statement, locked, now)->Some_0;
    assert(holds_jobs(db.table(table_of(round))));
    assert(filter[0] == Condition::BatchAmong(1));
    assert forall|batch: int| db.has_job(round, batch) implies {
        let row = #[trigger] after.job(round, batch);
        if exists|i: int|
            0 <= i < l1_batch_numbers.len() && batch == #[trigger] l1_batch_numbers[i] {
            &&& cell(row, Column::IsBlobCleaned) == Datum::Bool(true)
            &&& same_row_but_for(db.job(round, batch), row, seq![Column::IsBlobCleaned])
        } else {
            row == db.job(round, batch)
        }
    } by {
        let row = db.job(round, batch);
        assert(meets(row, filter, statement.args, now) <==> filter[0].holds(
            row,
            statement.args,
            now,
        ));
        lemma_assigned_to(row, set, statement.args, now, 0);
        assert(seq![Column::IsBlobCleaned] =~= set.map_values(
            |assignment: Assignment| assignment.column,
        ));
        lemma_assigned_frame(row, set, statement.args, now, seq![Column::IsBlobCleaned]);
    }
}

/// Blobs that are marked as cleaned are not found again.
pub proof fn law_cleaned_blobs_are_not_found_again(
    db: Database,
    round: AggregationRound,
    l1_batch_numbers: Seq<i64>,
    locked: Set<int>,
    now: int,
    limit: u8,
    later: int,
    i: int,
)
    requires
        db.well_formed(),
        round != AggregationRound::BasicCircuits,
        0 <= i < l1_batch_numbers.len(),
    ensures
        run(
            db,
            cleaned_statement(table_of(round), l1_batch_numbers),
            locked,
            now,
        ) matches Some(after) && !cleanable_batches(after, round, limit, later).contains(
            l1_batch_numbers[i] as int,
        ),
{
    let statement = cleaned_statement(table_of(round), l1_batch_numbers);
    let after = run(db, statement, locked, now)->Some_0;
    let batch = l1_batch_numbers[i] as int;
    law_given_blobs_are_marked_as_cleaned(db, round, l1_batch_numbers, locked, now);
    law_blobs_of_old_finished_jobs_are_found(after, round, limit, later, batch);
    if db.has_job(round, batch) {
        let row = after.job(round, batch);
        assert(cell(row, Column::IsBlobCleaned) == Datum::Bool(true));
    } else {
        assert(!after.has_job(round, batch));
    }
}

} // verus!
