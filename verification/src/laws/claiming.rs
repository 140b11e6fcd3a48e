//! How workers get their jobs.
use vstd::prelude::*;

use crate::laws::common::{
    law_statuses_are_distinct, lemma_assigned_frame, lemma_assigned_to, lemma_least, same_but_for,
    same_row_but_for, Search,
};
use crate::meaning::{
    cell, found, has_status, holds_jobs, is_answer, is_job, least, meets, run, whole_row, Database,
    Datum, ReplyRow, Row,
};
use crate::sql::{table_of, Assignment, Column, Condition, Output};
use crate::types::{AggregationRound, JobStatus};

verus! {

/// Whether `after` is the row of a job that was `row` and that a worker took at the time `now`.
pub open spec fn is_taken(row: Row, after: Row, now: int) -> bool {
    &&& has_status(after, JobStatus::InProgress)
    &&& cell(row, Column::Attempts) matches Datum::Int(attempts) ==> cell(after, Column::Attempts)
        == Datum::Int(attempts + 1)
    &&& cell(after, Column::UpdatedAt) == Datum::Time(now)
    &&& cell(after, Column::ProcessingStartedAt) == Datum::Time(now)
    &&& same_row_but_for(
        row,
        after,
        seq![
            Column::Status,
            Column::Attempts,
            Column::UpdatedAt,
            Column::ProcessingStartedAt,
        ],
    )
}

/// The rows that a search for a job finds are those of the jobs that it allows to take.
proof fn lemma_search_finds(db: Database, round: AggregationRound, search: Search, now: int)
    requires
        db.well_formed(),
    ensures
        forall|batch: int| #[trigger]
            found(
                db.table(table_of(round)),
                search.statement(round).query->UpdateFirst_filter,
                search.statement(round).args,
                now,
            ).contains(batch) <==> search.allows(db, round, batch, now),
{
    let filter = search.statement(round).query->UpdateFirst_filter;
    let args = search.statement(round).args;
    let table = db.table(table_of(round));
    assert(holds_jobs(table));
    assert(filter[0] == Condition::BatchAtMost(3));
    assert(filter[1] == Condition::Claimable { timeout: 1, max_attempts: 2 });
    assert forall|batch: int| #[trigger]
        found(table, filter, args, now).contains(batch) <==> search.allows(
            db,
            round,
            batch,
            now,
        ) by {
        if table.dom().contains(batch) {
            let row = table[batch];
            assert(meets(row, filter, args, now) <==> filter[0].holds(row, args, now)
                && filter[1].holds(row, args, now));
        }
    }
}

/// A worker gets, of the jobs that it may take and that no other worker is about to take, the
/// one with the least batch number; it gets none only where there is no such job. The job that
/// it gets is in progress from then on, with one more attempt, and nothing else changes.
pub proof fn law_worker_gets_the_first_available_job(
    db: Database,
    round: AggregationRound,
    search: Search,
    locked: Set<int>,
    now: int,
)
    requires
        db.well_formed(),
    ensures
        match search.taken(db, round, locked, now) {
            Some(batch) => {
                &&& search.allows(db, round, batch, now) && !locked.contains(batch)
                &&& forall|other: int| #[trigger]
                    search.allows(db, round, other, now) && !locked.contains(other) ==> batch
                        <= other
                &&& run(db, search.statement(round), locked, now) matches Some(after)
                &&& same_but_for(db, after, round, batch)
                &&& is_taken(db.job(round, batch), after.job(round, batch), now)
            },
            None => {
                &&& forall|batch: int| #[trigger]
                    search.allows(db, round, batch, now) ==> locked.contains(batch)
                &&& run(db, search.statement(round), locked, now) == Some(db)
            },
        },
{
    let statement = search.statement(round);
    let set = statement.query->UpdateFirst_set;
    let filter = statement.query->UpdateFirst_filter;
    let table = db.table(table_of(round));
    let candidates = found(table, filter, statement.args, now);
    let keys = candidates.difference(locked);
    assert(holds_jobs(table));
    vstd::set_lib::lemma_set_subset_finite(table.dom(), keys);
    lemma_search_finds(db, round, search, now);
    lemma_least(keys);
    match least(keys) {
        Some(batch) => {
            let row = table[batch];
            lemma_assigned_to(row, set, statement.args, now, 0);
            lemma_assigned_to(row, set, statement.args, now, 1);
            lemma_assigned_to(row, set, statement.args, now, 2);
            lemma_assigned_to(row, set, statement.args, now, 3);
            let columns = seq![
                Column::Status,
                Column::Attempts,
                Column::UpdatedAt,
                Column::ProcessingStartedAt,
            ];
            assert(columns =~= set.map_values(|assignment: Assignment| assignment.column));
            lemma_assigned_frame(row, set, statement.args, now, columns);
            let after = run(db, statement, locked, now)->Some_0;
            assert(keys.contains(batch) && candidates.contains(batch));
            assert(after.table(table_of(round)).dom() =~= table.dom());
            assert forall|other: int| #[trigger]
                search.allows(db, round, other, now) && !locked.contains(other) implies batch
                <= other by {
                assert(candidates.contains(other) && keys.contains(other));
            }
        },
        None => {
            assert forall|batch: int| #[trigger]
                search.allows(db, round, batch, now) implies locked.contains(batch) by {
                assert(candidates.contains(batch) && !keys.contains(batch));
            }
        },
    }
}

/// A worker is handed the row of the job that it took, if any, as it is from then on. The batch
/// number that is made of it is that of the job, unless the number is negative.
pub proof fn law_worker_is_handed_the_job_that_it_took(
    db: Database,
    round: AggregationRound,
    search: Search,
    locked: Set<int>,
    now: int,
    reply: Seq<ReplyRow>,
)
    requires
        db.well_formed(),
        is_answer(reply, db, search.statement(round), locked, now),
    ensures
        match search.taken(db, round, locked, now) {
            Some(batch) => {
                &&& run(db, search.statement(round), locked, now) matches Some(after)
                &&& reply.len() == 1
                &&& forall|column: Column| #[trigger]
                    reply[0][Output::Column(column)] == cell(after.job(round, batch), column)
                &&& reply[0][Output::Column(Column::L1BatchNumber)] == Datum::Int(batch)
                &&& 0 <= batch ==> (batch as i64) as u32 == batch
            },
            None => reply.len() == 0,
        },
{
    law_worker_gets_the_first_available_job(db, round, search, locked, now);
    match search.taken(db, round, locked, now) {
        Some(batch) => {
            let after = run(db, search.statement(round), locked, now)->Some_0;
            assert(holds_jobs(db.table(table_of(round))));
            assert(is_job(batch, db.job(round, batch)));
            assert(!seq![
                Column::Status,
                Column::Attempts,
                Column::UpdatedAt,
                Column::ProcessingStartedAt,
            ].contains(Column::L1BatchNumber));
            assert(cell(after.job(round, batch), Column::L1BatchNumber) == Datum::Int(batch));
            assert(reply[0] == whole_row(after.job(round, batch)));
        },
        None => {},
    }
}

/// A job that a worker took is free for others again once the timeout that they go by has
/// passed, and not before.
pub proof fn law_taken_job_is_free_after_the_timeout(
    db: Database,
    round: AggregationRound,
    search: Search,
    locked: Set<int>,
    now: int,
    next: Search,
    later: int,
)
    requires
        db.well_formed(),
        search.taken(db, round, locked, now) is Some,
    ensures
        ({
            let batch = search.taken(db, round, locked, now)->Some_0;
            let after = run(db, search.statement(round), locked, now)->Some_0;
            next.allows(after, round, batch, later) <==> batch <= next.last_l1_batch_to_process
                && now + next.processing_timeout.microseconds < later
        }),
{
    law_worker_gets_the_first_available_job(db, round, search, locked, now);
    law_statuses_are_distinct(JobStatus::InProgress, JobStatus::Queued);
    law_statuses_are_distinct(JobStatus::InProgress, JobStatus::Failed);
    let batch = search.taken(db, round, locked, now)->Some_0;
    let after = run(db, search.statement(round), locked, now)->Some_0;
    assert(after.has_job(round, batch));
}

/// A job that waits, was skipped or succeeded is not taken by any worker.
pub proof fn law_waiting_and_finished_jobs_are_not_taken(
    db: Database,
    round: AggregationRound,
    batch: int,
    status: JobStatus,
    search: Search,
    now: int,
)
    requires
        has_status(db.job(round, batch), status),
        status == JobStatus::WaitingForArtifacts || status == JobStatus::WaitingForProofs || status
            == JobStatus::Successful || status == JobStatus::Skipped,
    ensures
        !search.allows(db, round, batch, now),
{
    law_statuses_are_distinct(status, JobStatus::Queued);
    law_statuses_are_distinct(status, JobStatus::InProgress);
    law_statuses_are_distinct(status, JobStatus::Failed);
}

} // verus!
