//! How jobs get from one status to another.
use vstd::prelude::*;

use crate::laws::common::{
    law_statuses_are_distinct, lemma_assigned_frame, lemma_assigned_to, lemma_batch_filter,
    lemma_not_assigned_to, lemma_take_all_concat, lemma_take_one, lemma_update_of_one_batch,
    same_but_for, same_row_but_for, Search,
};
use crate::meaning::{
    cell, found, has_status, is_answer, meets, returns_column, run, take_all, Database, Datum,
    ReplyRow,
};
use crate::query::StepView;
use crate::sql::{table_of, Assignment, Column, Output};
use crate::statements::{
    after_failure_steps, failure_statement, failure_steps, skip_steps, status_statement,
    success_statement,
};
use crate::types::{AggregationRound, JobStatus, L1BatchNumber, TimeOfDay};

verus! {

/// Whether the job of the round for the batch got the status at the time `now`, with nothing
/// else changed but the columns in `others`.
pub open spec fn got_status(
    db: Database,
    after: Database,
    round: AggregationRound,
    block_number: L1BatchNumber,
    status: JobStatus,
    others: Seq<Column>,
    now: int,
) -> bool {
    let batch = block_number.0 as int;
    let row = after.job(round, batch);
    &&& same_but_for(db, after, round, batch)
    &&& has_status(row, status)
    &&& cell(row, Column::UpdatedAt) == Datum::Time(now)
    &&& same_row_but_for(
        db.job(round, batch),
        row,
        seq![Column::Status, Column::UpdatedAt] + others,
    )
}

/// Marking a job as queued or waiting for proofs gives it that status, and changes nothing else;
/// where there is no such job, nothing changes.
pub proof fn law_job_gets_its_status(
    db: Database,
    block_number: L1BatchNumber,
    round: AggregationRound,
    status: JobStatus,
    locked: Set<int>,
    now: int,
)
    requires
        db.well_formed(),
    ensures
        run(db, status_statement(block_number, round, status), locked, now) matches Some(after) && {
            &&& db.has_job(round, block_number.0 as int) ==> got_status(
                db,
                after,
                round,
                block_number,
                status,
                seq![],
                now,
            )
            &&& !db.has_job(round, block_number.0 as int) ==> after == db
        },
{
    let statement = status_statement(block_number, round, status);
    let set = statement.query->Update_set;
    let filter = statement.query->Update_filter;
    let batch = block_number.0 as int;
    assert forall|key: int| db.has_job(round, key) implies (meets(
        db.job(round, key),
        filter,
        statement.args,
        now,
    ) <==> key == batch) by {
        lemma_batch_filter(db, round, filter, statement.args, 1, block_number, key, now);
    }
    lemma_update_of_one_batch(db, round, statement, batch, locked, now);
    if db.has_job(round, batch) {
        let row = db.job(round, batch);
        lemma_assigned_to(row, set, statement.args, now, 0);
        lemma_assigned_to(row, set, statement.args, now, 1);
        let columns = seq![Column::Status, Column::UpdatedAt] + seq![];
        assert(columns =~= set.map_values(|assignment: Assignment| assignment.column));
        lemma_assigned_frame(row, set, statement.args, now, columns);
    }
}

/// Marking a job as successful gives it that status and the time that it took, and changes
/// nothing else; where there is no such job, nothing changes.
pub proof fn law_successful_job_gets_its_time(
    db: Database,
    block_number: L1BatchNumber,
    round: AggregationRound,
    time_taken: TimeOfDay,
    locked: Set<int>,
    now: int,
)
    requires
        db.well_formed(),
    ensures
        run(db, success_statement(block_number, round, time_taken), locked, now) matches Some(after)
            && {
            &&& db.has_job(round, block_number.0 as int) ==> {
                &&& got_status(
                    db,
                    after,
                    round,
                    block_number,
                    JobStatus::Successful,
                    seq![Column::TimeTaken],
                    now,
                )
                &&& cell(after.job(round, block_number.0 as int), Column::TimeTaken)
                    == Datum::TimeOfDay(time_taken)
            }
            &&& !db.has_job(round, block_number.0 as int) ==> after == db
        },
{
    let statement = success_statement(block_number, round, time_taken);
    let set = statement.query->Update_set;
    let filter = statement.query->Update_filter;
    let batch = block_number.0 as int;
    assert forall|key: int| db.has_job(round, key) implies (meets(
        db.job(round, key),
        filter,
        statement.args,
        now,
    ) <==> key == batch) by {
        lemma_batch_filter(db, round, filter, statement.args, 2, block_number, key, now);
    }
    lemma_update_of_one_batch(db, round, statement, batch, locked, now);
    if db.has_job(round, batch) {
        let row = db.job(round, batch);
        lemma_assigned_to(row, set, statement.args, now, 0);
        lemma_assigned_to(row, set, statement.args, now, 1);
        lemma_assigned_to(row, set, statement.args, now, 2);
        let columns = seq![Column::Status, Column::UpdatedAt] + seq![Column::TimeTaken];
        assert(columns =~= set.map_values(|assignment: Assignment| assignment.column));
        lemma_assigned_frame(row, set, statement.args, now, columns);
    }
}

/// A job that is queued may be taken by any worker that goes as far as its batch.
pub proof fn law_queued_job_may_be_taken(
    db: Database,
    block_number: L1BatchNumber,
    round: AggregationRound,
    locked: Set<int>,
    now: int,
    search: Search,
    later: int,
)
    requires
        db.well_formed(),
        db.has_job(round, block_number.0 as int),
    ensures
        run(db, status_statement(block_number, round, JobStatus::Queued), locked, now) matches Some(
            after,
        ) && (search.allows(after, round, block_number.0 as int, later) <==> block_number.0
            <= search.last_l1_batch_to_process),
{
    law_job_gets_its_status(db, block_number, round, JobStatus::Queued, locked, now);
    let after = run(
        db,
        status_statement(block_number, round, JobStatus::Queued),
        locked,
        now,
    )->Some_0;
    assert(after.has_job(round, block_number.0 as int));
}

/// Marking a job as failed gives it that status, the time that it took and the error, and changes
/// nothing else; where there is no such job, nothing changes.
pub proof fn law_failed_job_gets_its_error(
    db: Database,
    block_number: L1BatchNumber,
    round: AggregationRound,
    time_taken: TimeOfDay,
    error: Seq<char>,
    locked: Set<int>,
    now: int,
)
    requires
        db.well_formed(),
    ensures
        run(
            db,
            failure_statement(block_number, round, time_taken, error),
            locked,
            now,
        ) matches Some(after) && {
            let batch = block_number.0 as int;
            &&& db.has_job(round, batch) ==> {
                &&& got_status(
                    db,
                    after,
                    round,
                    block_number,
                    JobStatus::Failed,
                    seq![Column::TimeTaken, Column::Error],
                    now,
                )
                &&& cell(after.job(round, batch), Column::TimeTaken) == Datum::TimeOfDay(time_taken)
                &&& cell(after.job(round, batch), Column::Error) == Datum::Text(error)
            }
            &&& !db.has_job(round, batch) ==> after == db
        },
{
    let statement = failure_statement(block_number, round, time_taken, error);
    let set = statement.query->Update_set;
    let filter = statement.query->Update_filter;
    let batch = block_number.0 as int;
    assert forall|key: int| db.has_job(round, key) implies (meets(
        db.job(round, key),
        filter,
        statement.args,
        now,
    ) <==> key == batch) by {
        lemma_batch_filter(db, round, filter, statement.args, 3, block_number, key, now);
    }
    lemma_update_of_one_batch(db, round, statement, batch, locked, now);
    if db.has_job(round, batch) {
        let row = db.job(round, batch);
        lemma_assigned_to(row, set, statement.args, now, 0);
        lemma_assigned_to(row, set, statement.args, now, 1);
        lemma_assigned_to(row, set, statement.args, now, 2);
        lemma_assigned_to(row, set, statement.args, now, 3);
        let columns = seq![Column::Status, Column::UpdatedAt] + seq![
            Column::TimeTaken,
            Column::Error,
        ];
        assert(columns =~= set.map_values(|assignment: Assignment| assignment.column));
        lemma_assigned_frame(row, set, statement.args, now, columns);
    }
}

/// The reply to marking a job as failed: the number of attempts that the job has; nothing, where
/// there is no such job.
pub proof fn law_failed_job_hands_back_its_attempts(
    db: Database,
    block_number: L1BatchNumber,
    round: AggregationRound,
    time_taken: TimeOfDay,
    error: Seq<char>,
    locked: Set<int>,
    now: int,
    reply: Seq<ReplyRow>,
)
    requires
        db.well_formed(),
        is_answer(
            reply,
            db,
            failure_statement(block_number, round, time_taken, error),
            locked,
            now,
        ),
    ensures
        if db.has_job(round, block_number.0 as int) {
            &&& reply.len() == 1
            &&& reply[0][Output::Column(Column::Attempts)] == cell(
                db.job(round, block_number.0 as int),
                Column::Attempts,
            )
        } else {
            reply.len() == 0
        },
{
    let statement = failure_statement(block_number, round, time_taken, error);
    let set = statement.query->Update_set;
    let filter = statement.query->Update_filter;
    let batch = block_number.0 as int;
    let table = db.table(table_of(round));
    let rows = found(table, filter, statement.args, now);
    assert forall|key: int| #[trigger] rows.contains(key) <==> key == batch && db.has_job(
        round,
        key,
    ) by {
        if db.has_job(round, key) {
            lemma_batch_filter(db, round, filter, statement.args, 3, block_number, key, now);
        }
    }
    let keys = choose|keys: Seq<int>|
        returns_column(keys, reply, table, statement, Column::Attempts, now);
    if keys.len() > 0 {
        assert(keys.contains(keys[0]));
    }
    if keys.len() > 1 {
        assert(keys.contains(keys[1]));
    }
    if db.has_job(round, batch) {
        assert(rows.contains(batch));
        assert(keys.contains(batch));
        lemma_not_assigned_to(table[batch], set, statement.args, now, Column::Attempts);
    }
}

/// A job that failed is tried again, or else the proof of its batch is skipped: a worker that goes
/// as far as its batch may take the job exactly if it has attempts left, and the proof is skipped
/// exactly if it has none, by the number of attempts that the database hands back. The database keeps the limit on attempts as a signed number, so this is about limits that fit.
pub proof fn law_failed_job_is_tried_again_or_its_proof_is_skipped(
    db: Database,
    block_number: L1BatchNumber,
    round: AggregationRound,
    time_taken: TimeOfDay,
    error: Seq<char>,
    reply: Seq<ReplyRow>,
    attempts: i32,
    locked: Set<int>,
    now: int,
    search: Search,
    later: int,
)
    requires
        db.well_formed(),
        db.has_job(round, block_number.0 as int),
        is_answer(
            reply,
            db,
            failure_statement(block_number, round, time_taken, error),
            locked,
            now,
        ),
        reply[0][Output::Column(Column::Attempts)] == Datum::Int(attempts as int),
        0 <= attempts,
        search.max_attempts <= i32::MAX,
    ensures
        take_all(
            db,
            failure_steps(block_number, round, time_taken, error) + after_failure_steps(
                block_number,
                attempts,
                search.max_attempts,
            ),
            locked,
            now,
        ) matches Some(after) && {
            let batch = block_number.0 as int;
            &&& has_status(after.job(round, batch), JobStatus::Failed)
            &&& search.allows(after, round, batch, later) <==> attempts < search.max_attempts
                && batch <= search.last_l1_batch_to_process
            &&& after.skipped_proofs == if attempts < search.max_attempts {
                db.skipped_proofs
            } else {
                db.skipped_proofs.insert(batch)
            }
        },
{
    law_failed_job_hands_back_its_attempts(
        db,
        block_number,
        round,
        time_taken,
        error,
        locked,
        now,
        reply,
    );
    let statement = failure_statement(block_number, round, time_taken, error);
    let batch = block_number.0 as int;
    lemma_failure_steps(
        db,
        block_number,
        round,
        time_taken,
        error,
        attempts,
        search.max_attempts,
        locked,
        now,
    );
    law_failed_job_gets_its_error(db, block_number, round, time_taken, error, locked, now);
    let failed = run(db, statement, locked, now)->Some_0;
    assert(failed.has_job(round, batch));
    let others = seq![Column::Status, Column::UpdatedAt] + seq![Column::TimeTaken, Column::Error];
    assert(!others.contains(Column::Attempts));
    assert(cell(failed.job(round, batch), Column::Attempts) == Datum::Int(attempts as int));
    law_statuses_are_distinct(JobStatus::Failed, JobStatus::Queued);
    law_statuses_are_distinct(JobStatus::Failed, JobStatus::InProgress);
    let skipped = failed.with_skipped_proof(block_number);
    assert(skipped.job(round, batch) == failed.job(round, batch));
}

/// What the steps that mark a job as failed come to: the job is marked, and the proof of its batch
/// is skipped where the job has no attempts left.
pub(crate) proof fn lemma_failure_steps(
    db: Database,
    block_number: L1BatchNumber,
    round: AggregationRound,
    time_taken: TimeOfDay,
    error: Seq<char>,
    attempts: i32,
    max_attempts: u32,
    locked: Set<int>,
    now: int,
)
    ensures
        take_all(
            db,
            failure_steps(block_number, round, time_taken, error) + after_failure_steps(
                block_number,
                attempts,
                max_attempts,
            ),
            locked,
            now,
        ) == match run(
            db,
            failure_statement(block_number, round, time_taken, error),
            locked,
            now,
        ) {
            Some(failed) => Some(
                if attempts as u32 >= max_attempts {
                    failed.with_skipped_proof(block_number)
                } else {
                    failed
                },
            ),
            None => None,
        },
{
    let first = failure_steps(block_number, round, time_taken, error);
    let statement = failure_statement(block_number, round, time_taken, error);
    let second = after_failure_steps(block_number, attempts, max_attempts);
    lemma_take_all_concat(db, first, second, locked, now);
    assert(first =~= seq![StepView::Begin] + seq![StepView::Run(statement)]);
    lemma_take_all_concat(
        db,
        seq![StepView::Begin],
        seq![StepView::Run(statement)],
        locked,
        now,
    );
    lemma_take_one(db, StepView::Begin, locked, now);
    lemma_take_one(db, StepView::Run(statement), locked, now);
    match run(db, statement, locked, now) {
        Some(failed) => {
            if attempts as u32 >= max_attempts {
                let skipped = failed.with_skipped_proof(block_number);
                assert(second =~= seq![StepView::SkipProof(block_number)] + seq![StepView::Commit]);
                lemma_take_all_concat(
                    failed,
                    seq![StepView::SkipProof(block_number)],
                    seq![StepView::Commit],
                    locked,
                    now,
                );
                lemma_take_one(failed, StepView::SkipProof(block_number), locked, now);
                lemma_take_one(skipped, StepView::Commit, locked, now);
            } else {
                lemma_take_one(failed, StepView::Commit, locked, now);
            }
        },
        None => {},
    }
}

/// Skipping a job skips the proof of its batch too, and changes nothing else.
pub proof fn law_skipped_job_has_its_proof_skipped(
    db: Database,
    block_number: L1BatchNumber,
    round: AggregationRound,
    locked: Set<int>,
    now: int,
)
    requires
        db.well_formed(),
    ensures
        take_all(db, skip_steps(block_number, round), locked, now) matches Some(after) && {
            &&& after.skipped_proofs == db.skipped_proofs.insert(block_number.0 as int)
            &&& db.has_job(round, block_number.0 as int) ==> got_status(
                db,
                Database { skipped_proofs: db.skipped_proofs, ..after },
                round,
                block_number,
                JobStatus::Skipped,
                seq![],
                now,
            )
            &&& !db.has_job(round, block_number.0 as int) ==> after == db.with_skipped_proof(
                block_number,
            )
        },
{
    let statement = status_statement(block_number, round, JobStatus::Skipped);
    let steps = skip_steps(block_number, round);
    assert(steps =~= seq![StepView::Begin] + (seq![StepView::Run(statement)] + (seq![
        StepView::SkipProof(block_number),
    ] + seq![StepView::Commit])));
    law_job_gets_its_status(db, block_number, round, JobStatus::Skipped, locked, now);
    let marked = run(db, statement, locked, now)->Some_0;
    let skipped = marked.with_skipped_proof(block_number);
    let third = seq![StepView::SkipProof(block_number)];
    let fourth = seq![StepView::Commit];
    lemma_take_all_concat(
        db,
        seq![StepView::Begin],
        seq![StepView::Run(statement)] + (third + fourth),
        locked,
        now,
    );
    lemma_take_all_concat(db, seq![StepView::Run(statement)], third + fourth, locked, now);
    lemma_take_all_concat(marked, third, fourth, locked, now);
    lemma_take_one(db, StepView::Begin, locked, now);
    lemma_take_one(db, StepView::Run(statement), locked, now);
    lemma_take_one(marked, StepView::SkipProof(block_number), locked, now);
    lemma_take_one(skipped, StepView::Commit, locked, now);
    let unskipped = Database { skipped_proofs: db.skipped_proofs, ..skipped };
    assert(unskipped.tables == marked.tables);
    assert(marked.skipped_proofs == db.skipped_proofs);
    assert(unskipped =~= marked);
}

} // verus!
