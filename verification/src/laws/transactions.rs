//! What is left of an operation that does not come to its end.
use vstd::prelude::*;

use crate::laws::common::{lemma_insert, same_but_for_new};
use crate::laws::marking::{
    law_failed_job_gets_its_error, law_skipped_job_has_its_proof_skipped, lemma_failure_steps,
};
use crate::laws::pipeline::{is_created_job, lemma_created_rows};
use crate::laws::tables::law_rounds_have_their_own_tables;
use crate::meaning::{all_or_nothing, has_status, left_after, run, session, take_all, Database};
use crate::query::StepView;
use crate::sql::{table_of, TableName};
use crate::statements::{
    after_failure_steps, create_steps, failure_statement, failure_steps, leaf_job_statement,
    node_job_statement, scheduler_job_statement, skip_steps,
};
use crate::types::{AggregationRound, JobStatus, L1BatchNumber, TimeOfDay};

verus! {

/// Steps that are all taken see the database that they leave to themselves.
pub(crate) proof fn lemma_session_take_all(
    db: Database,
    steps: Seq<StepView>,
    locked: Set<int>,
    now: int,
)
    ensures
        match take_all(db, steps, locked, now) {
            Some(after) => {
                &&& !session(db, steps, locked, now).refused
                &&& session(db, steps, locked, now).seen == after
            },
            None => session(db, steps, locked, now).refused,
        },
    decreases steps.len(),
{
    if steps.len() > 0 {
        lemma_session_take_all(db, steps.drop_last(), locked, now);
    }
}

/// Steps that begin a transaction and do not commit it leave everything as it was.
proof fn lemma_open_transaction(
    db: Database,
    steps: Seq<StepView>,
    locked: Set<int>,
    now: int,
)
    requires
        steps.len() > 0,
        steps[0] is Begin,
        forall|i: int| 0 <= i < steps.len() ==> !(#[trigger] steps[i] is Commit),
    ensures
        session(db, steps, locked, now).before == Some(db),
    decreases steps.len(),
{
    let rest = steps.drop_last();
    if steps.len() == 1 {
        assert(session(db, rest, locked, now).seen == db);
        assert(steps.last() is Begin);
    } else {
        assert forall|i: int| 0 <= i < rest.len() implies !(#[trigger] rest[i] is Commit) by {
            assert(rest[i] == steps[i]);
        }
        lemma_open_transaction(db, rest, locked, now);
        assert(!(steps[steps.len() - 1] is Commit));
    }
}

/// Steps that begin a transaction and commit it at their end, and not before, change the database
/// as a whole or not at all.
pub proof fn law_transaction_is_all_or_nothing(steps: Seq<StepView>)
    requires
        steps.len() > 1,
        steps[0] is Begin,
        steps.last() is Commit,
        forall|i: int| 0 <= i < steps.len() - 1 ==> !(#[trigger] steps[i] is Commit),
    ensures
        all_or_nothing(steps),
{
    assert forall|db: Database, n: int, locked: Set<int>, now: int|
        0 <= n <= steps.len() implies #[trigger] left_after(db, steps, n, locked, now) == if n
        < steps.len() {
        db
    } else {
        match take_all(db, steps, locked, now) {
            Some(after) => after,
            None => db,
        }
    } by {
        if n == 0 {
        } else if n < steps.len() {
            lemma_open_transaction(db, steps.take(n), locked, now);
        } else {
            assert(steps.take(n) =~= steps);
            lemma_open_transaction(db, steps.drop_last(), locked, now);
            lemma_session_take_all(db, steps, locked, now);
        }
    }
}

/// Skipping a job is all or nothing: where it does not come to its end, neither the job nor the
/// proof of its batch is skipped.
pub proof fn law_skipping_is_all_or_nothing(block_number: L1BatchNumber, round: AggregationRound)
    ensures
        all_or_nothing(skip_steps(block_number, round)),
{
    law_transaction_is_all_or_nothing(skip_steps(block_number, round));
}

/// Marking a job as failed is all or nothing: where it does not come to its end, the job is not
/// marked and the proof of its batch is not skipped.
pub proof fn law_failing_is_all_or_nothing(
    block_number: L1BatchNumber,
    round: AggregationRound,
    time_taken: TimeOfDay,
    error: Seq<char>,
    attempts: i32,
    max_attempts: u32,
)
    ensures
        all_or_nothing(
            failure_steps(block_number, round, time_taken, error) + after_failure_steps(
                block_number,
                attempts,
                max_attempts,
            ),
        ),
{
    law_transaction_is_all_or_nothing(
        failure_steps(block_number, round, time_taken, error) + after_failure_steps(
            block_number,
            attempts,
            max_attempts,
        ),
    );
}

/// Skipping a job leaves both changes or neither: when all steps were taken, the job has its new
/// status and the proof of its batch is skipped; when they stopped before, nothing has changed.
pub proof fn law_skipping_leaves_both_changes_or_neither(
    db: Database,
    block_number: L1BatchNumber,
    round: AggregationRound,
    n: int,
    locked: Set<int>,
    now: int,
)
    requires
        db.well_formed(),
        db.has_job(round, block_number.0 as int),
        0 <= n <= skip_steps(block_number, round).len(),
    ensures
        ({
            let steps = skip_steps(block_number, round);
            let after = left_after(db, steps, n, locked, now);
            if n < steps.len() {
                after == db
            } else {
                &&& has_status(after.job(round, block_number.0 as int), JobStatus::Skipped)
                &&& after.skipped_proofs == db.skipped_proofs.insert(block_number.0 as int)
            }
        }),
{
    law_skipping_is_all_or_nothing(block_number, round);
    law_skipped_job_has_its_proof_skipped(db, block_number, round, locked, now);
    let after = take_all(db, skip_steps(block_number, round), locked, now)->Some_0;
    let unskipped = Database { skipped_proofs: db.skipped_proofs, ..after };
    assert(unskipped.job(round, block_number.0 as int) == after.job(round, block_number.0 as int));
}

/// Marking a job as failed leaves both changes or neither: when all steps were taken, the job has
/// its new status and, where it has no attempts left, the proof of its batch is skipped; when they
/// stopped before, nothing has changed.
pub proof fn law_failing_leaves_both_changes_or_neither(
    db: Database,
    block_number: L1BatchNumber,
    round: AggregationRound,
    time_taken: TimeOfDay,
    error: Seq<char>,
    attempts: i32,
    max_attempts: u32,
    n: int,
    locked: Set<int>,
    now: int,
)
    requires
        db.well_formed(),
        db.has_job(round, block_number.0 as int),
        0 <= n <= (failure_steps(block_number, round, time_taken, error) + after_failure_steps(
            block_number,
            attempts,
            max_attempts,
        )).len(),
    ensures
        ({
            let steps = failure_steps(block_number, round, time_taken, error)
                + after_failure_steps(block_number, attempts, max_attempts);
            let after = left_after(db, steps, n, locked, now);
            if n < steps.len() {
                after == db
            } else {
                &&& has_status(after.job(round, block_number.0 as int), JobStatus::Failed)
                &&& after.skipped_proofs == if attempts as u32 >= max_attempts {
                    db.skipped_proofs.insert(block_number.0 as int)
                } else {
                    db.skipped_proofs
                }
            }
        }),
{
    law_failing_is_all_or_nothing(
        block_number,
        round,
        time_taken,
        error,
        attempts,
        max_attempts,
    );
    lemma_failure_steps(
        db,
        block_number,
        round,
        time_taken,
        error,
        attempts,
        max_attempts,
        locked,
        now,
    );
    law_failed_job_gets_its_error(db, block_number, round, time_taken, error, locked, now);
    let failed = run(
        db,
        failure_statement(block_number, round, time_taken, error),
        locked,
        now,
    )->Some_0;
    let skipped = failed.with_skipped_proof(block_number);
    assert(skipped.job(round, block_number.0 as int) == failed.job(round, block_number.0 as int));
}

/// Whether creating the aggregation jobs of the batch adds the one of the round when it stops after
/// `n` statements: the jobs are added one by one, up to one that is there already.
pub open spec fn adds_job(db: Database, batch: int, round: AggregationRound, n: int) -> bool {
    let leaf_is_new = !db.has_job(AggregationRound::LeafAggregation, batch);
    let node_is_new = !db.has_job(AggregationRound::NodeAggregation, batch);
    let scheduler_is_new = !db.has_job(AggregationRound::Scheduler, batch);
    match round {
        AggregationRound::BasicCircuits => false,
        AggregationRound::LeafAggregation => n >= 1 && leaf_is_new,
        AggregationRound::NodeAggregation => n >= 2 && leaf_is_new && node_is_new,
        AggregationRound::Scheduler => n >= 3 && leaf_is_new && node_is_new && scheduler_is_new,
    }
}

/// Creating the aggregation jobs of a batch is not all or nothing: where it stops, or meets a job
/// that is there already and is refused, the jobs that it added before that stay, and nothing else
/// has changed.
pub proof fn law_creation_keeps_the_jobs_that_it_added(
    db: Database,
    block_number: L1BatchNumber,
    number_of_basic_circuits: usize,
    basic_circuits_blob_url: Seq<char>,
    basic_circuits_inputs_blob_url: Seq<char>,
    scheduler_witness_blob_url: Seq<char>,
    n: int,
    locked: Set<int>,
    now: int,
    round: AggregationRound,
    other: int,
)
    requires
        db.well_formed(),
        0 <= n <= 3,
    ensures
        ({
            let batch = block_number.0 as int;
            let steps = create_steps(
                block_number,
                number_of_basic_circuits,
                basic_circuits_blob_url,
                basic_circuits_inputs_blob_url,
                scheduler_witness_blob_url,
            );
            let after = left_after(db, steps, n, locked, now);
            &&& after.well_formed()
            &&& after.skipped_proofs == db.skipped_proofs
            &&& after.table(TableName::ProverJobs) == db.table(TableName::ProverJobs)
            &&& after.has_job(round, other) <==> db.has_job(round, other) || other == batch
                && adds_job(db, batch, round, n)
            &&& db.has_job(round, other) ==> after.job(round, other) == db.job(round, other)
            &&& adds_job(db, batch, round, n) ==> is_created_job(
                after.job(round, batch),
                round,
                number_of_basic_circuits,
                basic_circuits_blob_url,
                basic_circuits_inputs_blob_url,
                scheduler_witness_blob_url,
                now,
            )
        }),
{
    let batch = block_number.0 as int;
    let first = leaf_job_statement(
        block_number,
        number_of_basic_circuits,
        basic_circuits_blob_url,
        basic_circuits_inputs_blob_url,
    );
    let second = node_job_statement(block_number);
    let third = scheduler_job_statement(block_number, scheduler_witness_blob_url);
    let steps = create_steps(
        block_number,
        number_of_basic_circuits,
        basic_circuits_blob_url,
        basic_circuits_inputs_blob_url,
        scheduler_witness_blob_url,
    );
    let leaf = AggregationRound::LeafAggregation;
    let node = AggregationRound::NodeAggregation;
    let scheduler = AggregationRound::Scheduler;
    let s0 = session(db, steps.take(0), locked, now);
    let s1 = session(db, steps.take(1), locked, now);
    let s2 = session(db, steps.take(2), locked, now);
    let s3 = session(db, steps.take(3), locked, now);
    assert(steps.take(1).drop_last() =~= steps.take(0));
    assert(steps.take(2).drop_last() =~= steps.take(1));
    assert(steps.take(3).drop_last() =~= steps.take(2));
    assert(s0.seen == db && s0.before is None && !s0.refused);
    assert(s1 == s0.after(StepView::Run(first), locked, now));
    assert(s2 == s1.after(StepView::Run(second), locked, now));
    assert(s3 == s2.after(StepView::Run(third), locked, now));
    if round != AggregationRound::BasicCircuits {
        lemma_created_rows(
            db,
            block_number,
            number_of_basic_circuits,
            basic_circuits_blob_url,
            basic_circuits_inputs_blob_url,
            scheduler_witness_blob_url,
            round,
            now,
        );
    }
    lemma_insert(db, leaf, first, block_number, locked, now);
    if !db.has_job(leaf, batch) {
        let one = s1.seen;
        lemma_other_tables(db, one, leaf, batch);
        lemma_insert(one, node, second, block_number, locked, now);
        if !db.has_job(node, batch) {
            let two = s2.seen;
            lemma_other_tables(one, two, node, batch);
            lemma_insert(two, scheduler, third, block_number, locked, now);
            if !db.has_job(scheduler, batch) {
                lemma_other_tables(two, s3.seen, scheduler, batch);
            }
        }
    }
    assert(n == 0 || n == 1 || n == 2 || n == 3);
}

/// Where a job was added to one table, the others are as they were.
proof fn lemma_other_tables(db: Database, after: Database, round: AggregationRound, batch: int)
    requires
        same_but_for_new(db, after, round, batch),
    ensures
        after.table(TableName::ProverJobs) == db.table(TableName::ProverJobs),
        forall|other: AggregationRound|
            other != round ==> #[trigger] after.table(table_of(other)) == db.table(table_of(other)),
        forall|other: AggregationRound, key: int| #[trigger]
            after.has_job(other, key) <==> db.has_job(other, key) || (other == round && key
                == batch),
        forall|other: AggregationRound, key: int|
            db.has_job(other, key) ==> #[trigger] after.job(other, key) == db.job(other, key),
{
    assert forall|other: AggregationRound| other != round implies #[trigger] after.table(
        table_of(other),
    ) == db.table(table_of(other)) by {
        law_rounds_have_their_own_tables(other, round);
    }
    assert forall|other: AggregationRound, key: int| #[trigger]
        after.has_job(other, key) <==> db.has_job(other, key) || (other == round && key
            == batch) by {
        if other != round {
            assert(after.table(table_of(other)) == db.table(table_of(other)));
        }
    }
    assert forall|other: AggregationRound, key: int|
        db.has_job(other, key) implies #[trigger] after.job(other, key) == db.job(other, key) by {
        if other != round {
            assert(after.table(table_of(other)) == db.table(table_of(other)));
        }
    }
}

} // verus!
