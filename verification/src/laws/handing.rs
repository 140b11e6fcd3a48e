//! What is made of the replies, in terms of what they hold.
use vstd::prelude::*;

use crate::laws::claiming::law_worker_is_handed_the_job_that_it_took;
use crate::laws::common::Search;
use crate::meaning::{is_answer, Database, Datum, ReplyRow};
use crate::query::ArgView;
use crate::replies::{count_of, counts, reported_batch, ClaimedJob, ReplyError};
use crate::sql::{Column, Output};
use crate::statements::proofs_statement;
use crate::text::{decimal, signed_decimal};
use crate::types::{AggregationRound, JobStatus, L1BatchNumber};

verus! {

/// The block number of a claimed job.
pub open spec fn block_number_of(job: ClaimedJob) -> L1BatchNumber {
    match job {
        ClaimedJob::LeafAggregation { block_number, .. } => block_number,
        ClaimedJob::NodeAggregation { block_number, .. } => block_number,
        ClaimedJob::Scheduler { block_number } => block_number,
    }
}

/// A claimed job is one for its block number: the proofs that it asks for are those of that batch,
/// for the round before its own.
pub proof fn law_claimed_job_is_for_its_block_number(job: ClaimedJob)
    ensures
        job.batch() == block_number_of(job),
        proofs_statement(job.batch(), job.proofs_round()).args =~= seq![
            ArgView::Int8(block_number_of(job).0 as i64),
            ArgView::Int8(
                match job {
                    ClaimedJob::LeafAggregation { .. } => 0,
                    ClaimedJob::NodeAggregation { .. } => 1,
                    ClaimedJob::Scheduler { .. } => 2,
                },
            ),
        ],
        job.round() == match job {
            ClaimedJob::LeafAggregation { .. } => AggregationRound::LeafAggregation,
            ClaimedJob::NodeAggregation { .. } => AggregationRound::NodeAggregation,
            ClaimedJob::Scheduler { .. } => AggregationRound::Scheduler,
        },
{
}

/// The number of a batch keeps the low half of the number that the database gives, and all of it
/// where it is one of a batch. Numbers of batches are sent as they are.
pub proof fn law_batch_numbers_are_kept(number: i64, block_number: L1BatchNumber)
    ensures
        (number as u32) as i64 == number & 0xffff_ffff,
        0 <= number <= u32::MAX ==> number as u32 == number,
        block_number.0 as i64 == block_number.0,
        ((block_number.0 as i64) as u32) == block_number.0,
{
    assert((number as u32) as i64 == number & 0xffff_ffff) by (bit_vector);
}

/// The job that a worker is handed, with the proofs that it asks for, is for the batch that the
/// worker took: the number in the row that the claim returned is the block number of the job, and
/// the first argument of the statement that looks for its proofs.
pub proof fn law_claimed_job_is_for_the_batch_of_its_row(
    db: Database,
    round: AggregationRound,
    search: Search,
    locked: Set<int>,
    now: int,
    reply: Seq<ReplyRow>,
    l1_batch_number: i64,
    job: ClaimedJob,
)
    requires
        db.well_formed(),
        is_answer(reply, db, search.statement(round), locked, now),
        reply.len() > 0,
        reply[0][Output::Column(Column::L1BatchNumber)] == Datum::Int(l1_batch_number as int),
        0 <= l1_batch_number,
        block_number_of(job) == L1BatchNumber(l1_batch_number as u32),
    ensures
        search.taken(db, round, locked, now) == Some(l1_batch_number as int),
        job.batch().0 == l1_batch_number,
        proofs_statement(job.batch(), job.proofs_round()).args[0] == ArgView::Int8(l1_batch_number),
{
    law_worker_is_handed_the_job_that_it_took(db, round, search, locked, now, reply);
    law_claimed_job_is_for_its_block_number(job);
}

/// A claimed job needs as many proofs as its row says, the scheduler job exactly one, and any other
/// number is an error that gives the batch, the number found and the number expected.
pub proof fn law_claimed_job_needs_the_number_in_its_row(job: ClaimedJob, found: usize)
    ensures
        match job {
            ClaimedJob::LeafAggregation { block_number, number_of_basic_circuits } => {
                &&& job.proof_count() == number_of_basic_circuits as usize
                &&& job.wrong_proof_count(found) == (ReplyError::BasicProofCount {
                    block_number,
                    found,
                    expected: number_of_basic_circuits,
                })
            },
            ClaimedJob::NodeAggregation { block_number, number_of_leaf_circuits } => {
                &&& job.proof_count() == number_of_leaf_circuits as usize
                &&& job.wrong_proof_count(found) == (ReplyError::LeafProofCount {
                    block_number,
                    found,
                    expected: number_of_leaf_circuits,
                })
            },
            ClaimedJob::Scheduler { block_number } => {
                &&& job.proof_count() == 1
                &&& job.wrong_proof_count(found) == (ReplyError::NodeProofCount {
                    block_number,
                    found,
                })
            },
        },
{
}

/// The errors in words.
pub proof fn law_errors_say_what_is_wrong(error: ReplyError)
    ensures
        error.text() == match error {
            ReplyError::NoProofResult => "prove_job with `successful` status has no result"@,
            ReplyError::NoLeafCircuitCount =>
                "number_of_leaf_circuits is not found in a `queued` `node_aggregation_witness_jobs` job"@,
            ReplyError::BasicProofCount { block_number, found, expected } =>
                "leaf_aggregation_witness_job for l1 batch "@ + decimal(block_number.0 as nat)
                + " is in status `queued`, but there are only "@ + decimal(found as nat)
                + " computed basic proofs, which is different from expected "@ + signed_decimal(
                expected as int,
            ),
            ReplyError::LeafProofCount { block_number, found, expected } =>
                "node_aggregation_witness_job for l1 batch "@ + decimal(block_number.0 as nat)
                + " is in status `queued`, but there are only "@ + decimal(found as nat)
                + " computed leaf proofs, which is different from expected "@ + signed_decimal(
                expected as int,
            ),
            ReplyError::NodeProofCount { block_number, found } => "scheduler_job for l1 batch "@
                + decimal(block_number.0 as nat) + " is in status `queued`, but there is "@
                + decimal(found as nat)
                + " computed node proofs. We expect exactly one node proof."@,
            ReplyError::NoBlobUrl => "a job whose blobs may be cleaned has no blob url"@,
        },
{
}

/// The batch that is reported is the one that the database gives, or zero where it gives none.
pub proof fn law_given_batch_is_reported(number: i64)
    ensures
        reported_batch(None) == L1BatchNumber(0),
        reported_batch(Some(number)) == L1BatchNumber(number as u32),
        0 <= number <= u32::MAX ==> reported_batch(Some(number)).0 == number,
{
}

/// The number of jobs with a status is the one in the last row of the status, or zero where there is
/// no such row.
pub proof fn law_last_row_of_a_status_counts(
    rows: Seq<(String, i64)>,
    status: JobStatus,
    i: int,
)
    requires
        -1 <= i < rows.len(),
        i >= 0 ==> rows[i].0@ == status.text(),
        forall|j: int| i < j < rows.len() ==> (#[trigger] rows[j]).0@ != status.text(),
    ensures
        count_of(counts(rows), status) == if i >= 0 {
            rows[i].1 as usize
        } else {
            0
        },
    decreases rows.len(),
{
    if rows.len() > 0 {
        let rest = rows.drop_last();
        assert(rows.last() == rows[rows.len() - 1]);
        if i < rows.len() - 1 {
            assert forall|j: int| i < j < rest.len() implies (#[trigger] rest[j]).0@
                != status.text() by {
                assert(rest[j] == rows[j]);
            }
            law_last_row_of_a_status_counts(rest, status, i);
            assert(rows[rows.len() - 1].0@ != status.text());
        }
    }
}

} // verus!
