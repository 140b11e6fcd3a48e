//! What the operations on witness jobs make of the replies of the database.
use vstd::hash_map::StringHashMap;
use vstd::prelude::*;

use crate::dal::WitnessGeneratorDal;
use crate::query::Statement;
use crate::statements::proofs_statement;
use crate::text::{decimal_text, signed_decimal_text};
use crate::types::{
    AggregationRound, JobCountStatistics, JobStatus, L1BatchNumber, WitnessGeneratorJobMetadata,
};

verus! {

/// A reply that the database must not give.
#[derive(Clone, Copy, Debug, PartialEq, Eq, Structural)]
pub enum ReplyError {
    /// A finished prover job has no result.
    NoProofResult,
    /// A node aggregation job was queued without its number of leaf circuits.
    NoLeafCircuitCount,
    /// A leaf aggregation job was queued before its proofs were there.
    BasicProofCount { block_number: L1BatchNumber, found: usize, expected: i64 },
    /// A node aggregation job was queued before its proofs were there.
    LeafProofCount { block_number: L1BatchNumber, found: usize, expected: i64 },
    /// A scheduler job was queued before its proof was there.
    NodeProofCount { block_number: L1BatchNumber, found: usize },
    /// A job whose blobs may be cleaned has no address of one of them.
    NoBlobUrl,
}

impl ReplyError {
    pub open spec fn text(self) -> Seq<char> {
        match self {
            ReplyError::NoProofResult => "prove_job with `successful` status has no result"@,
            ReplyError::NoLeafCircuitCount =>
                "number_of_leaf_circuits is not found in a `queued` `node_aggregation_witness_jobs` job"@,
            ReplyError::BasicProofCount { block_number, found, expected } =>
                "leaf_aggregation_witness_job for l1 batch "@
                + crate::text::decimal(block_number.0 as nat)
                + " is in status `queued`, but there are only "@
                + crate::text::decimal(found as nat)
                + " computed basic proofs, which is different from expected "@
                + crate::text::signed_decimal(expected as int),
            ReplyError::LeafProofCount { block_number, found, expected } =>
                "node_aggregation_witness_job for l1 batch "@
                + crate::text::decimal(block_number.0 as nat)
                + " is in status `queued`, but there are only "@
                + crate::text::decimal(found as nat)
                + " computed leaf proofs, which is different from expected "@
                + crate::text::signed_decimal(expected as int),
            ReplyError::NodeProofCount { block_number, found } => "scheduler_job for l1 batch "@
                + crate::text::decimal(block_number.0 as nat)
                + " is in status `queued`, but there is "@ + crate::text::decimal(found as nat)
                + " computed node proofs. We expect exactly one node proof."@,
            ReplyError::NoBlobUrl => "a job whose blobs may be cleaned has no blob url"@,
        }
    }

    /// The error in words.
    pub fn message(self) -> (text: String)
        ensures
            text@ == self.text(),
    {
        match self {
            ReplyError::NoProofResult => "prove_job with `successful` status has no result".to_string(),
            ReplyError::NoLeafCircuitCount =>
                "number_of_leaf_circuits is not found in a `queued` `node_aggregation_witness_jobs` job".to_string(),
            ReplyError::BasicProofCount { block_number, found, expected } => {
                let mut text = "leaf_aggregation_witness_job for l1 batch ".to_string();
                text.append(decimal_text(block_number.0 as u64).as_str());
                text.append(" is in status `queued`, but there are only ");
                text.append(decimal_text(found as u64).as_str());
                text.append(" computed basic proofs, which is different from expected ");
                text.append(signed_decimal_text(expected).as_str());
                text
            },
            ReplyError::LeafProofCount { block_number, found, expected } => {
                let mut text = "node_aggregation_witness_job for l1 batch ".to_string();
                text.append(decimal_text(block_number.0 as u64).as_str());
                text.append(" is in status `queued`, but there are only ");
                text.append(decimal_text(found as u64).as_str());
                text.append(" computed leaf proofs, which is different from expected ");
                text.append(signed_decimal_text(expected).as_str());
                text
            },
            ReplyError::NodeProofCount { block_number, found } => {
                let mut text = "scheduler_job for l1 batch ".to_string();
                text.append(decimal_text(block_number.0 as u64).as_str());
                text.append(" is in status `queued`, but there is ");
                text.append(decimal_text(found as u64).as_str());
                text.append(" computed node proofs. We expect exactly one node proof.");
                text
            },
            ReplyError::NoBlobUrl => "a job whose blobs may be cleaned has no blob url".to_string(),
        }
    }
}

/// A job that a worker took and that needs the proofs of the round before.
#[derive(Clone, Copy, Debug, PartialEq, Eq, Structural)]
pub enum ClaimedJob {
    LeafAggregation { block_number: L1BatchNumber, number_of_basic_circuits: i64 },
    NodeAggregation { block_number: L1BatchNumber, number_of_leaf_circuits: i64 },
    Scheduler { block_number: L1BatchNumber },
}

impl ClaimedJob {
    /// The batch of the job.
    pub open spec fn batch(self) -> L1BatchNumber {
        match self {
            ClaimedJob::LeafAggregation { block_number, .. } => block_number,
            ClaimedJob::NodeAggregation { block_number, .. } => block_number,
            ClaimedJob::Scheduler { block_number } => block_number,
        }
    }

    /// The round of the job.
    pub open spec fn round(self) -> AggregationRound {
        match self {
            ClaimedJob::LeafAggregation { .. } => AggregationRound::LeafAggregation,
            ClaimedJob::NodeAggregation { .. } => AggregationRound::NodeAggregation,
            ClaimedJob::Scheduler { .. } => AggregationRound::Scheduler,
        }
    }

    /// The round whose proofs the job needs.
    pub open spec fn proofs_round(self) -> AggregationRound {
        match self {
            ClaimedJob::LeafAggregation { .. } => AggregationRound::BasicCircuits,
            ClaimedJob::NodeAggregation { .. } => AggregationRound::LeafAggregation,
            ClaimedJob::Scheduler { .. } => AggregationRound::NodeAggregation,
        }
    }

    /// The number of proofs that the job needs.
    pub open spec fn proof_count(self) -> usize {
        match self {
            ClaimedJob::LeafAggregation { number_of_basic_circuits, .. } =>
                number_of_basic_circuits as usize,
            ClaimedJob::NodeAggregation { number_of_leaf_circuits, .. } =>
                number_of_leaf_circuits as usize,
            ClaimedJob::Scheduler { .. } => 1,
        }
    }

    /// The error of a job with `found` proofs in place of those that it needs.
    pub open spec fn wrong_proof_count(self, found: usize) -> ReplyError {
        match self {
            ClaimedJob::LeafAggregation { block_number, number_of_basic_circuits } =>
                ReplyError::BasicProofCount {
                block_number,
                found,
                expected: number_of_basic_circuits,
            },
            ClaimedJob::NodeAggregation { block_number, number_of_leaf_circuits } =>
                ReplyError::LeafProofCount { block_number, found, expected: number_of_leaf_circuits },
            ClaimedJob::Scheduler { block_number } => ReplyError::NodeProofCount {
                block_number,
                found,
            },
        }
    }

    /// Asks for the proofs that the job needs.
    pub fn proofs(self) -> (statement: Statement)
        ensures
            statement@ == proofs_statement(self.batch(), self.proofs_round()),
            statement@.well_formed(),
            match self {
                ClaimedJob::LeafAggregation { block_number, .. } => statement@ == proofs_statement(
                    block_number,
                    AggregationRound::BasicCircuits,
                ),
                ClaimedJob::NodeAggregation { block_number, .. } => statement@ == proofs_statement(
                    block_number,
                    AggregationRound::LeafAggregation,
                ),
                ClaimedJob::Scheduler { block_number } => statement@ == proofs_statement(
                    block_number,
                    AggregationRound::NodeAggregation,
                ),
            },
    {
        match self {
            ClaimedJob::LeafAggregation { block_number, .. } =>
                WitnessGeneratorDal::load_proofs_for_block(
                block_number,
                AggregationRound::BasicCircuits,
            ),
            ClaimedJob::NodeAggregation { block_number, .. } =>
                WitnessGeneratorDal::load_proofs_for_block(
                block_number,
                AggregationRound::LeafAggregation,
            ),
            ClaimedJob::Scheduler { block_number } => WitnessGeneratorDal::load_proofs_for_block(
                block_number,
                AggregationRound::NodeAggregation,
            ),
        }
    }

    /// Hands the job over with its proofs, if they are as many as it needs.
    pub fn with_proofs<P>(self, proofs: Vec<P>) -> (result: Result<
        WitnessGeneratorJobMetadata<P>,
        ReplyError,
    >)
        ensures
            match result {
                Ok(job) => {
                    &&& proofs.len() == self.proof_count()
                    &&& job.block_number == self.batch()
                    &&& job.proofs == proofs
                },
                Err(error) => {
                    &&& proofs.len() != self.proof_count()
                    &&& error == self.wrong_proof_count(proofs.len())
                },
            },
            match self {
                ClaimedJob::LeafAggregation { block_number, number_of_basic_circuits } => {
                    &&& result is Ok <==> proofs.len() == number_of_basic_circuits as usize
                    &&& result matches Ok(job) ==> job.block_number == block_number
                },
                ClaimedJob::NodeAggregation { block_number, number_of_leaf_circuits } => {
                    &&& result is Ok <==> proofs.len() == number_of_leaf_circuits as usize
                    &&& result matches Ok(job) ==> job.block_number == block_number
                },
                ClaimedJob::Scheduler { block_number } => {
                    &&& result is Ok <==> proofs.len() == 1
                    &&& result matches Ok(job) ==> job.block_number == block_number
                },
            },
    {
        let found: usize = proofs.len();
        match self {
            ClaimedJob::LeafAggregation { block_number, number_of_basic_circuits } => {
                if found == number_of_basic_circuits as usize {
                    Ok(WitnessGeneratorJobMetadata { block_number, proofs })
                } else {
                    Err(
                        ReplyError::BasicProofCount {
                            block_number,
                            found,
                            expected: number_of_basic_circuits,
                        },
                    )
                }
            },
            ClaimedJob::NodeAggregation { block_number, number_of_leaf_circuits } => {
                if found == number_of_leaf_circuits as usize {
                    Ok(WitnessGeneratorJobMetadata { block_number, proofs })
                } else {
                    Err(
                        ReplyError::LeafProofCount {
                            block_number,
                            found,
                            expected: number_of_leaf_circuits,
                        },
                    )
                }
            },
            ClaimedJob::Scheduler { block_number } => {
                if found == 1 {
                    Ok(WitnessGeneratorJobMetadata { block_number, proofs })
                } else {
                    Err(ReplyError::NodeProofCount { block_number, found })
                }
            },
        }
    }
}

/// What a `GROUP BY` leaves in a map from the groups to their counts.
pub open spec fn counts(rows: Seq<(String, i64)>) -> Map<Seq<char>, i64>
    decreases rows.len(),
{
    if rows.len() == 0 {
        Map::empty()
    } else {
        counts(rows.drop_last()).insert(rows.last().0@, rows.last().1)
    }
}

/// The number of jobs with the status, given the counts.
pub open spec fn count_of(counts: Map<Seq<char>, i64>, status: JobStatus) -> usize {
    if counts.contains_key(status.text()) {
        counts[status.text()] as usize
    } else {
        0
    }
}

fn get_count(counts: &StringHashMap<i64>, status: JobStatus) -> (count: usize)
    ensures
        count == count_of(counts@, status),
{
    match counts.get(status.name()) {
        Some(count) => *count as usize,
        None => 0,
    }
}

/// The batch that is reported for a table, given the greatest batch that succeeded, if any.
pub open spec fn reported_batch(greatest: Option<i64>) -> L1BatchNumber {
    match greatest {
        Some(number) => L1BatchNumber(number as u32),
        None => L1BatchNumber(0),
    }
}

fn report_batch(greatest: Option<i64>) -> (block_number: L1BatchNumber)
    ensures
        block_number == reported_batch(greatest),
{
    match greatest {
        Some(number) => L1BatchNumber(number as u32),
        None => L1BatchNumber(0),
    }
}

impl WitnessGeneratorDal {
    /// The job of the first round that a worker took, given its batch number.
    pub fn basic_circuit_witness_job<P>(l1_batch_number: Option<i64>) -> (job: Option<
        WitnessGeneratorJobMetadata<P>,
    >)
        ensures
            match l1_batch_number {
                Some(number) => {
                    &&& job matches Some(metadata)
                    &&& metadata.block_number == L1BatchNumber(number as u32)
                    &&& metadata.proofs@ == Seq::<P>::empty()
                },
                None => job is None,
            },
    {
        match l1_batch_number {
            Some(number) => Some(
                WitnessGeneratorJobMetadata {
                    block_number: L1BatchNumber(number as u32),
                    proofs: Vec::new(),
                },
            ),
            None => None,
        }
    }

    /// The leaf aggregation job that a worker took, given its row.
    pub fn leaf_aggregation_witness_job(
        l1_batch_number: i64,
        number_of_basic_circuits: i64,
    ) -> (job: ClaimedJob)
        ensures
            job == (ClaimedJob::LeafAggregation {
                block_number: L1BatchNumber(l1_batch_number as u32),
                number_of_basic_circuits,
            }),
    {
        ClaimedJob::LeafAggregation {
            block_number: L1BatchNumber(l1_batch_number as u32),
            number_of_basic_circuits,
        }
    }

    /// The node aggregation job that a worker took, given its row.
    pub fn node_aggregation_witness_job(
        l1_batch_number: i64,
        number_of_leaf_circuits: Option<i64>,
    ) -> (result: Result<ClaimedJob, ReplyError>)
        ensures
            result == match number_of_leaf_circuits {
                Some(number_of_leaf_circuits) => Ok::<ClaimedJob, ReplyError>(
                    ClaimedJob::NodeAggregation {
                        block_number: L1BatchNumber(l1_batch_number as u32),
                        number_of_leaf_circuits,
                    },
                ),
                None => Err(ReplyError::NoLeafCircuitCount),
            },
    {
        match number_of_leaf_circuits {
            Some(number_of_leaf_circuits) => Ok(
                ClaimedJob::NodeAggregation {
                    block_number: L1BatchNumber(l1_batch_number as u32),
                    number_of_leaf_circuits,
                },
            ),
            None => Err(ReplyError::NoLeafCircuitCount),
        }
    }

    /// The scheduler job that a worker took, given its row.
    pub fn scheduler_witness_job(l1_batch_number: i64) -> (job: ClaimedJob)
        ensures
            job == (ClaimedJob::Scheduler { block_number: L1BatchNumber(l1_batch_number as u32) }),
    {
        ClaimedJob::Scheduler { block_number: L1BatchNumber(l1_batch_number as u32) }
    }

    /// The last generated batch of each round, given the replies to
    /// [`WitnessGeneratorDal::get_witness_generated_l1_batches`]. A round without any has zero.
    pub fn witness_generated_l1_batches(greatest: [Option<i64>; 4]) -> (batches: Vec<
        (L1BatchNumber, AggregationRound),
    >)
        ensures
            batches@ == seq![
                (reported_batch(greatest@[0]), AggregationRound::NodeAggregation),
                (reported_batch(greatest@[1]), AggregationRound::LeafAggregation),
                (reported_batch(greatest@[2]), AggregationRound::Scheduler),
                (reported_batch(greatest@[3]), AggregationRound::BasicCircuits),
            ],
    {
        vec![
            (report_batch(greatest[0]), AggregationRound::NodeAggregation),
            (report_batch(greatest[1]), AggregationRound::LeafAggregation),
            (report_batch(greatest[2]), AggregationRound::Scheduler),
            (report_batch(greatest[3]), AggregationRound::BasicCircuits),
        ]
    }

    /// The serialized proofs of a round, given the results of its prover jobs.
    pub fn proof_results(results: Vec<Option<Vec<u8>>>) -> (proofs: Result<
        Vec<Vec<u8>>,
        ReplyError,
    >)
        ensures
            match proofs {
                Ok(proofs) => {
                    &&& proofs.len() == results.len()
                    &&& forall|i: int|
                        0 <= i < results.len() ==> (#[trigger] results@[i]) == Some(proofs@[i])
                },
                Err(error) => {
                    &&& error == ReplyError::NoProofResult
                    &&& exists|i: int| 0 <= i < results.len() && (#[trigger] results@[i]) is None
                },
            },
    {
        let mut proofs: Vec<Vec<u8>> = Vec::new();
        for result in iter: results
            invariant
                iter.seq() == results@,
                proofs.len() == iter.index(),
                forall|i: int|
                    0 <= i < iter.index() ==> (#[trigger] results@[i]) == Some(proofs@[i]),
        {
            match result {
                Some(proof) => proofs.push(proof),
                None => {
                    assert(results@[iter.index()] is None);
                    return Err(ReplyError::NoProofResult);
                },
            }
        }
        Ok(proofs)
    }

    /// The number of jobs in each status, given the rows of the statuses and their counts.
    pub fn witness_jobs_stats(rows: Vec<(String, i64)>) -> (stats: JobCountStatistics)
        ensures
            stats.queued == count_of(counts(rows@), JobStatus::Queued),
            stats.in_progress == count_of(counts(rows@), JobStatus::InProgress),
            stats.failed == count_of(counts(rows@), JobStatus::Failed),
            stats.successful == count_of(counts(rows@), JobStatus::Successful),
    {
        let mut results: StringHashMap<i64> = StringHashMap::new();
        let ghost all = rows@;
        for row in iter: rows
            invariant
                iter.seq() == all,
                results@ == counts(all.take(iter.index())),
        {
            results.insert(row.0, row.1);
            proof {
                let next = all.take(iter.index() + 1);
                assert(next.drop_last() =~= all.take(iter.index()));
                assert(next.last() == row);
            }
        }
        assert(all.take(all.len() as int) =~= all);
        JobCountStatistics {
            queued: get_count(&results, JobStatus::Queued),
            in_progress: get_count(&results, JobStatus::InProgress),
            failed: get_count(&results, JobStatus::Failed),
            successful: get_count(&results, JobStatus::Successful),
        }
    }

    /// The number of proofs that a job requires, given the number that is stored.
    pub fn stored_proofs_count(count: i32) -> (required: usize)
        ensures
            required == count as usize,
    {
        count as usize
    }

    /// The blobs that may be cleaned, by batch, given the rows of the jobs.
    pub fn blob_urls_to_be_cleaned(rows: Vec<(i64, Option<String>, Option<String>)>) -> (urls:
        Result<Vec<(i64, (String, String))>, ReplyError>)
        ensures
            match urls {
                Ok(urls) => {
                    &&& urls.len() == rows.len()
                    &&& forall|i: int|
                        0 <= i < rows.len() ==> {
                            &&& (#[trigger] rows@[i]).0 == urls@[i].0
                            &&& rows@[i].1 == Some(urls@[i].1.0)
                            &&& rows@[i].2 == Some(urls@[i].1.1)
                        }
                },
                Err(error) => {
                    &&& error == ReplyError::NoBlobUrl
                    &&& exists|i: int|
                        0 <= i < rows.len() && ((#[trigger] rows@[i]).1 is None || rows@[i].2
                            is None)
                },
            },
    {
        let mut urls: Vec<(i64, (String, String))> = Vec::new();
        for row in iter: rows
            invariant
                iter.seq() == rows@,
                urls.len() == iter.index(),
                forall|i: int|
                    0 <= i < iter.index() ==> {
                        &&& (#[trigger] rows@[i]).0 == urls@[i].0
                        &&& rows@[i].1 == Some(urls@[i].1.0)
                        &&& rows@[i].2 == Some(urls@[i].1.1)
                    },
        {
            match row {
                (l1_batch_number, Some(first), Some(second)) => {
                    urls.push((l1_batch_number, (first, second)));
                },
                _ => {
                    assert(rows@[iter.index()].1 is None || rows@[iter.index()].2 is None);
                    return Err(ReplyError::NoBlobUrl);
                },
            }
        }
        Ok(urls)
    }
}

} // verus!
