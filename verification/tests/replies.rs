use witness_generator_dal::dal::WitnessGeneratorDal;
use witness_generator_dal::query::Arg;
use witness_generator_dal::replies::{ClaimedJob, ReplyError};
use witness_generator_dal::types::{
    AggregationRound, JobCountStatistics, L1BatchNumber, WitnessGeneratorJobMetadata,
};

#[test]
fn basic_job_has_no_proofs() {
    let job = WitnessGeneratorDal::basic_circuit_witness_job::<u8>(Some(12));
    assert_eq!(
        job,
        Some(WitnessGeneratorJobMetadata { block_number: L1BatchNumber(12), proofs: vec![] })
    );
    assert_eq!(WitnessGeneratorDal::basic_circuit_witness_job::<u8>(None), None);
}

#[test]
fn leaf_job_needs_all_basic_proofs() {
    let job = WitnessGeneratorDal::leaf_aggregation_witness_job(12, 2);
    assert_eq!(
        job,
        ClaimedJob::LeafAggregation {
            block_number: L1BatchNumber(12),
            number_of_basic_circuits: 2,
        }
    );
    assert_eq!(job.proofs().args, vec![Arg::Int8(12), Arg::Int8(0)]);
    assert_eq!(
        job.with_proofs(vec!["a", "b"]),
        Ok(WitnessGeneratorJobMetadata {
            block_number: L1BatchNumber(12),
            proofs: vec!["a", "b"],
        })
    );
    let error = job.with_proofs(vec!["a"]).unwrap_err();
    assert_eq!(
        error,
        ReplyError::BasicProofCount { block_number: L1BatchNumber(12), found: 1, expected: 2 }
    );
    assert_eq!(
        error.message(),
        "leaf_aggregation_witness_job for l1 batch 12 is in status `queued`, but there are only 1 \
         computed basic proofs, which is different from expected 2"
    );
}

#[test]
fn node_job_needs_all_leaf_proofs() {
    let job = WitnessGeneratorDal::node_aggregation_witness_job(12, Some(1)).unwrap();
    assert_eq!(
        job,
        ClaimedJob::NodeAggregation { block_number: L1BatchNumber(12), number_of_leaf_circuits: 1 }
    );
    assert_eq!(job.proofs().args, vec![Arg::Int8(12), Arg::Int8(1)]);
    assert_eq!(
        job.with_proofs(vec![7u8]),
        Ok(WitnessGeneratorJobMetadata { block_number: L1BatchNumber(12), proofs: vec![7] })
    );
    let error = job.with_proofs(vec![7u8, 8]).unwrap_err();
    assert_eq!(
        error.message(),
        "node_aggregation_witness_job for l1 batch 12 is in status `queued`, but there are only 2 \
         computed leaf proofs, which is different from expected 1"
    );
}

#[test]
fn node_job_needs_its_number_of_circuits() {
    let error = WitnessGeneratorDal::node_aggregation_witness_job(12, None).unwrap_err();
    assert_eq!(error, ReplyError::NoLeafCircuitCount);
    assert_eq!(
        error.message(),
        "number_of_leaf_circuits is not found in a `queued` `node_aggregation_witness_jobs` job"
    );
}

#[test]
fn scheduler_job_needs_one_node_proof() {
    let job = WitnessGeneratorDal::scheduler_witness_job(12);
    assert_eq!(job, ClaimedJob::Scheduler { block_number: L1BatchNumber(12) });
    assert_eq!(job.proofs().args, vec![Arg::Int8(12), Arg::Int8(2)]);
    assert_eq!(
        job.with_proofs(vec![7u8]),
        Ok(WitnessGeneratorJobMetadata { block_number: L1BatchNumber(12), proofs: vec![7] })
    );
    let error = job.with_proofs(Vec::<u8>::new()).unwrap_err();
    assert_eq!(error, ReplyError::NodeProofCount { block_number: L1BatchNumber(12), found: 0 });
    assert_eq!(
        error.message(),
        "scheduler_job for l1 batch 12 is in status `queued`, but there is 0 computed node proofs. \
         We expect exactly one node proof."
    );
}

#[test]
fn negative_number_of_circuits_is_never_met() {
    let job = WitnessGeneratorDal::leaf_aggregation_witness_job(1, -1);
    let error = job.with_proofs(vec![0u8]).unwrap_err();
    assert_eq!(
        error,
        ReplyError::BasicProofCount { block_number: L1BatchNumber(1), found: 1, expected: -1 }
    );
    assert_eq!(
        error.message(),
        "leaf_aggregation_witness_job for l1 batch 1 is in status `queued`, but there are only 1 \
         computed basic proofs, which is different from expected -1"
    );
}

#[test]
fn batch_numbers_keep_their_low_bits() {
    let job = WitnessGeneratorDal::scheduler_witness_job(4_294_967_296 + 5);
    assert_eq!(job, ClaimedJob::Scheduler { block_number: L1BatchNumber(5) });
}

#[test]
fn generated_batches_by_round() {
    let batches =
        WitnessGeneratorDal::witness_generated_l1_batches([Some(3), None, Some(1), Some(9)]);
    assert_eq!(
        batches,
        vec![
            (L1BatchNumber(3), AggregationRound::NodeAggregation),
            (L1BatchNumber(0), AggregationRound::LeafAggregation),
            (L1BatchNumber(1), AggregationRound::Scheduler),
            (L1BatchNumber(9), AggregationRound::BasicCircuits),
        ]
    );
}

#[test]
fn results_of_prover_jobs() {
    let proofs = WitnessGeneratorDal::proof_results(vec![Some(vec![1]), Some(vec![]), Some(vec![2, 3])]);
    assert_eq!(proofs, Ok(vec![vec![1], vec![], vec![2, 3]]));
    assert_eq!(WitnessGeneratorDal::proof_results(vec![]), Ok(vec![]));
}

#[test]
fn missing_result_of_a_prover_job() {
    let error = WitnessGeneratorDal::proof_results(vec![Some(vec![1]), None]).unwrap_err();
    assert_eq!(error, ReplyError::NoProofResult);
    assert_eq!(error.message(), "prove_job with `successful` status has no result");
}

#[test]
fn statistics() {
    let rows = vec![
        ("successful".to_string(), 40),
        ("queued".to_string(), 3),
        ("skipped".to_string(), 11),
        ("failed".to_string(), 1),
    ];
    assert_eq!(
        WitnessGeneratorDal::witness_jobs_stats(rows),
        JobCountStatistics { queued: 3, in_progress: 0, failed: 1, successful: 40 }
    );
    assert_eq!(
        WitnessGeneratorDal::witness_jobs_stats(vec![("in_progress".to_string(), 2)]),
        JobCountStatistics { queued: 0, in_progress: 2, failed: 0, successful: 0 }
    );
}

#[test]
fn last_count_of_a_status_counts() {
    let rows = vec![("queued".to_string(), 3), ("queued".to_string(), 5)];
    assert_eq!(WitnessGeneratorDal::witness_jobs_stats(rows).queued, 5);
}

#[test]
fn stored_number_of_proofs() {
    assert_eq!(WitnessGeneratorDal::stored_proofs_count(0), 0);
    assert_eq!(WitnessGeneratorDal::stored_proofs_count(2_147_483_647), 2_147_483_647);
    assert_eq!(WitnessGeneratorDal::stored_proofs_count(-1), usize::MAX);
}

#[test]
fn blob_urls() {
    let rows = vec![
        (5i64, Some("a".to_string()), Some("b".to_string())),
        (6, Some("c".to_string()), Some("d".to_string())),
    ];
    assert_eq!(
        WitnessGeneratorDal::blob_urls_to_be_cleaned(rows),
        Ok(vec![
            (5, ("a".to_string(), "b".to_string())),
            (6, ("c".to_string(), "d".to_string())),
        ])
    );
}

#[test]
fn missing_blob_url() {
    let rows = vec![(5i64, Some("a".to_string()), None)];
    let error = WitnessGeneratorDal::blob_urls_to_be_cleaned(rows).unwrap_err();
    assert_eq!(error, ReplyError::NoBlobUrl);
    assert_eq!(error.message(), "a job whose blobs may be cleaned has no blob url");
    let rows = vec![(5i64, None, Some("b".to_string()))];
    assert_eq!(WitnessGeneratorDal::blob_urls_to_be_cleaned(rows), Err(ReplyError::NoBlobUrl));
}
