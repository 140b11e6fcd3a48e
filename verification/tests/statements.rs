use witness_generator_dal::dal::{RequiredProofs, WitnessGeneratorDal};
use witness_generator_dal::query::{Arg, Statement, Step};
use witness_generator_dal::types::{
    AggregationRound, GetWitnessJobsParams, Interval, JobStatus, L1BatchNumber, TimeOfDay,
};

const TIMEOUT: Interval = Interval { microseconds: 60_000_000 };
const TIME_TAKEN: TimeOfDay = TimeOfDay { seconds_from_midnight: 75, nanoseconds: 3 };

fn check(statement: &Statement, sql: &str, args: Vec<Arg>) {
    assert_eq!(statement.query.sql(), sql);
    assert_eq!(statement.args, args);
}

fn run_statement(step: &Step) -> &Statement {
    match step {
        Step::Run(statement) => statement,
        _ => panic!("not a statement: {:?}", step),
    }
}

fn claim_sql(table: &str) -> String {
    format!(
        "UPDATE {table} SET status = 'in_progress', attempts = attempts + 1, updated_at = now(), \
         processing_started_at = now() WHERE l1_batch_number = (SELECT l1_batch_number FROM {table} \
         WHERE l1_batch_number <= $3 AND (status = 'queued' OR (status = 'in_progress' AND \
         processing_started_at < now() - $1::interval) OR (status = 'failed' AND attempts < $2)) \
         ORDER BY l1_batch_number ASC LIMIT 1 FOR UPDATE SKIP LOCKED) RETURNING {table}.*"
    )
}

fn claim_args() -> Vec<Arg> {
    vec![Arg::Interval(TIMEOUT), Arg::Int4(5), Arg::Int8(100)]
}

#[test]
fn next_basic_circuit_job() {
    let statement = WitnessGeneratorDal::get_next_basic_circuit_witness_job(TIMEOUT, 5, 100);
    check(&statement, &claim_sql("witness_inputs"), claim_args());
}

#[test]
fn next_leaf_aggregation_job() {
    let statement = WitnessGeneratorDal::get_next_leaf_aggregation_witness_job(TIMEOUT, 5, 100);
    check(&statement, &claim_sql("leaf_aggregation_witness_jobs"), claim_args());
}

#[test]
fn next_node_aggregation_job() {
    let statement = WitnessGeneratorDal::get_next_node_aggregation_witness_job(TIMEOUT, 5, 100);
    check(&statement, &claim_sql("node_aggregation_witness_jobs"), claim_args());
}

#[test]
fn next_scheduler_job() {
    let statement = WitnessGeneratorDal::get_next_scheduler_witness_job(TIMEOUT, 5, 100);
    check(&statement, &claim_sql("scheduler_witness_jobs"), claim_args());
}

#[test]
fn limits_are_sent_as_signed_numbers() {
    let statement =
        WitnessGeneratorDal::get_next_scheduler_witness_job(TIMEOUT, u32::MAX, u32::MAX);
    assert_eq!(statement.args[1], Arg::Int4(-1));
    assert_eq!(statement.args[2], Arg::Int8(4_294_967_295));
}

#[test]
fn generated_batches() {
    let statements = WitnessGeneratorDal::get_witness_generated_l1_batches();
    let tables = [
        "node_aggregation_witness_jobs",
        "leaf_aggregation_witness_jobs",
        "scheduler_witness_jobs",
        "witness_inputs",
    ];
    assert_eq!(statements.len(), 4);
    for (statement, table) in statements.iter().zip(tables) {
        let sql = format!(
            "SELECT MAX(l1_batch_number) as l1_batch FROM {table} WHERE status = 'successful'"
        );
        check(statement, &sql, vec![]);
    }
}

#[test]
fn proofs_of_a_block() {
    let statement = WitnessGeneratorDal::load_proofs_for_block(
        L1BatchNumber(12),
        AggregationRound::LeafAggregation,
    );
    check(
        &statement,
        "SELECT circuit_type, result FROM prover_jobs WHERE l1_batch_number = $1 AND \
         status = 'successful' AND aggregation_round = $2 ORDER BY sequence_number ASC",
        vec![Arg::Int8(12), Arg::Int8(1)],
    );
}

#[test]
fn table_names() {
    let names = [
        (AggregationRound::BasicCircuits, "witness_inputs"),
        (AggregationRound::LeafAggregation, "leaf_aggregation_witness_jobs"),
        (AggregationRound::NodeAggregation, "node_aggregation_witness_jobs"),
        (AggregationRound::Scheduler, "scheduler_witness_jobs"),
    ];
    for (round, name) in names {
        assert_eq!(WitnessGeneratorDal::input_table_name_for(round), name);
    }
}

#[test]
fn round_numbers() {
    assert_eq!(AggregationRound::BasicCircuits.number(), 0);
    assert_eq!(AggregationRound::LeafAggregation.number(), 1);
    assert_eq!(AggregationRound::NodeAggregation.number(), 2);
    assert_eq!(AggregationRound::Scheduler.number(), 3);
}

#[test]
fn status_names() {
    assert_eq!(JobStatus::WaitingForArtifacts.name(), "waiting_for_artifacts");
    assert_eq!(JobStatus::WaitingForProofs.name(), "waiting_for_proofs");
    assert_eq!(JobStatus::Queued.name(), "queued");
    assert_eq!(JobStatus::InProgress.name(), "in_progress");
    assert_eq!(JobStatus::Successful.name(), "successful");
    assert_eq!(JobStatus::Failed.name(), "failed");
    assert_eq!(JobStatus::Skipped.name(), "skipped");
}

#[test]
fn successful_job() {
    let statement = WitnessGeneratorDal::mark_witness_job_as_successful(
        L1BatchNumber(7),
        AggregationRound::NodeAggregation,
        TIME_TAKEN,
    );
    check(
        &statement,
        "UPDATE node_aggregation_witness_jobs SET status = 'successful', updated_at = now(), \
         time_taken = $1 WHERE l1_batch_number = $2",
        vec![Arg::TimeOfDay(TIME_TAKEN), Arg::Int8(7)],
    );
}

#[test]
fn queued_job() {
    let statement = WitnessGeneratorDal::mark_witness_job_as_queued(
        L1BatchNumber(u32::MAX),
        AggregationRound::Scheduler,
    );
    check(
        &statement,
        "UPDATE scheduler_witness_jobs SET status = 'queued', updated_at = now() \
         WHERE l1_batch_number = $1",
        vec![Arg::Int8(4_294_967_295)],
    );
}

#[test]
fn waiting_job() {
    let statement = WitnessGeneratorDal::mark_witness_job_as_waiting_for_proofs(
        L1BatchNumber(7),
        AggregationRound::LeafAggregation,
    );
    check(
        &statement,
        "UPDATE leaf_aggregation_witness_jobs SET status = 'waiting_for_proofs', \
         updated_at = now() WHERE l1_batch_number = $1",
        vec![Arg::Int8(7)],
    );
}

#[test]
fn skipped_job() {
    let steps = WitnessGeneratorDal::mark_witness_job_as_skipped(
        L1BatchNumber(7),
        AggregationRound::BasicCircuits,
    );
    assert_eq!(steps.len(), 4);
    assert_eq!(steps[0], Step::Begin);
    check(
        run_statement(&steps[1]),
        "UPDATE witness_inputs SET status = 'skipped', updated_at = now() \
         WHERE l1_batch_number = $1",
        vec![Arg::Int8(7)],
    );
    assert_eq!(steps[2], Step::SkipProof(L1BatchNumber(7)));
    assert_eq!(steps[3], Step::Commit);
}

#[test]
fn failed_job() {
    let steps = WitnessGeneratorDal::mark_witness_job_as_failed(
        L1BatchNumber(7),
        AggregationRound::BasicCircuits,
        TIME_TAKEN,
        "out of memory".to_string(),
    );
    assert_eq!(steps.len(), 2);
    assert_eq!(steps[0], Step::Begin);
    check(
        run_statement(&steps[1]),
        "UPDATE witness_inputs SET status = 'failed', updated_at = now(), time_taken = $1, \
         error = $2 WHERE l1_batch_number = $3 RETURNING attempts",
        vec![Arg::TimeOfDay(TIME_TAKEN), Arg::Text("out of memory".to_string()), Arg::Int8(7)],
    );
}

#[test]
fn failed_job_with_attempts_left() {
    let steps = WitnessGeneratorDal::after_failure(L1BatchNumber(7), 4, 5);
    assert_eq!(steps, vec![Step::Commit]);
}

#[test]
fn failed_job_without_attempts_left() {
    let skip = vec![Step::SkipProof(L1BatchNumber(7)), Step::Commit];
    assert_eq!(WitnessGeneratorDal::after_failure(L1BatchNumber(7), 5, 5), skip);
    assert_eq!(WitnessGeneratorDal::after_failure(L1BatchNumber(7), 6, 5), skip);
    assert_eq!(WitnessGeneratorDal::after_failure(L1BatchNumber(7), 0, 0), skip);
    // A negative number of attempts counts as a very large one.
    assert_eq!(WitnessGeneratorDal::after_failure(L1BatchNumber(7), -1, 5), skip);
}

#[test]
fn aggregation_jobs() {
    let steps = WitnessGeneratorDal::create_aggregation_jobs(
        L1BatchNumber(7),
        42,
        "circuits".to_string(),
        "inputs".to_string(),
        "witness".to_string(),
    );
    assert_eq!(steps.len(), 3);
    check(
        run_statement(&steps[0]),
        "INSERT INTO leaf_aggregation_witness_jobs (l1_batch_number, basic_circuits, \
         basic_circuits_inputs, basic_circuits_blob_url, basic_circuits_inputs_blob_url, \
         number_of_basic_circuits, status, created_at, updated_at) \
         VALUES ($1, $2, $3, $4, $5, $6, 'waiting_for_proofs', now(), now())",
        vec![
            Arg::Int8(7),
            Arg::Bytes(vec![]),
            Arg::Bytes(vec![]),
            Arg::Text("circuits".to_string()),
            Arg::Text("inputs".to_string()),
            Arg::Int8(42),
        ],
    );
    check(
        run_statement(&steps[1]),
        "INSERT INTO node_aggregation_witness_jobs (l1_batch_number, status, created_at, \
         updated_at) VALUES ($1, 'waiting_for_artifacts', now(), now())",
        vec![Arg::Int8(7)],
    );
    check(
        run_statement(&steps[2]),
        "INSERT INTO scheduler_witness_jobs (l1_batch_number, scheduler_witness, \
         scheduler_witness_blob_url, status, created_at, updated_at) \
         VALUES ($1, $2, $3, 'waiting_for_artifacts', now(), now())",
        vec![Arg::Int8(7), Arg::Bytes(vec![]), Arg::Text("witness".to_string())],
    );
}

#[test]
fn leaf_aggregation_artifacts() {
    let statement = WitnessGeneratorDal::save_leaf_aggregation_artifacts(
        L1BatchNumber(7),
        3,
        "subqueues".to_string(),
        "outputs".to_string(),
    );
    check(
        &statement,
        "UPDATE node_aggregation_witness_jobs SET number_of_leaf_circuits = $1, \
         leaf_layer_subqueues_blob_url = $3, aggregation_outputs_blob_url = $4, \
         status = 'waiting_for_proofs', updated_at = now() \
         WHERE l1_batch_number = $2 AND status != 'queued'",
        vec![
            Arg::Int8(3),
            Arg::Int8(7),
            Arg::Text("subqueues".to_string()),
            Arg::Text("outputs".to_string()),
        ],
    );
}

#[test]
fn node_aggregation_artifacts() {
    let statement = WitnessGeneratorDal::save_node_aggregation_artifacts(
        L1BatchNumber(7),
        "aggregations".to_string(),
    );
    check(
        &statement,
        "UPDATE scheduler_witness_jobs SET final_node_aggregations_blob_url = $2, \
         status = 'waiting_for_proofs', updated_at = now() \
         WHERE l1_batch_number = $1 AND status != 'queued'",
        vec![Arg::Int8(7), Arg::Text("aggregations".to_string())],
    );
}

#[test]
fn final_aggregation_result() {
    let mut coords = [[0u8; 32]; 4];
    let mut bytes: Vec<u8> = Vec::new();
    for i in 0..4usize {
        for j in 0..32usize {
            coords[i][j] = (i * 32 + j) as u8;
            bytes.push((i * 32 + j) as u8);
        }
    }
    let statement = WitnessGeneratorDal::save_final_aggregation_result(L1BatchNumber(7), coords);
    check(
        &statement,
        "UPDATE scheduler_witness_jobs SET aggregation_result_coords = $1, updated_at = now() \
         WHERE l1_batch_number = $2",
        vec![Arg::Bytes(bytes), Arg::Int8(7)],
    );
}

#[test]
fn jobs_stats() {
    let statement =
        WitnessGeneratorDal::get_witness_jobs_stats(AggregationRound::LeafAggregation);
    check(
        &statement,
        "SELECT COUNT(*) as \"count\", status as \"status\" FROM leaf_aggregation_witness_jobs \
         GROUP BY status",
        vec![],
    );
}

#[test]
fn required_proofs() {
    let leaf = WitnessGeneratorDal::required_proofs_count(
        L1BatchNumber(7),
        AggregationRound::LeafAggregation,
    );
    match leaf {
        RequiredProofs::Stored(statement) => check(
            &statement,
            "SELECT number_of_basic_circuits as \"count\" FROM leaf_aggregation_witness_jobs \
             WHERE l1_batch_number = $1",
            vec![Arg::Int8(7)],
        ),
        other => panic!("unexpected: {:?}", other),
    }
    let node = WitnessGeneratorDal::required_proofs_count(
        L1BatchNumber(8),
        AggregationRound::NodeAggregation,
    );
    match node {
        RequiredProofs::Stored(statement) => check(
            &statement,
            "SELECT number_of_leaf_circuits as \"count\" FROM node_aggregation_witness_jobs \
             WHERE l1_batch_number = $1",
            vec![Arg::Int8(8)],
        ),
        other => panic!("unexpected: {:?}", other),
    }
    let scheduler = WitnessGeneratorDal::required_proofs_count(
        L1BatchNumber(9),
        AggregationRound::Scheduler,
    );
    assert_eq!(scheduler, RequiredProofs::Fixed(1));
}

fn slice_sql(number: u8, table: &str, range: &str) -> String {
    format!(
        "SELECT {number} as aggregation_round, l1_batch_number, created_at, updated_at, status, \
         time_taken, processing_started_at, error, attempts FROM {table} WHERE 1 = 1{range}"
    )
}

fn list_sql(range: &str) -> String {
    format!(
        "{} UNION {} UNION {} UNION {}",
        slice_sql(0, "witness_inputs", range),
        slice_sql(1, "leaf_aggregation_witness_jobs", range),
        slice_sql(2, "node_aggregation_witness_jobs", range),
        slice_sql(3, "scheduler_witness_jobs", range),
    )
}

#[test]
fn list_of_all_jobs() {
    let statement = WitnessGeneratorDal::get_jobs(GetWitnessJobsParams { blocks: None });
    check(&statement, &list_sql(""), vec![]);
}

#[test]
fn list_of_jobs_in_a_range() {
    let statement = WitnessGeneratorDal::get_jobs(GetWitnessJobsParams {
        blocks: Some(L1BatchNumber(10)..L1BatchNumber(4_294_967_295)),
    });
    check(
        &statement,
        &list_sql(" AND l1_batch_number BETWEEN 10 AND 4294967295"),
        vec![],
    );
}

#[test]
fn witness_inputs() {
    let statement =
        WitnessGeneratorDal::save_witness_inputs(L1BatchNumber(7), "paths".to_string());
    check(
        &statement,
        "INSERT INTO witness_inputs (l1_batch_number, merkle_tree_paths, \
         merkel_tree_paths_blob_url, status, created_at, updated_at) \
         VALUES ($1, $2, $3, 'queued', now(), now()) ON CONFLICT (l1_batch_number) DO NOTHING",
        vec![Arg::Int8(7), Arg::Bytes(vec![]), Arg::Text("paths".to_string())],
    );
}

#[test]
fn leaf_blobs_to_be_cleaned() {
    let statement =
        WitnessGeneratorDal::get_basic_circuit_and_circuit_inputs_blob_urls_to_be_cleaned(255);
    check(
        &statement,
        "SELECT l1_batch_number, basic_circuits_blob_url, basic_circuits_inputs_blob_url \
         FROM leaf_aggregation_witness_jobs WHERE status = 'successful' AND \
         is_blob_cleaned = FALSE AND basic_circuits_blob_url IS NOT NULL AND \
         basic_circuits_inputs_blob_url IS NOT NULL AND \
         updated_at < now() - INTERVAL '30 days' LIMIT $1",
        vec![Arg::Int4(255)],
    );
}

#[test]
fn node_blobs_to_be_cleaned() {
    let statement =
        WitnessGeneratorDal::get_leaf_layer_subqueues_and_aggregation_outputs_blob_urls_to_be_cleaned(
            10,
        );
    check(
        &statement,
        "SELECT l1_batch_number, leaf_layer_subqueues_blob_url, aggregation_outputs_blob_url \
         FROM node_aggregation_witness_jobs WHERE status = 'successful' AND \
         is_blob_cleaned = FALSE AND leaf_layer_subqueues_blob_url IS NOT NULL AND \
         aggregation_outputs_blob_url IS NOT NULL AND \
         updated_at < now() - INTERVAL '30 days' LIMIT $1",
        vec![Arg::Int4(10)],
    );
}

#[test]
fn scheduler_blobs_to_be_cleaned() {
    let statement =
        WitnessGeneratorDal::get_scheduler_witness_and_node_aggregations_blob_urls_to_be_cleaned(0);
    check(
        &statement,
        "SELECT l1_batch_number, scheduler_witness_blob_url, final_node_aggregations_blob_url \
         FROM scheduler_witness_jobs WHERE status = 'successful' AND is_blob_cleaned = FALSE AND \
         updated_at < now() - INTERVAL '30 days' AND scheduler_witness_blob_url IS NOT NULL AND \
         final_node_aggregations_blob_url IS NOT NULL LIMIT $1",
        vec![Arg::Int4(0)],
    );
}

#[test]
fn cleaned_blobs() {
    let sql = |table: &str| {
        format!("UPDATE {table} SET is_blob_cleaned = TRUE WHERE l1_batch_number = ANY($1)")
    };
    check(
        &WitnessGeneratorDal::mark_leaf_aggregation_gcs_blobs_as_cleaned(vec![1, 2]),
        &sql("leaf_aggregation_witness_jobs"),
        vec![Arg::Int8List(vec![1, 2])],
    );
    check(
        &WitnessGeneratorDal::mark_node_aggregation_gcs_blobs_as_cleaned(vec![]),
        &sql("node_aggregation_witness_jobs"),
        vec![Arg::Int8List(vec![])],
    );
    check(
        &WitnessGeneratorDal::mark_scheduler_witness_gcs_blobs_as_cleaned(vec![-3]),
        &sql("scheduler_witness_jobs"),
        vec![Arg::Int8List(vec![-3])],
    );
}
