//! The laws on concrete values: the statements are run on tables in memory.
use std::collections::{BTreeMap, BTreeSet};

use witness_generator_dal::dal::{RequiredProofs, WitnessGeneratorDal};
use witness_generator_dal::query::{Arg, Query, Statement, Step};
use witness_generator_dal::replies::ClaimedJob;
use witness_generator_dal::sql::{Assignment, Condition, Operand, Output};
use witness_generator_dal::types::{
    AggregationRound, GetWitnessJobsParams, Interval, JobStatus, L1BatchNumber, TimeOfDay,
};

const SECOND: i64 = 1_000_000;
const DAY: i64 = 86_400 * SECOND;
const TIMEOUT: Interval = Interval { microseconds: 60 * SECOND };
const TIME_TAKEN: TimeOfDay = TimeOfDay { seconds_from_midnight: 75, nanoseconds: 0 };

const ROUNDS: [AggregationRound; 4] = [
    AggregationRound::BasicCircuits,
    AggregationRound::LeafAggregation,
    AggregationRound::NodeAggregation,
    AggregationRound::Scheduler,
];

#[derive(Clone, Debug, PartialEq)]
enum Cell {
    Null,
    Bool(bool),
    Int(i64),
    Text(String),
    Bytes(Vec<u8>),
    Time(i64),
    TimeOfDay(TimeOfDay),
}

type Row = BTreeMap<String, Cell>;

#[derive(Clone, Debug, Default, PartialEq)]
struct Db {
    tables: BTreeMap<String, BTreeMap<i64, Row>>,
    skipped_proofs: BTreeSet<u32>,
}

fn text(value: &str) -> Cell {
    Cell::Text(value.to_string())
}

fn cell(row: &Row, column: &str) -> Cell {
    row.get(column).cloned().unwrap_or(Cell::Null)
}

fn value(arg: &Arg) -> Cell {
    match arg {
        Arg::Int4(value) => Cell::Int(i64::from(*value)),
        Arg::Int8(value) => Cell::Int(*value),
        Arg::Text(value) => Cell::Text(value.clone()),
        Arg::Bytes(value) => Cell::Bytes(value.clone()),
        Arg::TimeOfDay(value) => Cell::TimeOfDay(*value),
        other => panic!("not a value: {:?}", other),
    }
}

fn number(arg: &Arg) -> i64 {
    match value(arg) {
        Cell::Int(number) => number,
        other => panic!("not a number: {:?}", other),
    }
}

fn has_status(row: &Row, status: JobStatus) -> bool {
    cell(row, "status") == text(status.name())
}

fn holds(condition: &Condition, row: &Row, args: &[Arg], now: i64) -> bool {
    let arg = |k: u8| &args[usize::from(k) - 1];
    let batch = match cell(row, "l1_batch_number") {
        Cell::Int(batch) => batch,
        other => panic!("not a batch number: {:?}", other),
    };
    match *condition {
        Condition::Always => true,
        Condition::BatchIs(k) => batch == number(arg(k)),
        Condition::BatchAtMost(k) => batch <= number(arg(k)),
        Condition::BatchAmong(k) => match arg(k) {
            Arg::Int8List(numbers) => numbers.contains(&batch),
            other => panic!("not a list: {:?}", other),
        },
        Condition::BatchBetween(first, last) => i64::from(first) <= batch && batch <= i64::from(last),
        Condition::RoundIs(k) => cell(row, "aggregation_round") == value(arg(k)),
        Condition::StatusIs(status) => has_status(row, status),
        Condition::StatusIsNot(status) => !has_status(row, status),
        Condition::Claimable { timeout, max_attempts } => {
            let timeout = match arg(timeout) {
                Arg::Interval(interval) => interval.microseconds,
                other => panic!("not an interval: {:?}", other),
            };
            has_status(row, JobStatus::Queued)
                || (has_status(row, JobStatus::InProgress)
                    && matches!(cell(row, "processing_started_at"), Cell::Time(at) if at < now - timeout))
                || (has_status(row, JobStatus::Failed)
                    && matches!(cell(row, "attempts"), Cell::Int(n) if n < number(arg(max_attempts))))
        }
        Condition::BlobsNotCleaned => cell(row, "is_blob_cleaned") == Cell::Bool(false),
        Condition::NotNull(column) => cell(row, column.name()) != Cell::Null,
        Condition::NotUpdatedForDays(days) => {
            matches!(cell(row, "updated_at"), Cell::Time(at) if at < now - i64::from(days) * DAY)
        }
    }
}

fn meets(row: &Row, filter: &[Condition], args: &[Arg], now: i64) -> bool {
    filter.iter().all(|condition| holds(condition, row, args, now))
}

fn assigned(row: &Row, set: &[Assignment], args: &[Arg], now: i64) -> Row {
    let mut after = row.clone();
    for assignment in set {
        let column = assignment.column.name();
        let new = match assignment.value {
            Operand::Arg(k) => value(&args[usize::from(k) - 1]),
            Operand::Status(status) => text(status.name()),
            Operand::Now => Cell::Time(now),
            Operand::True => Cell::Bool(true),
            Operand::OneMore => match cell(row, column) {
                Cell::Int(number) => Cell::Int(number + 1),
                other => panic!("not a number: {:?}", other),
            },
        };
        after.insert(column.to_string(), new);
    }
    after
}

/// Runs the statement and hands back the rows that it found or changed. An insertion that meets a
/// row of the same batch fails.
fn try_run(db: &mut Db, statement: &Statement, locked: &[i64], now: i64) -> Result<Vec<Row>, ()> {
    let args = &statement.args[..];
    match &statement.query {
        Query::Update { table, set, filter, .. } => {
            let mut changed = Vec::new();
            for row in db.tables.entry(table.name().to_string()).or_default().values_mut() {
                if meets(row, filter, args, now) {
                    *row = assigned(row, set, args, now);
                    changed.push(row.clone());
                }
            }
            Ok(changed)
        }
        Query::UpdateFirst { table, set, filter } => {
            for (key, row) in db.tables.entry(table.name().to_string()).or_default() {
                if !locked.contains(key) && meets(row, filter, args, now) {
                    *row = assigned(row, set, args, now);
                    return Ok(vec![row.clone()]);
                }
            }
            Ok(vec![])
        }
        Query::Insert { table, values, keep_existing } => {
            let mut defaults = Row::new();
            defaults.insert("attempts".to_string(), Cell::Int(0));
            defaults.insert("is_blob_cleaned".to_string(), Cell::Bool(false));
            let row = assigned(&defaults, values, args, now);
            let key = match cell(&row, "l1_batch_number") {
                Cell::Int(key) => key,
                other => panic!("not a batch number: {:?}", other),
            };
            let rows = db.tables.entry(table.name().to_string()).or_default();
            if rows.contains_key(&key) {
                return if *keep_existing { Ok(vec![]) } else { Err(()) };
            }
            rows.insert(key, row);
            Ok(vec![])
        }
        Query::Select { table, filter, order_by, limit, .. } => {
            let rows = db.tables.entry(table.name().to_string()).or_default();
            let mut found: Vec<Row> =
                rows.values().filter(|row| meets(row, filter, args, now)).cloned().collect();
            if let Some(column) = order_by {
                found.sort_by_key(|row| match cell(row, column.name()) {
                    Cell::Int(number) => number,
                    other => panic!("not a number: {:?}", other),
                });
            }
            if let Some(k) = limit {
                found.truncate(number(&args[usize::from(*k) - 1]) as usize);
            }
            Ok(found)
        }
        Query::ListJobs { filter } => {
            let mut found = Vec::new();
            for round in ROUNDS {
                let name = WitnessGeneratorDal::input_table_name_for(round);
                for row in db.tables.entry(name.to_string()).or_default().values() {
                    if meets(row, filter, args, now) {
                        let mut row = row.clone();
                        row.insert(
                            "aggregation_round".to_string(),
                            Cell::Int(i64::from(round.number())),
                        );
                        found.push(row);
                    }
                }
            }
            Ok(found)
        }
    }
}

fn run(db: &mut Db, statement: &Statement, now: i64) -> Vec<Row> {
    try_run(db, statement, &[], now).expect("the statement was refused")
}

fn take_all(db: &mut Db, steps: &[Step], now: i64) -> Result<Vec<Row>, ()> {
    let mut rows = Vec::new();
    for step in steps {
        match step {
            Step::Begin | Step::Commit => {}
            Step::Run(statement) => rows = try_run(db, statement, &[], now)?,
            Step::SkipProof(block_number) => {
                db.skipped_proofs.insert(block_number.0);
            }
        }
    }
    Ok(rows)
}

/// Takes the first `n` steps, up to one that is refused, and hands back what others see then.
fn left_after(db: &Db, steps: &[Step], n: usize, now: i64) -> Db {
    let mut seen = db.clone();
    let mut before = None;
    for step in &steps[..n] {
        match step {
            Step::Begin => before = Some(seen.clone()),
            Step::Commit => before = None,
            step => {
                if take_all(&mut seen, std::slice::from_ref(step), now).is_err() {
                    break;
                }
            }
        }
    }
    before.unwrap_or(seen)
}

fn job(db: &Db, round: AggregationRound, batch: i64) -> Row {
    db.tables[WitnessGeneratorDal::input_table_name_for(round)][&batch].clone()
}

fn status(db: &Db, round: AggregationRound, batch: i64) -> Cell {
    cell(&job(db, round, batch), "status")
}

fn save_inputs(db: &mut Db, batch: u32, now: i64) {
    let statement =
        WitnessGeneratorDal::save_witness_inputs(L1BatchNumber(batch), format!("paths_{batch}"));
    run(db, &statement, now);
}

fn create_jobs(db: &mut Db, batch: u32, now: i64) -> Result<Vec<Row>, ()> {
    let steps = WitnessGeneratorDal::create_aggregation_jobs(
        L1BatchNumber(batch),
        2,
        "circuits".to_string(),
        "inputs".to_string(),
        "witness".to_string(),
    );
    take_all(db, &steps, now)
}

fn claim(db: &mut Db, round: AggregationRound, max_attempts: u32, last: u32, now: i64) -> Option<i64> {
    claim_unlocked(db, round, max_attempts, last, &[], now)
}

fn claim_unlocked(
    db: &mut Db,
    round: AggregationRound,
    max_attempts: u32,
    last: u32,
    locked: &[i64],
    now: i64,
) -> Option<i64> {
    let statement = match round {
        AggregationRound::BasicCircuits => {
            WitnessGeneratorDal::get_next_basic_circuit_witness_job(TIMEOUT, max_attempts, last)
        }
        AggregationRound::LeafAggregation => {
            WitnessGeneratorDal::get_next_leaf_aggregation_witness_job(TIMEOUT, max_attempts, last)
        }
        AggregationRound::NodeAggregation => {
            WitnessGeneratorDal::get_next_node_aggregation_witness_job(TIMEOUT, max_attempts, last)
        }
        AggregationRound::Scheduler => {
            WitnessGeneratorDal::get_next_scheduler_witness_job(TIMEOUT, max_attempts, last)
        }
    };
    let rows = try_run(db, &statement, locked, now).expect("the statement was refused");
    rows.first().map(|row| match cell(row, "l1_batch_number") {
        Cell::Int(batch) => batch,
        other => panic!("not a batch number: {:?}", other),
    })
}

fn fail(db: &mut Db, round: AggregationRound, batch: u32, max_attempts: u32, now: i64) {
    let steps = WitnessGeneratorDal::mark_witness_job_as_failed(
        L1BatchNumber(batch),
        round,
        TIME_TAKEN,
        "no".to_string(),
    );
    let rows = take_all(db, &steps, now).expect("the statement was refused");
    let attempts = match cell(&rows[0], "attempts") {
        Cell::Int(attempts) => attempts as i32,
        other => panic!("not a number: {:?}", other),
    };
    let steps = WitnessGeneratorDal::after_failure(L1BatchNumber(batch), attempts, max_attempts);
    take_all(db, &steps, now).expect("the statement was refused");
}

#[test]
fn worker_gets_the_first_available_job() {
    let round = AggregationRound::BasicCircuits;
    let mut db = Db::default();
    for batch in [9, 4, 7] {
        save_inputs(&mut db, batch, 0);
    }
    let before = db.clone();
    assert_eq!(claim_unlocked(&mut db, round, 5, 100, &[4], 10), Some(7));
    let row = job(&db, round, 7);
    assert_eq!(cell(&row, "status"), text("in_progress"));
    assert_eq!(cell(&row, "attempts"), Cell::Int(1));
    assert_eq!(cell(&row, "updated_at"), Cell::Time(10));
    assert_eq!(cell(&row, "processing_started_at"), Cell::Time(10));
    assert_eq!(cell(&row, "merkel_tree_paths_blob_url"), text("paths_7"));
    assert_eq!(job(&db, round, 4), job(&before, round, 4));
    assert_eq!(job(&db, round, 9), job(&before, round, 9));
    assert_eq!(claim(&mut db, round, 5, 100, 11), Some(4));
    assert_eq!(claim(&mut db, round, 5, 8, 12), None);
    assert_eq!(claim(&mut db, round, 5, 9, 12), Some(9));
    assert_eq!(claim(&mut db, round, 5, 100, 13), None);
}

#[test]
fn worker_is_handed_the_batch_that_it_took() {
    let mut db = Db::default();
    save_inputs(&mut db, u32::MAX, 0);
    let taken = claim(&mut db, AggregationRound::BasicCircuits, 5, u32::MAX, 1);
    let handed = WitnessGeneratorDal::basic_circuit_witness_job::<u8>(taken);
    assert_eq!(handed.map(|job| job.block_number), Some(L1BatchNumber(u32::MAX)));
}

#[test]
fn taken_job_is_free_after_the_timeout() {
    let round = AggregationRound::BasicCircuits;
    let mut db = Db::default();
    save_inputs(&mut db, 4, 0);
    assert_eq!(claim(&mut db, round, 5, 100, 10), Some(4));
    assert_eq!(claim(&mut db, round, 5, 100, 10 + TIMEOUT.microseconds), None);
    assert_eq!(claim(&mut db, round, 5, 100, 11 + TIMEOUT.microseconds), Some(4));
    assert_eq!(cell(&job(&db, round, 4), "attempts"), Cell::Int(2));
}

#[test]
fn waiting_and_finished_jobs_are_not_taken() {
    let mut db = Db::default();
    create_jobs(&mut db, 4, 0).expect("the jobs are new");
    for round in [
        AggregationRound::LeafAggregation,
        AggregationRound::NodeAggregation,
        AggregationRound::Scheduler,
    ] {
        assert_eq!(claim(&mut db, round, 5, 100, 1000 * DAY), None);
    }
    let round = AggregationRound::BasicCircuits;
    save_inputs(&mut db, 4, 0);
    save_inputs(&mut db, 5, 0);
    let done = WitnessGeneratorDal::mark_witness_job_as_successful(L1BatchNumber(4), round, TIME_TAKEN);
    run(&mut db, &done, 1);
    let skip = WitnessGeneratorDal::mark_witness_job_as_skipped(L1BatchNumber(5), round);
    take_all(&mut db, &skip, 1).expect("the statement was refused");
    assert_eq!(claim(&mut db, round, 5, 100, 1000 * DAY), None);
}

#[test]
fn job_gets_its_status() {
    let round = AggregationRound::NodeAggregation;
    let mut db = Db::default();
    create_jobs(&mut db, 4, 0).expect("the jobs are new");
    let before = db.clone();
    let waiting =
        WitnessGeneratorDal::mark_witness_job_as_waiting_for_proofs(L1BatchNumber(4), round);
    run(&mut db, &waiting, 1);
    assert_eq!(status(&db, round, 4), text("waiting_for_proofs"));
    assert_eq!(cell(&job(&db, round, 4), "updated_at"), Cell::Time(1));
    assert_eq!(cell(&job(&db, round, 4), "created_at"), Cell::Time(0));
    for other in [AggregationRound::LeafAggregation, AggregationRound::Scheduler] {
        assert_eq!(job(&db, other, 4), job(&before, other, 4));
    }
    let unchanged = db.clone();
    let absent = WitnessGeneratorDal::mark_witness_job_as_queued(L1BatchNumber(5), round);
    run(&mut db, &absent, 2);
    assert_eq!(db, unchanged);
}

#[test]
fn queued_job_may_be_taken() {
    let round = AggregationRound::Scheduler;
    let mut db = Db::default();
    create_jobs(&mut db, 4, 0).expect("the jobs are new");
    let queue = WitnessGeneratorDal::mark_witness_job_as_queued(L1BatchNumber(4), round);
    run(&mut db, &queue, 1);
    assert_eq!(claim(&mut db, round, 5, 3, 2), None);
    assert_eq!(claim(&mut db, round, 5, 4, 2), Some(4));
}

#[test]
fn successful_job_gets_its_time() {
    let round = AggregationRound::BasicCircuits;
    let mut db = Db::default();
    save_inputs(&mut db, 4, 0);
    let done = WitnessGeneratorDal::mark_witness_job_as_successful(L1BatchNumber(4), round, TIME_TAKEN);
    run(&mut db, &done, 3);
    assert_eq!(status(&db, round, 4), text("successful"));
    assert_eq!(cell(&job(&db, round, 4), "time_taken"), Cell::TimeOfDay(TIME_TAKEN));
    assert_eq!(cell(&job(&db, round, 4), "updated_at"), Cell::Time(3));
}

#[test]
fn failed_job_gets_its_error() {
    let round = AggregationRound::BasicCircuits;
    let mut db = Db::default();
    save_inputs(&mut db, 4, 0);
    fail(&mut db, round, 4, 5, 3);
    assert_eq!(status(&db, round, 4), text("failed"));
    assert_eq!(cell(&job(&db, round, 4), "error"), text("no"));
    assert_eq!(cell(&job(&db, round, 4), "time_taken"), Cell::TimeOfDay(TIME_TAKEN));
}

#[test]
fn failed_job_is_tried_again_or_its_proof_is_skipped() {
    let round = AggregationRound::BasicCircuits;
    let mut db = Db::default();
    save_inputs(&mut db, 4, 0);
    for attempt in 1..=2i64 {
        assert_eq!(claim(&mut db, round, 2, 100, attempt), Some(4));
        assert!(db.skipped_proofs.is_empty());
        fail(&mut db, round, 4, 2, attempt);
    }
    assert_eq!(db.skipped_proofs, BTreeSet::from([4]));
    assert_eq!(claim(&mut db, round, 2, 100, 3), None);
}

#[test]
fn limit_on_attempts_that_does_not_fit_admits_no_second_attempt() {
    let round = AggregationRound::BasicCircuits;
    let mut db = Db::default();
    save_inputs(&mut db, 4, 0);
    assert_eq!(claim(&mut db, round, 3_000_000_000, 100, 1), Some(4));
    fail(&mut db, round, 4, 3_000_000_000, 2);
    assert!(db.skipped_proofs.is_empty());
    assert_eq!(claim(&mut db, round, 3_000_000_000, 100, 3), None);
}

#[test]
fn skipped_job_has_its_proof_skipped() {
    let round = AggregationRound::BasicCircuits;
    let mut db = Db::default();
    save_inputs(&mut db, 4, 0);
    let skip = WitnessGeneratorDal::mark_witness_job_as_skipped(L1BatchNumber(4), round);
    take_all(&mut db, &skip, 1).expect("the statement was refused");
    assert_eq!(status(&db, round, 4), text("skipped"));
    assert_eq!(db.skipped_proofs, BTreeSet::from([4]));
}

#[test]
fn created_jobs_wait() {
    let mut db = Db::default();
    create_jobs(&mut db, 4, 7).expect("the jobs are new");
    let leaf = job(&db, AggregationRound::LeafAggregation, 4);
    assert_eq!(cell(&leaf, "status"), text("waiting_for_proofs"));
    assert_eq!(cell(&leaf, "number_of_basic_circuits"), Cell::Int(2));
    assert_eq!(cell(&leaf, "basic_circuits_blob_url"), text("circuits"));
    assert_eq!(cell(&leaf, "basic_circuits_inputs_blob_url"), text("inputs"));
    assert_eq!(status(&db, AggregationRound::NodeAggregation, 4), text("waiting_for_artifacts"));
    let scheduler = job(&db, AggregationRound::Scheduler, 4);
    assert_eq!(cell(&scheduler, "status"), text("waiting_for_artifacts"));
    assert_eq!(cell(&scheduler, "scheduler_witness_blob_url"), text("witness"));
    assert_eq!(cell(&scheduler, "created_at"), Cell::Time(7));
}

#[test]
fn jobs_are_not_created_twice() {
    let mut db = Db::default();
    create_jobs(&mut db, 4, 0).expect("the jobs are new");
    assert_eq!(create_jobs(&mut db, 4, 1), Err(()));
    assert!(create_jobs(&mut db, 5, 1).is_ok());
}

#[test]
fn saved_inputs_are_queued_once() {
    let round = AggregationRound::BasicCircuits;
    let mut db = Db::default();
    save_inputs(&mut db, 4, 5);
    assert_eq!(status(&db, round, 4), text("queued"));
    assert_eq!(cell(&job(&db, round, 4), "created_at"), Cell::Time(5));
    assert_eq!(claim(&mut db, round, 5, 100, 6), Some(4));
    let taken = db.clone();
    let again =
        WitnessGeneratorDal::save_witness_inputs(L1BatchNumber(4), "other paths".to_string());
    run(&mut db, &again, 7);
    assert_eq!(db, taken);
}

fn save_leaf_artifacts(db: &mut Db, batch: u32, circuits: usize, now: i64) {
    let statement = WitnessGeneratorDal::save_leaf_aggregation_artifacts(
        L1BatchNumber(batch),
        circuits,
        "subqueues".to_string(),
        "outputs".to_string(),
    );
    run(db, &statement, now);
}

#[test]
fn leaf_artifacts_do_not_unqueue_a_job() {
    let round = AggregationRound::NodeAggregation;
    let mut db = Db::default();
    create_jobs(&mut db, 4, 0).expect("the jobs are new");
    save_leaf_artifacts(&mut db, 4, 3, 1);
    let row = job(&db, round, 4);
    assert_eq!(cell(&row, "status"), text("waiting_for_proofs"));
    assert_eq!(cell(&row, "number_of_leaf_circuits"), Cell::Int(3));
    assert_eq!(cell(&row, "leaf_layer_subqueues_blob_url"), text("subqueues"));
    assert_eq!(cell(&row, "aggregation_outputs_blob_url"), text("outputs"));
    let queue = WitnessGeneratorDal::mark_witness_job_as_queued(L1BatchNumber(4), round);
    run(&mut db, &queue, 2);
    let queued = db.clone();
    save_leaf_artifacts(&mut db, 4, 99, 3);
    assert_eq!(db, queued);
    assert_eq!(claim(&mut db, round, 5, 100, 4), Some(4));
    assert_eq!(cell(&job(&db, round, 4), "number_of_leaf_circuits"), Cell::Int(3));
}

#[test]
fn node_artifacts_do_not_unqueue_a_job() {
    let round = AggregationRound::Scheduler;
    let mut db = Db::default();
    create_jobs(&mut db, 4, 0).expect("the jobs are new");
    let save = |url: &str| {
        WitnessGeneratorDal::save_node_aggregation_artifacts(L1BatchNumber(4), url.to_string())
    };
    run(&mut db, &save("first"), 1);
    assert_eq!(status(&db, round, 4), text("waiting_for_proofs"));
    assert_eq!(claim(&mut db, round, 5, 100, 1), None);
    let queue = WitnessGeneratorDal::mark_witness_job_as_queued(L1BatchNumber(4), round);
    run(&mut db, &queue, 2);
    run(&mut db, &save("second"), 3);
    assert_eq!(claim(&mut db, round, 5, 100, 4), Some(4));
    assert_eq!(cell(&job(&db, round, 4), "final_node_aggregations_blob_url"), text("first"));
}

fn add_proof(db: &mut Db, id: i64, batch: i64, round: i64, status: &str, sequence_number: i64) {
    let row = Row::from([
        ("l1_batch_number".to_string(), Cell::Int(batch)),
        ("aggregation_round".to_string(), Cell::Int(round)),
        ("status".to_string(), text(status)),
        ("sequence_number".to_string(), Cell::Int(sequence_number)),
        ("result".to_string(), Cell::Bytes(vec![id as u8])),
    ]);
    db.tables.entry("prover_jobs".to_string()).or_default().insert(id, row);
}

#[test]
fn job_gets_the_proofs_of_the_round_before() {
    let mut db = Db::default();
    add_proof(&mut db, 1, 4, 0, "successful", 2);
    add_proof(&mut db, 2, 4, 0, "successful", 1);
    add_proof(&mut db, 3, 4, 1, "successful", 1);
    add_proof(&mut db, 4, 5, 0, "successful", 1);
    add_proof(&mut db, 5, 4, 0, "failed", 3);
    let job = WitnessGeneratorDal::leaf_aggregation_witness_job(4, 2);
    let rows = run(&mut db, &job.proofs(), 0);
    let results: Vec<Option<Vec<u8>>> = rows
        .iter()
        .map(|row| match cell(row, "result") {
            Cell::Bytes(bytes) => Some(bytes),
            _ => None,
        })
        .collect();
    let proofs = WitnessGeneratorDal::proof_results(results).expect("all proofs have results");
    assert_eq!(proofs, vec![vec![2], vec![1]]);
    assert!(job.with_proofs(proofs).is_ok());
}

#[test]
fn created_and_saved_circuit_counts_are_required() {
    let mut db = Db::default();
    create_jobs(&mut db, 4, 0).expect("the jobs are new");
    save_leaf_artifacts(&mut db, 4, 3, 1);
    let rounds = [
        (AggregationRound::LeafAggregation, "number_of_basic_circuits", 2),
        (AggregationRound::NodeAggregation, "number_of_leaf_circuits", 3),
    ];
    for (round, column, expected) in rounds {
        let statement = match WitnessGeneratorDal::required_proofs_count(L1BatchNumber(4), round) {
            RequiredProofs::Stored(statement) => statement,
            other => panic!("unexpected: {:?}", other),
        };
        match &statement.query {
            Query::Select { outputs, .. } => {
                assert!(matches!(outputs[..], [Output::ColumnAsCount(c)] if c.name() == column));
            }
            other => panic!("unexpected: {:?}", other),
        }
        let rows = run(&mut db, &statement, 2);
        assert_eq!(rows.len(), 1);
        assert_eq!(cell(&rows[0], column), Cell::Int(expected));
        assert_eq!(WitnessGeneratorDal::stored_proofs_count(expected as i32), expected as usize);
        let job = if round == AggregationRound::LeafAggregation {
            ClaimedJob::LeafAggregation {
                block_number: L1BatchNumber(4),
                number_of_basic_circuits: expected,
            }
        } else {
            ClaimedJob::NodeAggregation {
                block_number: L1BatchNumber(4),
                number_of_leaf_circuits: expected,
            }
        };
        assert!(job.with_proofs(vec![0u8; expected as usize]).is_ok());
        assert!(job.with_proofs(vec![0u8; expected as usize + 1]).is_err());
    }
}

#[test]
fn listed_jobs_are_those_in_the_range() {
    let mut db = Db::default();
    for batch in 1..=5 {
        save_inputs(&mut db, batch, 0);
    }
    create_jobs(&mut db, 3, 0).expect("the jobs are new");
    let all = WitnessGeneratorDal::get_jobs(GetWitnessJobsParams { blocks: None });
    assert_eq!(run(&mut db, &all, 1).len(), 8);
    let some = WitnessGeneratorDal::get_jobs(GetWitnessJobsParams {
        blocks: Some(L1BatchNumber(2)..L1BatchNumber(3)),
    });
    let listed: Vec<(Cell, Cell)> = run(&mut db, &some, 1)
        .iter()
        .map(|row| (cell(row, "aggregation_round"), cell(row, "l1_batch_number")))
        .collect();
    let expected = [(0, 2), (0, 3), (1, 3), (2, 3), (3, 3)];
    assert_eq!(
        listed,
        expected.map(|(round, batch)| (Cell::Int(round), Cell::Int(batch))).to_vec()
    );
}

#[test]
fn last_successful_batch_is_reported() {
    let round = AggregationRound::BasicCircuits;
    let mut db = Db::default();
    for batch in 1..=5 {
        save_inputs(&mut db, batch, 0);
    }
    for batch in [3, 2] {
        let done =
            WitnessGeneratorDal::mark_witness_job_as_successful(L1BatchNumber(batch), round, TIME_TAKEN);
        run(&mut db, &done, 1);
    }
    let mut greatest = [None; 4];
    let statements = WitnessGeneratorDal::get_witness_generated_l1_batches();
    for (reply, statement) in greatest.iter_mut().zip(&statements) {
        *reply = run(&mut db, statement, 2)
            .iter()
            .map(|row| match cell(row, "l1_batch_number") {
                Cell::Int(batch) => batch,
                other => panic!("not a batch number: {:?}", other),
            })
            .max();
    }
    let batches = WitnessGeneratorDal::witness_generated_l1_batches(greatest);
    assert_eq!(batches[3], (L1BatchNumber(3), AggregationRound::BasicCircuits));
    assert_eq!(batches[0], (L1BatchNumber(0), AggregationRound::NodeAggregation));
}

#[test]
fn statistics_count_the_jobs() {
    let round = AggregationRound::BasicCircuits;
    let mut db = Db::default();
    for batch in 1..=5 {
        save_inputs(&mut db, batch, 0);
    }
    claim(&mut db, round, 5, 100, 1);
    fail(&mut db, round, 2, 5, 1);
    assert_eq!(stats(&mut db, round), (3, 1, 1, 0));
}

#[test]
fn final_result_is_stored() {
    let round = AggregationRound::Scheduler;
    let mut db = Db::default();
    create_jobs(&mut db, 4, 0).expect("the jobs are new");
    let mut coords = [[1u8; 32]; 4];
    coords[2] = [9; 32];
    let save = WitnessGeneratorDal::save_final_aggregation_result(L1BatchNumber(4), coords);
    run(&mut db, &save, 1);
    match cell(&job(&db, round, 4), "aggregation_result_coords") {
        Cell::Bytes(bytes) => {
            assert_eq!(bytes.len(), 128);
            for i in 0..4usize {
                assert_eq!(bytes[32 * i..32 * (i + 1)], coords[i]);
            }
        }
        other => panic!("not bytes: {:?}", other),
    }
    assert_eq!(status(&db, round, 4), text("waiting_for_artifacts"));
}

#[test]
fn rounds_have_their_own_tables() {
    for (i, a) in ROUNDS.iter().enumerate() {
        assert_eq!(usize::from(a.number()), i);
        for b in &ROUNDS[..i] {
            assert_ne!(
                WitnessGeneratorDal::input_table_name_for(*a),
                WitnessGeneratorDal::input_table_name_for(*b)
            );
        }
    }
}

fn finish_leaf_job(db: &mut Db, batch: u32, now: i64) {
    create_jobs(db, batch, 0).expect("the jobs are new");
    let done = WitnessGeneratorDal::mark_witness_job_as_successful(
        L1BatchNumber(batch),
        AggregationRound::LeafAggregation,
        TIME_TAKEN,
    );
    run(db, &done, now);
}

fn cleanable(db: &mut Db, limit: u8, now: i64) -> Vec<(i64, (String, String))> {
    let statement =
        WitnessGeneratorDal::get_basic_circuit_and_circuit_inputs_blob_urls_to_be_cleaned(limit);
    let url = |row: &Row, column: &str| match cell(row, column) {
        Cell::Text(url) => Some(url),
        _ => None,
    };
    let rows = run(db, &statement, now)
        .iter()
        .map(|row| match cell(row, "l1_batch_number") {
            Cell::Int(batch) => (
                batch,
                url(row, "basic_circuits_blob_url"),
                url(row, "basic_circuits_inputs_blob_url"),
            ),
            other => panic!("not a batch number: {:?}", other),
        })
        .collect();
    WitnessGeneratorDal::blob_urls_to_be_cleaned(rows).expect("no address is missing")
}

#[test]
fn blobs_of_old_finished_jobs_are_found() {
    let mut db = Db::default();
    finish_leaf_job(&mut db, 4, 0);
    finish_leaf_job(&mut db, 5, DAY);
    create_jobs(&mut db, 6, 0).expect("the jobs are new");
    assert_eq!(cleanable(&mut db, 10, 30 * DAY), vec![]);
    let urls = ("circuits".to_string(), "inputs".to_string());
    assert_eq!(cleanable(&mut db, 10, 30 * DAY + 1), vec![(4, urls.clone())]);
    assert_eq!(cleanable(&mut db, 10, 40 * DAY).len(), 2);
    assert_eq!(cleanable(&mut db, 1, 40 * DAY).len(), 1);
    assert_eq!(cleanable(&mut db, 0, 40 * DAY).len(), 0);
}

#[test]
fn cleaned_blobs_are_not_found_again() {
    let mut db = Db::default();
    finish_leaf_job(&mut db, 4, 0);
    finish_leaf_job(&mut db, 5, 0);
    let mark = WitnessGeneratorDal::mark_leaf_aggregation_gcs_blobs_as_cleaned(vec![4, 77]);
    run(&mut db, &mark, 40 * DAY);
    let found: Vec<i64> = cleanable(&mut db, 10, 100 * DAY).into_iter().map(|(b, _)| b).collect();
    assert_eq!(found, vec![5]);
    let leaf = AggregationRound::LeafAggregation;
    assert_eq!(cell(&job(&db, leaf, 4), "is_blob_cleaned"), Cell::Bool(true));
    assert_eq!(cell(&job(&db, leaf, 4), "updated_at"), Cell::Time(0));
    assert_eq!(cell(&job(&db, leaf, 5), "is_blob_cleaned"), Cell::Bool(false));
}

#[test]
fn skipping_is_all_or_nothing() {
    let round = AggregationRound::BasicCircuits;
    let mut db = Db::default();
    save_inputs(&mut db, 4, 0);
    let steps = WitnessGeneratorDal::mark_witness_job_as_skipped(L1BatchNumber(4), round);
    for n in 0..steps.len() {
        assert_eq!(left_after(&db, &steps, n, 1), db);
    }
    let after = left_after(&db, &steps, steps.len(), 1);
    assert_eq!(status(&after, round, 4), text("skipped"));
    assert_eq!(after.skipped_proofs, BTreeSet::from([4]));
}

#[test]
fn failing_is_all_or_nothing() {
    let round = AggregationRound::BasicCircuits;
    let mut db = Db::default();
    save_inputs(&mut db, 4, 0);
    for (attempts, skipped) in [(5, BTreeSet::from([4])), (4, BTreeSet::new())] {
        let mut steps = WitnessGeneratorDal::mark_witness_job_as_failed(
            L1BatchNumber(4),
            round,
            TIME_TAKEN,
            "no".to_string(),
        );
        steps.extend(WitnessGeneratorDal::after_failure(L1BatchNumber(4), attempts, 5));
        for n in 0..steps.len() {
            assert_eq!(left_after(&db, &steps, n, 1), db);
        }
        let after = left_after(&db, &steps, steps.len(), 1);
        assert_eq!(status(&after, round, 4), text("failed"));
        assert_eq!(after.skipped_proofs, skipped);
    }
}

#[test]
fn creation_keeps_the_jobs_that_it_added() {
    let steps = WitnessGeneratorDal::create_aggregation_jobs(
        L1BatchNumber(4),
        2,
        "circuits".to_string(),
        "inputs".to_string(),
        "witness".to_string(),
    );
    let has_job = |db: &Db, round| {
        let name = WitnessGeneratorDal::input_table_name_for(round);
        db.tables.get(name).is_some_and(|table| table.contains_key(&4))
    };
    for n in 0..=3 {
        let after = left_after(&Db::default(), &steps, n, 7);
        for (i, round) in ROUNDS[1..].iter().enumerate() {
            assert_eq!(has_job(&after, *round), i < n);
        }
    }
    // A batch that has a scheduler job only: the two other jobs are added and stay.
    let mut db = Db::default();
    create_jobs(&mut db, 4, 0).expect("the jobs are new");
    db.tables.remove("leaf_aggregation_witness_jobs");
    db.tables.remove("node_aggregation_witness_jobs");
    let after = left_after(&db, &steps, 3, 7);
    let leaf = job(&after, AggregationRound::LeafAggregation, 4);
    assert_eq!(cell(&leaf, "created_at"), Cell::Time(7));
    assert_eq!(cell(&leaf, "updated_at"), Cell::Time(7));
    assert!(has_job(&after, AggregationRound::NodeAggregation));
    assert_eq!(
        job(&after, AggregationRound::Scheduler, 4),
        job(&db, AggregationRound::Scheduler, 4)
    );
}

/// Runs one operation of each sort on the batch, all but those that save artifacts.
fn run_other_operations(db: &mut Db, batch: u32, now: i64) {
    let block_number = L1BatchNumber(batch);
    save_inputs(db, batch, now);
    assert_eq!(create_jobs(db, batch, now), Err(()));
    for round in ROUNDS {
        let waiting =
            WitnessGeneratorDal::mark_witness_job_as_waiting_for_proofs(block_number, round);
        run(db, &waiting, now);
        run(db, &WitnessGeneratorDal::mark_witness_job_as_queued(block_number, round), now);
        claim(db, round, 5, 100, now);
        fail(db, round, batch, 5, now);
        let skip = WitnessGeneratorDal::mark_witness_job_as_skipped(block_number, round);
        take_all(db, &skip, now).expect("the statement was refused");
        let done =
            WitnessGeneratorDal::mark_witness_job_as_successful(block_number, round, TIME_TAKEN);
        run(db, &done, now);
    }
    let result = WitnessGeneratorDal::save_final_aggregation_result(block_number, [[1; 32]; 4]);
    run(db, &result, now);
}

#[test]
fn cleaned_blobs_are_never_found_again() {
    let mut db = Db::default();
    finish_leaf_job(&mut db, 4, 0);
    let mark = WitnessGeneratorDal::mark_leaf_aggregation_gcs_blobs_as_cleaned(vec![4]);
    run(&mut db, &mark, 40 * DAY);
    run_other_operations(&mut db, 4, 50 * DAY);
    assert_eq!(status(&db, AggregationRound::LeafAggregation, 4), text("successful"));
    assert_eq!(cleanable(&mut db, 10, 500 * DAY), vec![]);
}

#[test]
fn circuit_counts_stay_required() {
    let mut db = Db::default();
    create_jobs(&mut db, 4, 0).expect("the jobs are new");
    create_jobs(&mut db, 5, 0).expect("the jobs are new");
    save_leaf_artifacts(&mut db, 4, 3, 1);
    run_other_operations(&mut db, 4, 2);
    save_leaf_artifacts(&mut db, 5, 9, 3);
    save_leaf_artifacts(&mut db, 4, 3, 4);
    let leaf = job(&db, AggregationRound::LeafAggregation, 4);
    assert_eq!(cell(&leaf, "number_of_basic_circuits"), Cell::Int(2));
    let node = job(&db, AggregationRound::NodeAggregation, 4);
    assert_eq!(cell(&node, "number_of_leaf_circuits"), Cell::Int(3));
}

fn reported(db: &mut Db, now: i64) -> L1BatchNumber {
    let statements = WitnessGeneratorDal::get_witness_generated_l1_batches();
    let greatest = run(db, &statements[3], now)
        .iter()
        .map(|row| match cell(row, "l1_batch_number") {
            Cell::Int(batch) => batch,
            other => panic!("not a batch number: {:?}", other),
        })
        .max();
    WitnessGeneratorDal::witness_generated_l1_batches([None, None, None, greatest])[3].0
}

#[test]
fn marked_batch_is_reported_if_greater() {
    let round = AggregationRound::BasicCircuits;
    let mut db = Db::default();
    for batch in 1..=5 {
        save_inputs(&mut db, batch, 0);
    }
    for (marked, expected) in [(3, 3), (2, 3), (9, 3), (5, 5)] {
        let done = WitnessGeneratorDal::mark_witness_job_as_successful(
            L1BatchNumber(marked),
            round,
            TIME_TAKEN,
        );
        run(&mut db, &done, 1);
        assert_eq!(reported(&mut db, 2), L1BatchNumber(expected));
    }
}

fn stats(db: &mut Db, round: AggregationRound) -> (usize, usize, usize, usize) {
    let mut counts: BTreeMap<String, i64> = BTreeMap::new();
    for row in run(db, &WitnessGeneratorDal::get_witness_jobs_stats(round), 0) {
        match cell(&row, "status") {
            Cell::Text(status) => *counts.entry(status).or_default() += 1,
            other => panic!("not a status: {:?}", other),
        }
    }
    let stats = WitnessGeneratorDal::witness_jobs_stats(counts.into_iter().collect());
    (stats.queued, stats.in_progress, stats.failed, stats.successful)
}

#[test]
fn taken_job_moves_in_the_statistics() {
    let round = AggregationRound::BasicCircuits;
    let mut db = Db::default();
    for batch in 1..=3 {
        save_inputs(&mut db, batch, 0);
    }
    assert_eq!(stats(&mut db, round), (3, 0, 0, 0));
    assert_eq!(claim(&mut db, round, 5, 100, 1), Some(1));
    assert_eq!(stats(&mut db, round), (2, 1, 0, 0));
    assert_eq!(claim(&mut db, round, 5, 100, 1), Some(2));
    assert_eq!(stats(&mut db, round), (1, 2, 0, 0));
}

#[test]
fn steps_keep_jobs() {
    let mut db = Db::default();
    save_inputs(&mut db, 4, 0);
    create_jobs(&mut db, 4, 0).expect("the jobs are new");
    claim(&mut db, AggregationRound::BasicCircuits, 1, 100, 1);
    fail(&mut db, AggregationRound::BasicCircuits, 4, 1, 2);
    let skip = WitnessGeneratorDal::mark_witness_job_as_skipped(
        L1BatchNumber(4),
        AggregationRound::LeafAggregation,
    );
    take_all(&mut db, &skip, 3).expect("the statement was refused");
    for round in ROUNDS {
        assert_eq!(cell(&job(&db, round, 4), "l1_batch_number"), Cell::Int(4));
        assert!(matches!(status(&db, round, 4), Cell::Text(_)));
    }
    assert_eq!(db.skipped_proofs, BTreeSet::from([4]));
}
