//! What all statements keep.
use vstd::prelude::*;

use crate::laws::common::{lemma_assigned_status, lemma_assigned_to, lemma_not_assigned_to};
use crate::meaning::{
    assigned, cell, found, holds_jobs, is_job, is_least, least, run, take_all, Database, Row,
};
use crate::query::{
    keeps_batch, keeps_status, steps_well_formed, ArgView, QueryView, StatementView, StepView,
};
use crate::sql::{table_of, Assignment, Column, TableName};
use crate::types::AggregationRound;

verus! {

/// Every round has a table of its own, with a name of its own.
pub proof fn law_rounds_have_their_own_tables(a: AggregationRound, b: AggregationRound)
    ensures
        table_of(a) == table_of(b) ==> a == b,
        table_of(a).text() == table_of(b).text() ==> a == b,
        a.number() == b.number() ==> a == b,
        table_of(a) != TableName::ProverJobs,
{
    reveal_strlit("witness_inputs");
    reveal_strlit("leaf_aggregation_witness_jobs");
    reveal_strlit("node_aggregation_witness_jobs");
    reveal_strlit("scheduler_witness_jobs");
    if table_of(a).text() == table_of(b).text() {
        assert(table_of(a).text()[0] == table_of(b).text()[0]);
    }
}

/// A job stays a job of the same batch when columns of it are set.
proof fn lemma_job_stays_job(
    key: int,
    row: Row,
    set: Seq<Assignment>,
    args: Seq<ArgView>,
    now: int,
)
    requires
        is_job(key, row),
        keeps_batch(set),
        keeps_status(set),
    ensures
        is_job(key, assigned(row, set, args, now)),
{
    lemma_not_assigned_to(row, set, args, now, Column::L1BatchNumber);
    lemma_assigned_status(row, set, args, now);
}

/// Whatever statement is run, the tables of witness jobs stay tables of jobs: every row has the
/// number of its batch and one of the statuses. No job ever goes away, and no statement touches
/// the proofs that are skipped.
pub proof fn law_jobs_stay_jobs(
    db: Database,
    statement: StatementView,
    locked: Set<int>,
    now: int,
)
    requires
        db.well_formed(),
        statement.well_formed(),
    ensures
        run(db, statement, locked, now) matches Some(after) ==> {
            &&& after.well_formed()
            &&& after.skipped_proofs == db.skipped_proofs
            &&& forall|round: AggregationRound, batch: int|
                db.has_job(round, batch) ==> #[trigger] after.has_job(round, batch)
        },
{
    let args = statement.args;
    match run(db, statement, locked, now) {
        Some(after) => {
            match statement.query {
                QueryView::Update { table, set, filter, .. } => {
                    let before = db.table(table);
                    assert(holds_jobs(before));
                    assert(after.table(table).dom() =~= before.dom());
                    assert forall|key: int| #[trigger]
                        after.table(table).dom().contains(key) implies is_job(
                        key,
                        after.table(table)[key],
                    ) by {
                        assert(before.dom().contains(key));
                        lemma_job_stays_job(key, before[key], set, args, now);
                    }
                    lemma_one_table(db, after, table);
                },
                QueryView::UpdateFirst { table, set, filter } => {
                    let before = db.table(table);
                    let keys = found(before, filter, args, now).difference(locked);
                    assert(holds_jobs(before));
                    if exists|key: int| is_least(key, keys) {
                        let key = least(keys)->Some_0;
                        assert(keys.contains(key) && before.dom().contains(key));
                        assert(after.table(table).dom() =~= before.dom());
                        lemma_job_stays_job(key, before[key], set, args, now);
                        assert forall|other: int| #[trigger]
                            after.table(table).dom().contains(other) implies is_job(
                            other,
                            after.table(table)[other],
                        ) by {
                            assert(before.dom().contains(other));
                        }
                        lemma_one_table(db, after, table);
                    }
                },
                QueryView::Insert { table, values, keep_existing } => {
                    let before = db.table(table);
                    let row = assigned(db.defaults[table], values, args, now);
                    assert(holds_jobs(before));
                    assert forall|j: int| 0 < j < values.len() implies (#[trigger] values[j]).column
                        != values[0].column by {
                        assert(values.skip(1)[j - 1] == values[j]);
                    }
                    lemma_assigned_to(db.defaults[table], values, args, now, 0);
                    lemma_assigned_status(db.defaults[table], values, args, now);
                    let key = cell(row, Column::L1BatchNumber)->Int_0;
                    assert(is_job(key, row));
                    if !before.dom().contains(key) {
                        assert(after.table(table).dom() =~= before.dom().insert(key));
                        assert forall|other: int| #[trigger]
                            after.table(table).dom().contains(other) implies is_job(
                            other,
                            after.table(table)[other],
                        ) by {
                            if other != key {
                                assert(before.dom().contains(other));
                            }
                        }
                        lemma_one_table(db, after, table);
                    }
                },
                QueryView::Select { .. } => {},
                QueryView::ListJobs { .. } => {},
            }
        },
        None => {},
    }
}

/// What follows where only one table is another one.
proof fn lemma_one_table(db: Database, after: Database, table: TableName)
    requires
        db.well_formed(),
        table != TableName::ProverJobs,
        after == db.with_table(table, after.table(table)),
        holds_jobs(after.table(table)),
        db.table(table).dom().subset_of(after.table(table).dom()),
    ensures
        after.well_formed(),
        forall|round: AggregationRound, batch: int|
            db.has_job(round, batch) ==> #[trigger] after.has_job(round, batch),
{
    assert forall|name: TableName| name != TableName::ProverJobs implies holds_jobs(
        #[trigger] after.table(name),
    ) by {
        if name != table {
            assert(after.table(name) == db.table(name));
        }
    }
    assert forall|name: TableName| #[trigger] after.tables.dom().contains(name) by {
        assert(db.tables.dom().contains(name));
    }
    assert forall|round: AggregationRound, batch: int|
        db.has_job(round, batch) implies #[trigger] after.has_job(round, batch) by {
        if table_of(round) != table {
            assert(after.table(table_of(round)) == db.table(table_of(round)));
        }
    }
}

/// Whatever steps are taken, the tables of witness jobs stay tables of jobs, no job ever goes away,
/// and no skipped proof is taken up again.
pub proof fn law_steps_keep_jobs(
    db: Database,
    steps: Seq<StepView>,
    locked: Set<int>,
    now: int,
)
    requires
        db.well_formed(),
        steps_well_formed(steps),
    ensures
        take_all(db, steps, locked, now) matches Some(after) ==> {
            &&& after.well_formed()
            &&& db.skipped_proofs.subset_of(after.skipped_proofs)
            &&& forall|round: AggregationRound, batch: int|
                db.has_job(round, batch) ==> #[trigger] after.has_job(round, batch)
        },
    decreases steps.len(),
{
    if steps.len() > 0 {
        let rest = steps.drop_last();
        assert forall|i: int| 0 <= i < rest.len() implies ((#[trigger] rest[i]) matches StepView::Run(
            statement,
        ) ==> statement.well_formed()) by {
            assert(rest[i] == steps[i]);
        }
        law_steps_keep_jobs(db, rest, locked, now);
        match take_all(db, rest, locked, now) {
            Some(before) => {
                match steps.last() {
                    StepView::Run(statement) => {
                        assert(steps[steps.len() - 1] == StepView::Run(statement));
                        law_jobs_stay_jobs(before, statement, locked, now);
                        assert(forall|round: AggregationRound, batch: int|
                            db.has_job(round, batch) ==> #[trigger] before.has_job(round, batch));
                    },
                    StepView::SkipProof(block_number) => {
                        let after = before.with_skipped_proof(block_number);
                        assert(after.tables == before.tables);
                        assert(forall|name: TableName|
                            #[trigger] after.table(name) == before.table(name));
                        assert forall|round: AggregationRound, batch: int|
                            db.has_job(round, batch) implies #[trigger] after.has_job(
                            round,
                            batch,
                        ) by {
                            assert(before.has_job(round, batch));
                        }
                    },
                    StepView::Begin => {},
                    StepView::Commit => {},
                }
            },
            None => {},
        }
    }
}

} // verus!
