//! The vocabulary of the laws, and the lemmas that they share.
use vstd::prelude::*;

use crate::meaning::{
    assigned, cell, claimable, first_found, has_a_status, has_status, holds_jobs, is_job, is_least,
    least, meets, run, take_all, Database, Row,
};
use crate::query::{keeps_status, ArgView, StatementView, StepView};
use crate::sql::{table_of, Assignment, Column, Condition, TableName};
use crate::statements::{batch_arg, claim_statement};
use crate::types::{AggregationRound, Interval, JobStatus, L1BatchNumber};

verus! {

/// The limits with which a worker looks for a job.
pub struct Search {
    pub processing_timeout: Interval,
    pub max_attempts: u32,
    pub last_l1_batch_to_process: u32,
}

impl Search {
    /// The statement with which a worker looks for a job of the round.
    pub open spec fn statement(self, round: AggregationRound) -> StatementView {
        claim_statement(
            table_of(round),
            self.processing_timeout,
            self.max_attempts,
            self.last_l1_batch_to_process,
        )
    }

    /// Whether the worker may take the job of the round for the batch with this number at the
    /// time `now`.
    pub open spec fn allows(
        self,
        db: Database,
        round: AggregationRound,
        batch: int,
        now: int,
    ) -> bool {
        &&& db.has_job(round, batch)
        &&& batch <= self.last_l1_batch_to_process
        &&& claimable(
            db.job(round, batch),
            self.processing_timeout.microseconds as int,
            (self.max_attempts as i32) as int,
            now,
        )
    }

    /// The batch whose job of the round the worker gets at the time `now`, if any, while others
    /// have the rows of the batches in `locked` locked.
    pub open spec fn taken(
        self,
        db: Database,
        round: AggregationRound,
        locked: Set<int>,
        now: int,
    ) -> Option<int> {
        let statement = self.statement(round);
        first_found(
            db.table(table_of(round)),
            statement.query->UpdateFirst_filter,
            statement.args,
            locked,
            now,
        )
    }
}

/// Whether the two databases differ in nothing but the job of the round for the batch with this
/// number.
pub open spec fn same_but_for(
    db: Database,
    after: Database,
    round: AggregationRound,
    batch: int,
) -> bool {
    &&& after.skipped_proofs == db.skipped_proofs
    &&& after.defaults == db.defaults
    &&& forall|name: TableName|
        name != table_of(round) ==> #[trigger] after.table(name) == db.table(name)
    &&& after.table(table_of(round)).dom() == db.table(table_of(round)).dom()
    &&& forall|other: int|
        other != batch && db.has_job(round, other) ==> #[trigger] after.job(round, other)
            == db.job(round, other)
}

/// Whether the two databases differ in nothing but that there is a job of the round for the batch
/// with this number in the second and none in the first.
pub open spec fn same_but_for_new(
    db: Database,
    after: Database,
    round: AggregationRound,
    batch: int,
) -> bool {
    &&& after.skipped_proofs == db.skipped_proofs
    &&& after.defaults == db.defaults
    &&& forall|name: TableName|
        name != table_of(round) ==> #[trigger] after.table(name) == db.table(name)
    &&& !db.has_job(round, batch)
    &&& after.table(table_of(round)).dom() == db.table(table_of(round)).dom().insert(batch)
    &&& forall|other: int|
        db.has_job(round, other) ==> #[trigger] after.job(round, other) == db.job(round, other)
}

/// Whether the two rows differ in no column that is not among `columns`.
pub open spec fn same_row_but_for(row: Row, after: Row, columns: Seq<Column>) -> bool {
    forall|column: Column|
        !columns.contains(column) ==> #[trigger] cell(after, column) == cell(row, column)
}

/// No two statuses are spelled alike.
pub proof fn law_statuses_are_distinct(a: JobStatus, b: JobStatus)
    ensures
        a.text() == b.text() ==> a == b,
{
    reveal_strlit("waiting_for_artifacts");
    reveal_strlit("waiting_for_proofs");
    reveal_strlit("queued");
    reveal_strlit("in_progress");
    reveal_strlit("successful");
    reveal_strlit("failed");
    reveal_strlit("skipped");
    if a.text() == b.text() {
        assert(a.text().len() == b.text().len());
        assert(a.text()[0] == b.text()[0]);
        assert(a.text()[1] == b.text()[1]);
    }
}

/// A finite set of numbers has a least one unless it is empty.
pub(crate) proof fn lemma_least(keys: Set<int>)
    requires
        keys.finite(),
    ensures
        match least(keys) {
            Some(key) => is_least(key, keys),
            None => keys =~= Set::<int>::empty(),
        },
    decreases keys.len(),
{
    if !(keys =~= Set::<int>::empty()) {
        let key = keys.choose();
        let rest = keys.remove(key);
        lemma_least(rest);
        match least(rest) {
            Some(other) => {
                let least_key = if other < key { other } else { key };
                assert forall|k: int| #[trigger] keys.contains(k) implies least_key <= k by {
                    if k != key {
                        assert(rest.contains(k));
                    }
                }
                assert(is_least(least_key, keys));
            },
            None => {
                assert forall|k: int| #[trigger] keys.contains(k) implies key <= k by {
                    if k != key {
                        assert(rest.contains(k));
                    }
                }
                assert(is_least(key, keys));
            },
        }
    }
}

/// A column holds what it was last set to.
pub(crate) proof fn lemma_assigned_to(row: Row, set: Seq<Assignment>, args: Seq<ArgView>, now: int, i: int)
    requires
        0 <= i < set.len(),
        forall|j: int| i < j < set.len() ==> (#[trigger] set[j]).column != set[i].column,
    ensures
        cell(assigned(row, set, args, now), set[i].column) == set[i].datum(row, args, now),
    decreases set.len(),
{
    if i < set.len() - 1 {
        assert(set[set.len() - 1].column != set[i].column);
        lemma_assigned_to(row, set.drop_last(), args, now, i);
    }
}

/// A column that is not set holds what it held.
pub(crate) proof fn lemma_not_assigned_to(
    row: Row,
    set: Seq<Assignment>,
    args: Seq<ArgView>,
    now: int,
    column: Column,
)
    requires
        forall|j: int| 0 <= j < set.len() ==> (#[trigger] set[j]).column != column,
    ensures
        cell(assigned(row, set, args, now), column) == cell(row, column),
    decreases set.len(),
{
    if set.len() > 0 {
        assert(set[set.len() - 1].column != column);
        assert forall|j: int| 0 <= j < set.drop_last().len() implies (#[trigger] set.drop_last()[j]).column
            != column by {
            assert(set[j].column != column);
        }
        lemma_not_assigned_to(row, set.drop_last(), args, now, column);
    }
}

/// A row that has a status, or is given one, has one after the assignments.
pub(crate) proof fn lemma_assigned_status(
    row: Row,
    set: Seq<Assignment>,
    args: Seq<ArgView>,
    now: int,
)
    requires
        keeps_status(set),
        has_a_status(row) || exists|i: int|
            0 <= i < set.len() && (#[trigger] set[i]).column == Column::Status,
    ensures
        has_a_status(assigned(row, set, args, now)),
    decreases set.len(),
{
    if set.len() > 0 {
        let rest = set.drop_last();
        let last = set[set.len() - 1];
        if last.column == Column::Status {
            assert(has_status(assigned(row, set, args, now), last.value->Status_0));
        } else {
            assert forall|i: int|
                0 <= i < rest.len() && (#[trigger] rest[i]).column
                    == Column::Status implies rest[i].value is Status by {
                assert(set[i] == rest[i]);
            }
            if !has_a_status(row) {
                let i = choose|i: int|
                    0 <= i < set.len() && (#[trigger] set[i]).column == Column::Status;
                assert(rest[i].column == Column::Status);
            }
            lemma_assigned_status(row, rest, args, now);
            let before = assigned(row, rest, args, now);
            let status = choose|status: JobStatus| has_status(before, status);
            assert(has_status(assigned(row, set, args, now), status));
        }
    }
}

/// The columns that are not in the list of those that are set hold what they held.
pub(crate) proof fn lemma_assigned_frame(
    row: Row,
    set: Seq<Assignment>,
    args: Seq<ArgView>,
    now: int,
    columns: Seq<Column>,
)
    requires
        columns == set.map_values(|assignment: Assignment| assignment.column),
    ensures
        same_row_but_for(row, assigned(row, set, args, now), columns),
{
    assert forall|column: Column| !columns.contains(column) implies #[trigger] cell(
        assigned(row, set, args, now),
        column,
    ) == cell(row, column) by {
        assert forall|j: int| 0 <= j < set.len() implies (#[trigger] set[j]).column != column by {
            assert(columns[j] == set[j].column);
        }
        lemma_not_assigned_to(row, set, args, now, column);
    }
}

/// What an update does that finds no row but that of one batch.
pub(crate) proof fn lemma_update_of_one_batch(
    db: Database,
    round: AggregationRound,
    statement: StatementView,
    batch: int,
    locked: Set<int>,
    now: int,
)
    requires
        db.well_formed(),
        statement.query is Update,
        statement.query->Update_table == table_of(round),
        forall|key: int| #[trigger]
            db.has_job(round, key) && meets(
                db.job(round, key),
                statement.query->Update_filter,
                statement.args,
                now,
            ) ==> key == batch,
    ensures
        run(db, statement, locked, now) matches Some(after) && same_but_for(
            db,
            after,
            round,
            batch,
        ) && ({
            let found = db.has_job(round, batch) && meets(
                db.job(round, batch),
                statement.query->Update_filter,
                statement.args,
                now,
            );
            &&& found ==> after.job(round, batch) == assigned(
                db.job(round, batch),
                statement.query->Update_set,
                statement.args,
                now,
            )
            &&& !found ==> after == db
        }),
{
    let name = table_of(round);
    let table = db.table(name);
    let after = run(db, statement, locked, now)->Some_0;
    let filter = statement.query->Update_filter;
    assert(after.table(name).dom() =~= table.dom());
    if !(db.has_job(round, batch) && meets(table[batch], filter, statement.args, now)) {
        assert forall|key: int| table.dom().contains(key) implies !meets(
            table[key],
            filter,
            statement.args,
            now,
        ) by {
            assert(db.has_job(round, key));
        }
        assert(after.table(name) =~= table);
        assert(after.tables =~= db.tables);
        assert(after =~= db);
    }
}

/// A row meets the condition on the batch number alone if and only if it is that of the batch.
pub(crate) proof fn lemma_batch_filter(
    db: Database,
    round: AggregationRound,
    filter: Seq<Condition>,
    args: Seq<ArgView>,
    k: u8,
    block_number: L1BatchNumber,
    key: int,
    now: int,
)
    requires
        db.well_formed(),
        filter == seq![Condition::BatchIs(k)],
        1 <= k <= args.len(),
        args[k - 1] == batch_arg(block_number),
        db.has_job(round, key),
    ensures
        meets(db.job(round, key), filter, args, now) <==> key == block_number.0,
{
    assert(holds_jobs(db.table(table_of(round))));
    assert(filter[0] == Condition::BatchIs(k));
    assert(meets(db.job(round, key), filter, args, now) <==> filter[0].holds(
        db.job(round, key),
        args,
        now,
    ));
}

/// What an insertion does whose first value is the batch number.
pub(crate) proof fn lemma_insert(
    db: Database,
    round: AggregationRound,
    statement: StatementView,
    block_number: L1BatchNumber,
    locked: Set<int>,
    now: int,
)
    requires
        db.well_formed(),
        statement.well_formed(),
        statement.query is Insert,
        statement.query->Insert_table == table_of(round),
        statement.args[0] == batch_arg(block_number),
    ensures
        ({
            let batch = block_number.0 as int;
            let row = assigned(
                db.defaults[table_of(round)],
                statement.query->values,
                statement.args,
                now,
            );
            if !db.has_job(round, batch) {
                &&& run(db, statement, locked, now) matches Some(after)
                &&& same_but_for_new(db, after, round, batch)
                &&& after.well_formed()
                &&& after.has_job(round, batch)
                &&& after.job(round, batch) == row
            } else if statement.query->keep_existing {
                run(db, statement, locked, now) == Some(db)
            } else {
                run(db, statement, locked, now) is None
            }
        }),
{
    let name = table_of(round);
    let values = statement.query->values;
    let batch = block_number.0 as int;
    let row = assigned(db.defaults[name], values, statement.args, now);
    assert forall|j: int| 0 < j < values.len() implies (#[trigger] values[j]).column
        != values[0].column by {
        assert(values.skip(1)[j - 1] == values[j]);
    }
    lemma_assigned_to(db.defaults[name], values, statement.args, now, 0);
    lemma_assigned_status(db.defaults[name], values, statement.args, now);
    assert(is_job(batch, row));
    assert(holds_jobs(db.table(name)));
    if !db.has_job(round, batch) {
        let after = run(db, statement, locked, now)->Some_0;
        assert(after.table(name).dom() =~= db.table(name).dom().insert(batch));
        assert forall|other: TableName| other != TableName::ProverJobs implies holds_jobs(
            #[trigger] after.table(other),
        ) by {
            if other != name {
                assert(after.table(other) == db.table(other));
            }
        }
        assert forall|other: TableName| #[trigger] after.tables.dom().contains(other) by {
            assert(db.tables.dom().contains(other));
        }
    }
}

/// Steps may be taken in two parts.
pub(crate) proof fn lemma_take_all_concat(
    db: Database,
    first: Seq<StepView>,
    second: Seq<StepView>,
    locked: Set<int>,
    now: int,
)
    ensures
        take_all(db, first + second, locked, now) == match take_all(db, first, locked, now) {
            Some(before) => take_all(before, second, locked, now),
            None => None,
        },
    decreases second.len(),
{
    if second.len() == 0 {
        assert(first + second =~= first);
    } else {
        assert((first + second).drop_last() =~= first + second.drop_last());
        lemma_take_all_concat(db, first, second.drop_last(), locked, now);
    }
}

/// A single step.
pub(crate) proof fn lemma_take_one(db: Database, step: StepView, locked: Set<int>, now: int)
    ensures
        take_all(db, seq![step], locked, now) == match step {
            StepView::Begin => Some(db),
            StepView::Run(statement) => run(db, statement, locked, now),
            StepView::SkipProof(block_number) => Some(db.with_skipped_proof(block_number)),
            StepView::Commit => Some(db),
        },
{
    assert(seq![step].drop_last() =~= seq![]);
    reveal_with_fuel(take_all, 2);
}

/// Three statements, one after the other.
pub(crate) proof fn lemma_three_steps(
    db: Database,
    first: StatementView,
    second: StatementView,
    third: StatementView,
    locked: Set<int>,
    now: int,
)
    ensures
        take_all(
            db,
            seq![StepView::Run(first), StepView::Run(second), StepView::Run(third)],
            locked,
            now,
        ) == match run(db, first, locked, now) {
            Some(one) => match run(one, second, locked, now) {
                Some(two) => run(two, third, locked, now),
                None => None,
            },
            None => None,
        },
{
    let a = seq![StepView::Run(first)];
    let b = seq![StepView::Run(second)];
    let c = seq![StepView::Run(third)];
    assert(seq![StepView::Run(first), StepView::Run(second), StepView::Run(third)] =~= a + (b + c));
    lemma_take_all_concat(db, a, b + c, locked, now);
    lemma_take_one(db, StepView::Run(first), locked, now);
    match run(db, first, locked, now) {
        Some(one) => {
            lemma_take_all_concat(one, b, c, locked, now);
            lemma_take_one(one, StepView::Run(second), locked, now);
            match run(one, second, locked, now) {
                Some(two) => {
                    lemma_take_one(two, StepView::Run(third), locked, now);
                },
                None => {},
            }
        },
        None => {},
    }
}

} // verus!
