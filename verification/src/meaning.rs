//! What a statement means: which rows it finds, what it does to the tables and what it answers.
//!
//! Tables are maps from a key to a row, rows are maps from columns to data. The tables of
//! witness jobs are keyed by the batch number. A comparison with a missing datum does not hold,
//! as in SQL, and no integer column overflows. Time is counted in microseconds.
use vstd::prelude::*;

use crate::query::{ArgView, QueryView, StatementView, StepView};
use crate::sql::{table_of, Assignment, Column, Condition, Operand, Output, TableName};
use crate::types::{AggregationRound, JobStatus, L1BatchNumber, TimeOfDay};

verus! {

/// What a column of a row holds.
pub enum Datum {
    Null,
    Bool(bool),
    Int(int),
    Text(Seq<char>),
    Bytes(Seq<u8>),
    Time(int),
    TimeOfDay(TimeOfDay),
}

/// A row. A column that is not in the map holds nothing.
pub type Row = Map<Column, Datum>;

/// A table, by key.
pub type Table = Map<int, Row>;

pub open spec fn cell(row: Row, column: Column) -> Datum {
    if row.dom().contains(column) {
        row[column]
    } else {
        Datum::Null
    }
}

/// The `k`-th argument, counted from one.
pub open spec fn arg(args: Seq<ArgView>, k: u8) -> ArgView {
    args[k - 1]
}

/// The datum that an argument puts into a column.
pub open spec fn datum(arg: ArgView) -> Datum {
    match arg {
        ArgView::Int4(value) => Datum::Int(value as int),
        ArgView::Int8(value) => Datum::Int(value as int),
        ArgView::Text(value) => Datum::Text(value),
        ArgView::Bytes(value) => Datum::Bytes(value),
        ArgView::TimeOfDay(value) => Datum::TimeOfDay(value),
        ArgView::Interval(_) => Datum::Null,
        ArgView::Int8List(_) => Datum::Null,
    }
}

pub open spec fn equal(a: Datum, b: Datum) -> bool {
    a != Datum::Null && a == b
}

/// Whether the row is that of a job with this status.
pub open spec fn has_status(row: Row, status: JobStatus) -> bool {
    cell(row, Column::Status) == Datum::Text(status.text())
}

/// Whether a worker may take the job at the time `now`: it is queued, or it was taken before
/// `now - timeout` and never finished, or it failed after fewer than `max_attempts` attempts.
pub open spec fn claimable(row: Row, timeout: int, max_attempts: int, now: int) -> bool {
    ||| has_status(row, JobStatus::Queued)
    ||| has_status(row, JobStatus::InProgress) && (cell(
        row,
        Column::ProcessingStartedAt,
    ) matches Datum::Time(started) && started < now - timeout)
    ||| has_status(row, JobStatus::Failed) && (cell(row, Column::Attempts) matches Datum::Int(
        attempts,
    ) && attempts < max_attempts)
}

/// The microseconds in a day.
pub open spec fn day() -> int {
    86_400_000_000
}

/// Whether the row was last changed more than `days` days before `now`.
pub open spec fn not_updated_for(row: Row, days: int, now: int) -> bool {
    cell(row, Column::UpdatedAt) matches Datum::Time(updated) && updated < now - days * day()
}

impl Condition {
    pub open spec fn holds(self, row: Row, args: Seq<ArgView>, now: int) -> bool {
        let batch = cell(row, Column::L1BatchNumber);
        match self {
            Condition::Always => true,
            Condition::BatchIs(k) => equal(batch, datum(arg(args, k))),
            Condition::BatchAtMost(k) => {
                &&& batch matches Datum::Int(number)
                &&& datum(arg(args, k)) matches Datum::Int(bound)
                &&& number <= bound
            },
            Condition::BatchAmong(k) => {
                &&& batch matches Datum::Int(number)
                &&& arg(args, k) matches ArgView::Int8List(numbers)
                &&& exists|i: int| 0 <= i < numbers.len() && number == #[trigger] numbers[i]
            },
            Condition::BatchBetween(first, last) => {
                &&& batch matches Datum::Int(number)
                &&& first <= number <= last
            },
            Condition::RoundIs(k) => equal(
                cell(row, Column::AggregationRound),
                datum(arg(args, k)),
            ),
            Condition::StatusIs(status) => has_status(row, status),
            Condition::StatusIsNot(status) => {
                &&& cell(row, Column::Status) is Text
                &&& !has_status(row, status)
            },
            Condition::Claimable { timeout, max_attempts } => {
                &&& arg(args, timeout) matches ArgView::Interval(interval)
                &&& datum(arg(args, max_attempts)) matches Datum::Int(bound)
                &&& claimable(row, interval.microseconds as int, bound, now)
            },
            Condition::BlobsNotCleaned => cell(row, Column::IsBlobCleaned) == Datum::Bool(false),
            Condition::NotNull(column) => cell(row, column) != Datum::Null,
            Condition::NotUpdatedForDays(days) => not_updated_for(row, days as int, now),
        }
    }
}

/// Whether all conditions hold of the row.
pub open spec fn meets(
    row: Row,
    filter: Seq<Condition>,
    args: Seq<ArgView>,
    now: int,
) -> bool {
    forall|i: int| 0 <= i < filter.len() ==> (#[trigger] filter[i]).holds(row, args, now)
}

/// The keys of the rows that meet the filter.
pub open spec fn found(
    table: Table,
    filter: Seq<Condition>,
    args: Seq<ArgView>,
    now: int,
) -> Set<int> {
    Set::new(|key: int| table.dom().contains(key) && meets(table[key], filter, args, now))
}

impl Assignment {
    /// What the column is set to, in a row that was `row` before.
    pub open spec fn datum(self, row: Row, args: Seq<ArgView>, now: int) -> Datum {
        match self.value {
            Operand::Arg(k) => datum(arg(args, k)),
            Operand::Status(status) => Datum::Text(status.text()),
            Operand::Now => Datum::Time(now),
            Operand::True => Datum::Bool(true),
            Operand::OneMore => match cell(row, self.column) {
                Datum::Int(number) => Datum::Int(number + 1),
                _ => Datum::Null,
            },
        }
    }
}

/// The row after all assignments.
pub open spec fn assigned(row: Row, set: Seq<Assignment>, args: Seq<ArgView>, now: int) -> Row
    decreases set.len(),
{
    if set.len() == 0 {
        row
    } else {
        assigned(row, set.drop_last(), args, now).insert(
            set.last().column,
            set.last().datum(row, args, now),
        )
    }
}

/// The table after the assignments to every row that meets the filter.
pub open spec fn updated(
    table: Table,
    set: Seq<Assignment>,
    filter: Seq<Condition>,
    args: Seq<ArgView>,
    now: int,
) -> Table {
    Map::new(
        |key: int| table.dom().contains(key),
        |key: int|
            if meets(table[key], filter, args, now) {
                assigned(table[key], set, args, now)
            } else {
                table[key]
            },
    )
}

pub open spec fn is_least(key: int, keys: Set<int>) -> bool {
    keys.contains(key) && forall|other: int| #[trigger] keys.contains(other) ==> key <= other
}

/// The least of the keys, if there is one.
pub open spec fn least(keys: Set<int>) -> Option<int> {
    if exists|key: int| is_least(key, keys) {
        Some(choose|key: int| is_least(key, keys))
    } else {
        None
    }
}

/// Whether a datum may come before another in ascending order. What is missing comes last.
pub open spec fn in_order(before: Datum, after: Datum) -> bool {
    match (before, after) {
        (_, Datum::Null) => true,
        (Datum::Int(a), Datum::Int(b)) => a <= b,
        _ => false,
    }
}

/// Whether the rows with these keys, in this order, may be the reply to a `SELECT` without a
/// `GROUP BY`: rows of the table that meet the filter, each once, in the order asked for; all of
/// them, or, where there is a limit, as many as it admits.
pub open spec fn is_reply(
    keys: Seq<int>,
    table: Table,
    statement: StatementView,
    now: int,
) -> bool {
    let args = statement.args;
    let rows = found(table, statement.query->Select_filter, args, now);
    &&& keys.no_duplicates()
    &&& forall|i: int| 0 <= i < keys.len() ==> rows.contains(#[trigger] keys[i])
    &&& match statement.query->limit {
        Some(k) => {
            &&& datum(arg(args, k)) matches Datum::Int(limit)
            &&& keys.len() <= limit
            &&& keys.len() < limit ==> forall|key: int| #[trigger]
                rows.contains(key) ==> keys.contains(key)
        },
        None => forall|key: int| #[trigger] rows.contains(key) ==> keys.contains(key),
    }
    &&& statement.query->order_by matches Some(column) ==> forall|i: int, j: int|
        0 <= i < j < keys.len() ==> in_order(
            cell(table[#[trigger] keys[i]], column),
            cell(table[#[trigger] keys[j]], column),
        )
}

/// A row of a reply: the datum of each output.
pub type ReplyRow = Map<Output, Datum>;

/// Whether the sequence lists the keys in the set, each once.
pub open spec fn lists(keys: Seq<int>, set: Set<int>) -> bool {
    &&& keys.no_duplicates()
    &&& forall|key: int| #[trigger] keys.contains(key) <==> set.contains(key)
}

/// Whether `number` is the greatest batch number of the rows with these keys.
pub open spec fn is_greatest_batch(number: int, table: Table, keys: Set<int>) -> bool {
    &&& exists|key: int| #[trigger]
        keys.contains(key) && cell(table[key], Column::L1BatchNumber) == Datum::Int(number)
    &&& forall|key: int| #[trigger]
        keys.contains(key) ==> (cell(table[key], Column::L1BatchNumber) matches Datum::Int(other)
            ==> other <= number)
}

/// The greatest batch number of the rows with these keys; nothing, where there is none.
pub open spec fn greatest_batch(table: Table, keys: Set<int>) -> Datum {
    if exists|number: int| is_greatest_batch(number, table, keys) {
        Datum::Int(choose|number: int| is_greatest_batch(number, table, keys))
    } else {
        Datum::Null
    }
}

impl Output {
    /// Whether the output is of many rows at once.
    pub open spec fn is_aggregate(self) -> bool {
        self is RowCount || self is GreatestBatch
    }

    /// What the output gives for the rows with these keys, of which `row` is one.
    pub open spec fn datum(self, table: Table, keys: Set<int>, row: Row) -> Datum {
        match self {
            Output::Column(column) => cell(row, column),
            Output::ColumnAsCount(column) => cell(row, column),
            Output::QuotedStatus => cell(row, Column::Status),
            Output::RowCount => Datum::Int(keys.len() as int),
            Output::GreatestBatch => greatest_batch(table, keys),
        }
    }
}

/// The row of a reply that stands for the rows with these keys, of which `row` is one.
pub open spec fn reply_row(
    outputs: Seq<Output>,
    table: Table,
    keys: Set<int>,
    row: Row,
) -> ReplyRow {
    Map::new(
        |output: Output| outputs.contains(output),
        |output: Output| output.datum(table, keys, row),
    )
}

/// The row of a reply with all columns of a row.
pub open spec fn whole_row(row: Row) -> ReplyRow {
    Map::new(|output: Output| output is Column, |output: Output| cell(row, output->Column_0))
}

/// The keys of the rows that have this datum in the column.
pub open spec fn group(table: Table, keys: Set<int>, column: Column, datum: Datum) -> Set<int> {
    keys.filter(|key: int| cell(table[key], column) == datum)
}

/// Whether the keys are those of one row of each group of rows that agree in the column.
pub open spec fn are_of_groups(
    keys: Seq<int>,
    table: Table,
    rows: Set<int>,
    column: Column,
) -> bool {
    &&& forall|i: int| 0 <= i < keys.len() ==> rows.contains(#[trigger] keys[i])
    &&& forall|i: int, j: int|
        0 <= i < j < keys.len() ==> cell(table[#[trigger] keys[i]], column) != cell(
            table[#[trigger] keys[j]],
            column,
        )
    &&& forall|key: int| #[trigger]
        rows.contains(key) ==> exists|i: int|
            0 <= i < keys.len() && cell(table[#[trigger] keys[i]], column) == cell(
                table[key],
                column,
            )
}

/// Whether the rows are the reply to a plain `SELECT`, one for each of the rows with these keys.
pub open spec fn selects(
    keys: Seq<int>,
    reply: Seq<ReplyRow>,
    table: Table,
    statement: StatementView,
    now: int,
) -> bool {
    &&& is_reply(keys, table, statement, now)
    &&& reply.len() == keys.len()
    &&& forall|i: int|
        0 <= i < keys.len() ==> #[trigger] reply[i] == reply_row(
            statement.query->outputs,
            table,
            set![keys[i]],
            table[keys[i]],
        )
}

/// Whether the rows are the reply to a `SELECT` with a `GROUP BY` on the column, one for each of
/// the groups to which the rows with these keys belong.
pub open spec fn selects_groups(
    keys: Seq<int>,
    reply: Seq<ReplyRow>,
    table: Table,
    statement: StatementView,
    column: Column,
    now: int,
) -> bool {
    let rows = found(table, statement.query->Select_filter, statement.args, now);
    &&& are_of_groups(keys, table, rows, column)
    &&& reply.len() == keys.len()
    &&& forall|i: int|
        0 <= i < keys.len() ==> #[trigger] reply[i] == reply_row(
            statement.query->outputs,
            table,
            group(table, rows, column, cell(table[keys[i]], column)),
            table[keys[i]],
        )
}

/// Whether the rows may be the reply to a `SELECT` on the table: with a `GROUP BY`, one row for
/// each group of rows; with an aggregate, one row for all; else one for each.
pub open spec fn is_selection(
    reply: Seq<ReplyRow>,
    table: Table,
    statement: StatementView,
    now: int,
) -> bool {
    let outputs = statement.query->outputs;
    let rows = found(table, statement.query->Select_filter, statement.args, now);
    match statement.query->group_by {
        Some(column) => exists|keys: Seq<int>|
            selects_groups(keys, reply, table, statement, column, now),
        None => if exists|i: int| 0 <= i < outputs.len() && (#[trigger] outputs[i]).is_aggregate() {
            reply == seq![reply_row(outputs, table, rows, Map::empty())]
        } else {
            exists|keys: Seq<int>| selects(keys, reply, table, statement, now)
        },
    }
}

/// The columns that a list of jobs has, besides the round.
pub open spec fn job_columns() -> Seq<Column> {
    seq![
        Column::L1BatchNumber,
        Column::CreatedAt,
        Column::UpdatedAt,
        Column::Status,
        Column::TimeTaken,
        Column::ProcessingStartedAt,
        Column::Error,
        Column::Attempts,
    ]
}

/// The row of a list of jobs that stands for a job of the round.
pub open spec fn listed_row(round: AggregationRound, row: Row) -> ReplyRow {
    Map::new(
        |output: Output|
            output matches Output::Column(column) && (column == Column::AggregationRound
                || job_columns().contains(column)),
        |output: Output|
            if output == Output::Column(Column::AggregationRound) {
                Datum::Int(round.number() as int)
            } else {
                cell(row, output->Column_0)
            },
    )
}

/// Whether the rows are the reply to a list of the jobs that meet the filter, one for each of these
/// jobs of the rounds. In tables of jobs no two of these rows are alike.
pub open spec fn lists_jobs(
    jobs: Seq<(AggregationRound, int)>,
    reply: Seq<ReplyRow>,
    db: Database,
    filter: Seq<Condition>,
    args: Seq<ArgView>,
    now: int,
) -> bool {
    &&& jobs.no_duplicates()
    &&& forall|round: AggregationRound, key: int|
        jobs.contains((round, key)) <==> #[trigger] found(
            db.table(table_of(round)),
            filter,
            args,
            now,
        ).contains(key)
    &&& reply.len() == jobs.len()
    &&& forall|i: int|
        0 <= i < jobs.len() ==> #[trigger] reply[i] == listed_row(
            jobs[i].0,
            db.job(jobs[i].0, jobs[i].1),
        )
}

/// Whether the rows are what an update hands back of a column of the rows with these keys.
pub open spec fn returns_column(
    keys: Seq<int>,
    reply: Seq<ReplyRow>,
    table: Table,
    statement: StatementView,
    column: Column,
    now: int,
) -> bool {
    let args = statement.args;
    &&& lists(keys, found(table, statement.query->Update_filter, args, now))
    &&& reply.len() == keys.len()
    &&& forall|i: int|
        0 <= i < keys.len() ==> #[trigger] reply[i] == map![
            Output::Column(column) => cell(
                assigned(table[keys[i]], statement.query->Update_set, args, now),
                column,
            ),
        ]
}

/// Whether the rows may be the reply to the statement, run at the time `now`, while others had the
/// rows with the keys in `locked` locked.
pub open spec fn is_answer(
    reply: Seq<ReplyRow>,
    db: Database,
    statement: StatementView,
    locked: Set<int>,
    now: int,
) -> bool {
    let args = statement.args;
    match statement.query {
        QueryView::Update { table, returning, .. } => match returning {
            Some(column) => exists|keys: Seq<int>|
                returns_column(keys, reply, db.table(table), statement, column, now),
            None => reply == Seq::<ReplyRow>::empty(),
        },
        QueryView::UpdateFirst { table, set, filter } => match first_found(
            db.table(table),
            filter,
            args,
            locked,
            now,
        ) {
            Some(key) => reply == seq![
                whole_row(assigned(db.table(table)[key], set, args, now)),
            ],
            None => reply == Seq::<ReplyRow>::empty(),
        },
        QueryView::Insert { .. } => reply == Seq::<ReplyRow>::empty(),
        QueryView::Select { table, .. } => is_selection(reply, db.table(table), statement, now),
        QueryView::ListJobs { filter } => exists|jobs: Seq<(AggregationRound, int)>|
            lists_jobs(jobs, reply, db, filter, args, now),
    }
}

/// The tables, the batches whose proof is skipped, and what a new row of a table holds in the
/// columns that it is not given.
#[verifier::ext_equal]
pub struct Database {
    pub tables: Map<TableName, Table>,
    pub skipped_proofs: Set<int>,
    pub defaults: Map<TableName, Row>,
}

impl Database {
    pub open spec fn table(self, name: TableName) -> Table {
        self.tables[name]
    }

    pub open spec fn with_table(self, name: TableName, table: Table) -> Database {
        Database { tables: self.tables.insert(name, table), ..self }
    }

    pub open spec fn with_skipped_proof(self, block_number: L1BatchNumber) -> Database {
        Database { skipped_proofs: self.skipped_proofs.insert(block_number.0 as int), ..self }
    }

    /// Whether all tables are there and those of witness jobs hold jobs.
    pub open spec fn well_formed(self) -> bool {
        &&& forall|name: TableName| #[trigger] self.tables.dom().contains(name)
        &&& forall|name: TableName|
            name != TableName::ProverJobs ==> holds_jobs(#[trigger] self.table(name))
    }

    /// Whether the batch with this number has a job in the round.
    pub open spec fn has_job(self, round: AggregationRound, batch: int) -> bool {
        self.table(table_of(round)).dom().contains(batch)
    }

    /// The job of the round for the batch with this number.
    pub open spec fn job(self, round: AggregationRound, batch: int) -> Row {
        self.table(table_of(round))[batch]
    }
}

/// Whether the table is a finite table of jobs.
pub open spec fn holds_jobs(table: Table) -> bool {
    &&& table.dom().finite()
    &&& forall|key: int| #[trigger] table.dom().contains(key) ==> is_job(key, table[key])
}

/// Whether the row is that of a job: its key is its batch number, and it has a status.
pub open spec fn is_job(key: int, row: Row) -> bool {
    &&& cell(row, Column::L1BatchNumber) == Datum::Int(key)
    &&& has_a_status(row)
}

/// Whether the row has one of the statuses.
pub open spec fn has_a_status(row: Row) -> bool {
    exists|status: JobStatus| has_status(row, status)
}

/// The key of the row that a statement takes, where it takes the first that meets its filter:
/// the least that is not in `locked`, which holds the keys of the rows that others have locked.
pub open spec fn first_found(
    table: Table,
    filter: Seq<Condition>,
    args: Seq<ArgView>,
    locked: Set<int>,
    now: int,
) -> Option<int> {
    least(found(table, filter, args, now).difference(locked))
}

/// The database after the statement was run at the time `now`, while others had the rows with
/// the keys in `locked` locked; `None` where the database refuses the statement.
pub open spec fn run(
    db: Database,
    statement: StatementView,
    locked: Set<int>,
    now: int,
) -> Option<Database> {
    let args = statement.args;
    match statement.query {
        QueryView::Update { table, set, filter, .. } => Some(
            db.with_table(table, updated(db.table(table), set, filter, args, now)),
        ),
        QueryView::UpdateFirst { table, set, filter } => match first_found(
            db.table(table),
            filter,
            args,
            locked,
            now,
        ) {
            Some(key) => Some(
                db.with_table(
                    table,
                    db.table(table).insert(key, assigned(db.table(table)[key], set, args, now)),
                ),
            ),
            None => Some(db),
        },
        QueryView::Insert { table, values, keep_existing } => {
            let row = assigned(db.defaults[table], values, args, now);
            match cell(row, Column::L1BatchNumber) {
                Datum::Int(key) => if !db.table(table).dom().contains(key) {
                    Some(db.with_table(table, db.table(table).insert(key, row)))
                } else if keep_existing {
                    Some(db)
                } else {
                    None
                },
                _ => None,
            }
        },
        QueryView::Select { .. } => Some(db),
        QueryView::ListJobs { .. } => Some(db),
    }
}

/// The database as the steps leave it to themselves, when they were taken one after the other at
/// the time `now`; `None` where the database refuses one of the statements.
pub open spec fn take_all(
    db: Database,
    steps: Seq<StepView>,
    locked: Set<int>,
    now: int,
) -> Option<Database>
    decreases steps.len(),
{
    if steps.len() == 0 {
        Some(db)
    } else {
        match take_all(db, steps.drop_last(), locked, now) {
            Some(before) => match steps.last() {
                StepView::Begin => Some(before),
                StepView::Run(statement) => run(before, statement, locked, now),
                StepView::SkipProof(block_number) => Some(before.with_skipped_proof(block_number)),
                StepView::Commit => Some(before),
            },
            None => None,
        }
    }
}

/// How far the steps of an operation have come.
pub struct Session {
    /// The database as the steps see it.
    pub seen: Database,
    /// The database when the transaction began that is not committed yet, if there is one.
    pub before: Option<Database>,
    /// Whether the database refused a statement. No further step is taken then.
    pub refused: bool,
}

impl Session {
    pub open spec fn after(self, step: StepView, locked: Set<int>, now: int) -> Session {
        if self.refused {
            self
        } else {
            match step {
                StepView::Begin => Session {
                    before: Some(
                        match self.before {
                            Some(before) => before,
                            None => self.seen,
                        },
                    ),
                    ..self
                },
                StepView::Run(statement) => match run(self.seen, statement, locked, now) {
                    Some(after) => Session { seen: after, ..self },
                    None => Session { refused: true, ..self },
                },
                StepView::SkipProof(block_number) => Session {
                    seen: self.seen.with_skipped_proof(block_number),
                    ..self
                },
                StepView::Commit => Session { before: None, ..self },
            }
        }
    }

    /// The database that others see when no further step is taken: a transaction that was not
    /// committed is undone.
    pub open spec fn left(self) -> Database {
        match self.before {
            Some(before) => before,
            None => self.seen,
        }
    }
}

/// How far the steps have come when all of them were taken, up to one that was refused.
pub open spec fn session(
    db: Database,
    steps: Seq<StepView>,
    locked: Set<int>,
    now: int,
) -> Session
    decreases steps.len(),
{
    if steps.len() == 0 {
        Session { seen: db, before: None, refused: false }
    } else {
        session(db, steps.drop_last(), locked, now).after(steps.last(), locked, now)
    }
}

/// The database that is left when the first `n` steps were taken, up to one that was refused, and
/// then no more.
pub open spec fn left_after(
    db: Database,
    steps: Seq<StepView>,
    n: int,
    locked: Set<int>,
    now: int,
) -> Database {
    session(db, steps.take(n), locked, now).left()
}

/// Whether the steps change the database as a whole or not at all: when they stop before the end,
/// or one of their statements is refused, everything is left as it was.
pub open spec fn all_or_nothing(steps: Seq<StepView>) -> bool {
    forall|db: Database, n: int, locked: Set<int>, now: int|
        0 <= n <= steps.len() ==> #[trigger] left_after(db, steps, n, locked, now) == if n
            < steps.len() {
            db
        } else {
            match take_all(db, steps, locked, now) {
                Some(after) => after,
                None => db,
            }
        }
}

} // verus!
