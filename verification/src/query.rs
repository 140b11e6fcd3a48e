//! Queries and statements, put together from the parts in [`crate::sql`].
use vstd::prelude::*;

use crate::sql::{table_of, Assignment, Column, Condition, Operand, Output, TableName};
use crate::text::{decimal_text, join, joined, texts};
use crate::types::{AggregationRound, Interval, L1BatchNumber, TimeOfDay};

verus! {

/// One query.
#[derive(Debug, PartialEq, Eq)]
pub enum Query {
    /// Changes every row that meets the filter.
    Update {
        table: TableName,
        set: Vec<Assignment>,
        filter: Vec<Condition>,
        returning: Option<Column>,
    },
    /// Changes the row with the least batch number among those that meet the filter and that
    /// nobody else has locked, and hands it back.
    UpdateFirst { table: TableName, set: Vec<Assignment>, filter: Vec<Condition> },
    /// Adds a row. Where the table has a row of the same batch, the query fails, or, with
    /// `keep_existing`, does nothing.
    Insert { table: TableName, values: Vec<Assignment>, keep_existing: bool },
    Select {
        outputs: Vec<Output>,
        table: TableName,
        filter: Vec<Condition>,
        group_by: Option<Column>,
        order_by: Option<Column>,
        limit: Option<u8>,
    },
    /// The jobs of all rounds that meet the filter.
    ListJobs { filter: Vec<Condition> },
}

/// The model of [`Query`].
#[verifier::ext_equal]
pub enum QueryView {
    Update {
        table: TableName,
        set: Seq<Assignment>,
        filter: Seq<Condition>,
        returning: Option<Column>,
    },
    UpdateFirst { table: TableName, set: Seq<Assignment>, filter: Seq<Condition> },
    Insert { table: TableName, values: Seq<Assignment>, keep_existing: bool },
    Select {
        outputs: Seq<Output>,
        table: TableName,
        filter: Seq<Condition>,
        group_by: Option<Column>,
        order_by: Option<Column>,
        limit: Option<u8>,
    },
    ListJobs { filter: Seq<Condition> },
}

impl View for Query {
    type V = QueryView;

    open spec fn view(&self) -> QueryView {
        match *self {
            Query::Update { table, set, filter, returning } => QueryView::Update {
                table,
                set: set@,
                filter: filter@,
                returning,
            },
            Query::UpdateFirst { table, set, filter } => QueryView::UpdateFirst {
                table,
                set: set@,
                filter: filter@,
            },
            Query::Insert { table, values, keep_existing } => QueryView::Insert {
                table,
                values: values@,
                keep_existing,
            },
            Query::Select { outputs, table, filter, group_by, order_by, limit } =>
                QueryView::Select {
                outputs: outputs@,
                table,
                filter: filter@,
                group_by,
                order_by,
                limit,
            },
            Query::ListJobs { filter } => QueryView::ListJobs { filter: filter@ },
        }
    }
}

/// The argument of a placeholder.
#[derive(Debug, PartialEq, Eq)]
pub enum Arg {
    Int4(i32),
    Int8(i64),
    Text(String),
    Bytes(Vec<u8>),
    Interval(Interval),
    TimeOfDay(TimeOfDay),
    Int8List(Vec<i64>),
}

/// The model of [`Arg`].
#[verifier::ext_equal]
pub enum ArgView {
    Int4(i32),
    Int8(i64),
    Text(Seq<char>),
    Bytes(Seq<u8>),
    Interval(Interval),
    TimeOfDay(TimeOfDay),
    Int8List(Seq<i64>),
}

impl View for Arg {
    type V = ArgView;

    open spec fn view(&self) -> ArgView {
        match *self {
            Arg::Int4(value) => ArgView::Int4(value),
            Arg::Int8(value) => ArgView::Int8(value),
            Arg::Text(value) => ArgView::Text(value@),
            Arg::Bytes(value) => ArgView::Bytes(value@),
            Arg::Interval(value) => ArgView::Interval(value),
            Arg::TimeOfDay(value) => ArgView::TimeOfDay(value),
            Arg::Int8List(value) => ArgView::Int8List(value@),
        }
    }
}

/// A query and the arguments of its placeholders.
#[derive(Debug, PartialEq, Eq)]
pub struct Statement {
    pub query: Query,
    pub args: Vec<Arg>,
}

/// The model of [`Statement`].
#[verifier::ext_equal]
pub struct StatementView {
    pub query: QueryView,
    pub args: Seq<ArgView>,
}

impl View for Statement {
    type V = StatementView;

    open spec fn view(&self) -> StatementView {
        StatementView {
            query: self.query@,
            args: self.args@.map_values(|arg: Arg| arg@),
        }
    }
}

/// Whether an operand that is an argument is one of the first `count`.
pub open spec fn operands_bound(set: Seq<Assignment>, count: nat) -> bool {
    forall|i: int|
        0 <= i < set.len() ==> ((#[trigger] set[i]).value matches Operand::Arg(k) ==> 1 <= k
            <= count)
}

/// Whether the arguments that the condition speaks of are among the first `count`.
pub open spec fn condition_bound(condition: Condition, count: nat) -> bool {
    match condition {
        Condition::BatchIs(k) => 1 <= k <= count,
        Condition::BatchAtMost(k) => 1 <= k <= count,
        Condition::BatchAmong(k) => 1 <= k <= count,
        Condition::RoundIs(k) => 1 <= k <= count,
        Condition::Claimable { timeout, max_attempts } => 1 <= timeout <= count && 1
            <= max_attempts <= count,
        _ => true,
    }
}

pub open spec fn conditions_bound(filter: Seq<Condition>, count: nat) -> bool {
    forall|i: int| 0 <= i < filter.len() ==> condition_bound(#[trigger] filter[i], count)
}

/// Whether no assignment is to the batch number.
pub open spec fn keeps_batch(set: Seq<Assignment>) -> bool {
    forall|i: int| 0 <= i < set.len() ==> (#[trigger] set[i]).column != Column::L1BatchNumber
}

/// Whether no assignment puts anything but a status where the status is.
pub open spec fn keeps_status(set: Seq<Assignment>) -> bool {
    forall|i: int|
        0 <= i < set.len() ==> ((#[trigger] set[i]).column == Column::Status ==> set[i].value
            is Status)
}

impl StatementView {
    /// Whether every placeholder has an argument, only job tables are written to, no statement
    /// gives a row another batch number or takes its status away, and a new row gets its batch
    /// number first and a status.
    pub open spec fn well_formed(self) -> bool {
        let count = self.args.len();
        match self.query {
            QueryView::Update { table, set, filter, .. } => {
                &&& table != TableName::ProverJobs
                &&& operands_bound(set, count)
                &&& conditions_bound(filter, count)
                &&& keeps_batch(set)
                &&& keeps_status(set)
            },
            QueryView::UpdateFirst { table, set, filter } => {
                &&& table != TableName::ProverJobs
                &&& operands_bound(set, count)
                &&& conditions_bound(filter, count)
                &&& keeps_batch(set)
                &&& keeps_status(set)
            },
            QueryView::Insert { table, values, .. } => {
                &&& table != TableName::ProverJobs
                &&& operands_bound(values, count)
                &&& values.len() > 0
                &&& values[0].column == Column::L1BatchNumber
                &&& values[0].value == Operand::Arg(1)
                &&& self.args[0] is Int8
                &&& keeps_batch(values.skip(1))
                &&& keeps_status(values)
                &&& exists|i: int|
                    0 <= i < values.len() && (#[trigger] values[i]).column == Column::Status
            },
            QueryView::Select { filter, limit, .. } => {
                &&& conditions_bound(filter, count)
                &&& limit matches Some(k) ==> 1 <= k <= count
            },
            QueryView::ListJobs { filter } => conditions_bound(filter, count),
        }
    }
}

/// One step of an operation on the database.
#[derive(Debug, PartialEq, Eq)]
pub enum Step {
    /// Starts a transaction.
    Begin,
    Run(Statement),
    /// Has the proof of the batch skipped.
    SkipProof(L1BatchNumber),
    /// Commits the transaction.
    Commit,
}

/// The model of [`Step`].
#[verifier::ext_equal]
pub enum StepView {
    Begin,
    Run(StatementView),
    SkipProof(L1BatchNumber),
    Commit,
}

impl View for Step {
    type V = StepView;

    open spec fn view(&self) -> StepView {
        match *self {
            Step::Begin => StepView::Begin,
            Step::Run(statement) => StepView::Run(statement@),
            Step::SkipProof(block_number) => StepView::SkipProof(block_number),
            Step::Commit => StepView::Commit,
        }
    }
}

/// The models of a sequence of steps.
pub open spec fn step_views(steps: Seq<Step>) -> Seq<StepView> {
    steps.map_values(|step: Step| step@)
}

/// Whether the statements among the steps are well-formed.
pub open spec fn steps_well_formed(steps: Seq<StepView>) -> bool {
    forall|i: int|
        0 <= i < steps.len() ==> ((#[trigger] steps[i]) matches StepView::Run(statement)
            ==> statement.well_formed())
}

/// The models of a sequence of statements.
pub open spec fn statement_views(statements: Seq<Statement>) -> Seq<StatementView> {
    statements.map_values(|statement: Statement| statement@)
}

/// The columns that a list of jobs has, besides the round.
pub open spec fn job_columns_text() -> Seq<char> {
    "l1_batch_number, created_at, updated_at, status, time_taken, processing_started_at, error, attempts"@
}

pub open spec fn assignments_text(set: Seq<Assignment>) -> Seq<char> {
    joined(set.map_values(|assignment: Assignment| assignment.text()), ", "@)
}

pub open spec fn columns_text(set: Seq<Assignment>) -> Seq<char> {
    joined(set.map_values(|assignment: Assignment| assignment.column.text()), ", "@)
}

pub open spec fn values_text(set: Seq<Assignment>) -> Seq<char> {
    joined(set.map_values(|assignment: Assignment| assignment.value_text()), ", "@)
}

pub open spec fn outputs_text(outputs: Seq<Output>) -> Seq<char> {
    joined(outputs.map_values(|output: Output| output.text()), ", "@)
}

/// The `WHERE` clause with the space before it; nothing, where there are no conditions.
pub open spec fn where_text(filter: Seq<Condition>) -> Seq<char> {
    if filter.len() == 0 {
        Seq::empty()
    } else {
        " WHERE "@ + joined(filter.map_values(|condition: Condition| condition.text()), " AND "@)
    }
}

/// The part of the list of jobs that comes from the table of `round`.
pub open spec fn job_slice_text(round: AggregationRound, filter: Seq<Condition>) -> Seq<char> {
    "SELECT "@ + crate::text::decimal(round.number() as nat) + " as aggregation_round, "@
        + job_columns_text() + " FROM "@ + table_of(round).text() + where_text(filter)
}

impl QueryView {
    /// The SQL text of the query.
    pub open spec fn text(self) -> Seq<char> {
        match self {
            QueryView::Update { table, set, filter, returning } => "UPDATE "@ + table.text()
                + " SET "@ + assignments_text(set) + where_text(filter) + (match returning {
                Some(column) => " RETURNING "@ + column.text(),
                None => Seq::empty(),
            }),
            QueryView::UpdateFirst { table, set, filter } => "UPDATE "@ + table.text() + " SET "@
                + assignments_text(set)
                + " WHERE l1_batch_number = (SELECT l1_batch_number FROM "@ + table.text()
                + where_text(filter)
                + " ORDER BY l1_batch_number ASC LIMIT 1 FOR UPDATE SKIP LOCKED) RETURNING "@
                + table.text() + ".*"@,
            QueryView::Insert { table, values, keep_existing } => "INSERT INTO "@ + table.text()
                + " ("@ + columns_text(values) + ") VALUES ("@ + values_text(values) + ")"@ + (
            if keep_existing {
                " ON CONFLICT (l1_batch_number) DO NOTHING"@
            } else {
                Seq::empty()
            }),
            QueryView::Select { outputs, table, filter, group_by, order_by, limit } => "SELECT "@
                + outputs_text(outputs) + " FROM "@ + table.text() + where_text(filter) + (
            match group_by {
                Some(column) => " GROUP BY "@ + column.text(),
                None => Seq::empty(),
            }) + (match order_by {
                Some(column) => " ORDER BY "@ + column.text() + " ASC"@,
                None => Seq::empty(),
            }) + (match limit {
                Some(k) => " LIMIT "@ + crate::sql::placeholder(k),
                None => Seq::empty(),
            }),
            QueryView::ListJobs { filter } => joined(
                seq![
                    job_slice_text(AggregationRound::BasicCircuits, filter),
                    job_slice_text(AggregationRound::LeafAggregation, filter),
                    job_slice_text(AggregationRound::NodeAggregation, filter),
                    job_slice_text(AggregationRound::Scheduler, filter),
                ],
                " UNION "@,
            ),
        }
    }
}

fn assignments_sql(set: &Vec<Assignment>) -> (text: String)
    ensures
        text@ == assignments_text(set@),
{
    let mut parts: Vec<String> = Vec::new();
    for i in 0..set.len()
        invariant
            parts.len() == i,
            forall|j: int| 0 <= j < i ==> (#[trigger] parts@[j])@ == set@[j].text(),
    {
        parts.push(set[i].sql());
    }
    assert(texts(parts@) =~= set@.map_values(|assignment: Assignment| assignment.text()));
    join(&parts, ", ")
}

fn columns_sql(set: &Vec<Assignment>) -> (text: String)
    ensures
        text@ == columns_text(set@),
{
    let mut parts: Vec<String> = Vec::new();
    for i in 0..set.len()
        invariant
            parts.len() == i,
            forall|j: int| 0 <= j < i ==> (#[trigger] parts@[j])@ == set@[j].column.text(),
    {
        parts.push(set[i].column.name().to_string());
    }
    assert(texts(parts@) =~= set@.map_values(|assignment: Assignment| assignment.column.text()));
    join(&parts, ", ")
}

fn values_sql(set: &Vec<Assignment>) -> (text: String)
    ensures
        text@ == values_text(set@),
{
    let mut parts: Vec<String> = Vec::new();
    for i in 0..set.len()
        invariant
            parts.len() == i,
            forall|j: int| 0 <= j < i ==> (#[trigger] parts@[j])@ == set@[j].value_text(),
    {
        parts.push(set[i].value_sql());
    }
    assert(texts(parts@) =~= set@.map_values(|assignment: Assignment| assignment.value_text()));
    join(&parts, ", ")
}

fn outputs_sql(outputs: &Vec<Output>) -> (text: String)
    ensures
        text@ == outputs_text(outputs@),
{
    let mut parts: Vec<String> = Vec::new();
    for i in 0..outputs.len()
        invariant
            parts.len() == i,
            forall|j: int| 0 <= j < i ==> (#[trigger] parts@[j])@ == outputs@[j].text(),
    {
        parts.push(outputs[i].sql());
    }
    assert(texts(parts@) =~= outputs@.map_values(|output: Output| output.text()));
    join(&parts, ", ")
}

fn where_sql(filter: &Vec<Condition>) -> (text: String)
    ensures
        text@ == where_text(filter@),
{
    if filter.len() == 0 {
        return String::new();
    }
    let mut parts: Vec<String> = Vec::new();
    for i in 0..filter.len()
        invariant
            parts.len() == i,
            forall|j: int| 0 <= j < i ==> (#[trigger] parts@[j])@ == filter@[j].text(),
    {
        parts.push(filter[i].sql());
    }
    assert(texts(parts@) =~= filter@.map_values(|condition: Condition| condition.text()));
    let mut text = " WHERE ".to_string();
    text.append(join(&parts, " AND ").as_str());
    text
}

fn job_slice_sql(round: AggregationRound, filter: &Vec<Condition>) -> (text: String)
    ensures
        text@ == job_slice_text(round, filter@),
{
    let mut text = "SELECT ".to_string();
    text.append(decimal_text(round.number() as u64).as_str());
    text.append(" as aggregation_round, ");
    text.append(
        "l1_batch_number, created_at, updated_at, status, time_taken, processing_started_at, error, attempts",
    );
    text.append(" FROM ");
    text.append(table_of(round).name());
    text.append(where_sql(filter).as_str());
    text
}

impl Query {
    /// The SQL text of the query.
    pub fn sql(&self) -> (text: String)
        ensures
            text@ == self@.text(),
    {
        match self {
            Query::Update { table, set, filter, returning } => {
                let mut text = "UPDATE ".to_string();
                text.append(table.name());
                text.append(" SET ");
                text.append(assignments_sql(set).as_str());
                text.append(where_sql(filter).as_str());
                match returning {
                    Some(column) => {
                        let mut clause = " RETURNING ".to_string();
                        clause.append(column.name());
                        text.append(clause.as_str());
                    },
                    None => {
                        assert(text@ + Seq::<char>::empty() =~= text@);
                    },
                }
                text
            },
            Query::UpdateFirst { table, set, filter } => {
                let mut text = "UPDATE ".to_string();
                text.append(table.name());
                text.append(" SET ");
                text.append(assignments_sql(set).as_str());
                text.append(" WHERE l1_batch_number = (SELECT l1_batch_number FROM ");
                text.append(table.name());
                text.append(where_sql(filter).as_str());
                text.append(
                    " ORDER BY l1_batch_number ASC LIMIT 1 FOR UPDATE SKIP LOCKED) RETURNING ",
                );
                text.append(table.name());
                text.append(".*");
                text
            },
            Query::Insert { table, values, keep_existing } => {
                let mut text = "INSERT INTO ".to_string();
                text.append(table.name());
                text.append(" (");
                text.append(columns_sql(values).as_str());
                text.append(") VALUES (");
                text.append(values_sql(values).as_str());
                text.append(")");
                if *keep_existing {
                    text.append(" ON CONFLICT (l1_batch_number) DO NOTHING");
                } else {
                    assert(text@ + Seq::<char>::empty() =~= text@);
                }
                text
            },
            Query::Select { outputs, table, filter, group_by, order_by, limit } => {
                let mut text = "SELECT ".to_string();
                text.append(outputs_sql(outputs).as_str());
                text.append(" FROM ");
                text.append(table.name());
                text.append(where_sql(filter).as_str());
                match group_by {
                    Some(column) => {
                        let mut clause = " GROUP BY ".to_string();
                        clause.append(column.name());
                        text.append(clause.as_str());
                    },
                    None => {
                        assert(text@ + Seq::<char>::empty() =~= text@);
                    },
                }
                match order_by {
                    Some(column) => {
                        let mut clause = " ORDER BY ".to_string();
                        clause.append(column.name());
                        clause.append(" ASC");
                        text.append(clause.as_str());
                    },
                    None => {
                        assert(text@ + Seq::<char>::empty() =~= text@);
                    },
                }
                match limit {
                    Some(k) => {
                        let mut clause = " LIMIT ".to_string();
                        clause.append(crate::sql::placeholder_text(*k).as_str());
                        text.append(clause.as_str());
                    },
                    None => {
                        assert(text@ + Seq::<char>::empty() =~= text@);
                    },
                }
                text
            },
            Query::ListJobs { filter } => {
                let mut slices: Vec<String> = Vec::new();
                slices.push(job_slice_sql(AggregationRound::BasicCircuits, filter));
                slices.push(job_slice_sql(AggregationRound::LeafAggregation, filter));
                slices.push(job_slice_sql(AggregationRound::NodeAggregation, filter));
                slices.push(job_slice_sql(AggregationRound::Scheduler, filter));
                assert(texts(slices@) =~= seq![
                    job_slice_text(AggregationRound::BasicCircuits, filter@),
                    job_slice_text(AggregationRound::LeafAggregation, filter@),
                    job_slice_text(AggregationRound::NodeAggregation, filter@),
                    job_slice_text(AggregationRound::Scheduler, filter@),
                ]);
                join(&slices, " UNION ")
            },
        }
    }
}

} // verus!
