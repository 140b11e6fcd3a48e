//! How the parts of a statement are written, and that a statement is seen as it is.
use vstd::prelude::*;

use crate::meaning::{is_answer, run, Database, ReplyRow};
use crate::query::{
    assignments_text, columns_text, job_slice_text, outputs_text, statement_views, step_views,
    values_text, where_text, Arg, ArgView, Query, QueryView, Statement, StatementView, Step,
    StepView,
};
use crate::sql::{
    table_of, Assignment, Column, Condition, Operand, Output, TableName,
};
use crate::text::{decimal, joined, signed_decimal};
use crate::types::{AggregationRound, JobStatus};

verus! {

/// The number that the digits stand for.
pub open spec fn number(digits: Seq<char>) -> int
    decreases digits.len(),
{
    if digits.len() == 0 {
        0
    } else {
        10 * number(digits.drop_last()) + (digits.last() as int - '0' as int)
    }
}

/// The decimal notation of a number holds digits only, has no leading zero, and stands for the
/// number.
pub proof fn law_decimal_stands_for_the_number(n: nat)
    ensures
        decimal(n).len() > 0,
        forall|i: int| 0 <= i < decimal(n).len() ==> '0' <= #[trigger] decimal(n)[i] <= '9',
        decimal(n).len() > 1 ==> decimal(n)[0] != '0',
        number(decimal(n)) == n,
    decreases n,
{
    reveal_with_fuel(number, 2);
    if n < 10 {
        assert(decimal(n).drop_last() =~= seq![]);
    } else {
        law_decimal_stands_for_the_number(n / 10);
        assert(decimal(n).drop_last() =~= decimal(n / 10));
        if n / 10 < 10 {
            assert(decimal(n / 10).len() == 1);
            assert(number(decimal(n / 10)) == decimal(n / 10)[0] as int - '0' as int) by {
                assert(decimal(n / 10).drop_last() =~= seq![]);
            }
        }
    }
}

/// The decimal notation of a number that may be negative: a minus sign before that of its
/// magnitude.
pub proof fn law_minus_sign_stands_before_the_magnitude(i: int)
    ensures
        0 <= i ==> number(signed_decimal(i)) == i && '0' <= signed_decimal(i)[0] <= '9',
        i < 0 ==> signed_decimal(i)[0] == '-' && number(signed_decimal(i).skip(1)) == -i,
{
    reveal_strlit("-");
    if i < 0 {
        law_decimal_stands_for_the_number((-i) as nat);
        assert(signed_decimal(i).skip(1) =~= decimal((-i) as nat));
    } else {
        law_decimal_stands_for_the_number(i as nat);
    }
}

/// The text of a condition on a range of batches holds both bounds, the first before the last.
pub proof fn law_text_of_a_range(first: u32, last: u32)
    ensures
        Condition::BatchBetween(first, last).text() == "l1_batch_number BETWEEN "@ + decimal(
            first as nat,
        ) + " AND "@ + decimal(last as nat),
{
}

/// Conditions on different ranges of batches have different texts.
pub proof fn law_ranges_have_different_texts(first: u32, last: u32, a: u32, b: u32)
    requires
        Condition::BatchBetween(first, last).text() == Condition::BatchBetween(a, b).text(),
    ensures
        first == a,
        last == b,
{
    let text = Condition::BatchBetween(first, last).text();
    let start = "l1_batch_number BETWEEN "@;
    let mid = " AND "@;
    let first_text = decimal(first as nat);
    let a_text = decimal(a as nat);
    law_text_of_a_range(first, last);
    law_text_of_a_range(a, b);
    law_decimal_stands_for_the_number(first as nat);
    law_decimal_stands_for_the_number(a as nat);
    law_decimal_stands_for_the_number(last as nat);
    law_decimal_stands_for_the_number(b as nat);
    reveal_strlit(" AND ");
    let n = start.len() as int;
    let p = first_text.len() as int;
    let r = a_text.len() as int;
    assert(text[n + p] == ' ') by {
        assert(text[n + p] == mid[0]);
    }
    assert(text[n + r] == ' ') by {
        assert(text[n + r] == mid[0]);
    }
    if p < r {
        assert(text[n + p] == a_text[p]);
    }
    if r < p {
        assert(text[n + r] == first_text[r]);
    }
    assert(first_text =~= text.subrange(n, n + p));
    assert(a_text =~= text.subrange(n, n + r));
    assert(decimal(last as nat) =~= text.skip(n + p + 5));
    assert(decimal(b as nat) =~= text.skip(n + r + 5));
}

/// The name of a table.
pub open spec fn table_word(table: TableName) -> Seq<char> {
    match table {
        TableName::WitnessInputs => "witness_inputs"@,
        TableName::LeafAggregationWitnessJobs => "leaf_aggregation_witness_jobs"@,
        TableName::NodeAggregationWitnessJobs => "node_aggregation_witness_jobs"@,
        TableName::SchedulerWitnessJobs => "scheduler_witness_jobs"@,
        TableName::ProverJobs => "prover_jobs"@,
    }
}

/// Every table is called by its name.
pub proof fn law_tables_are_called_by_their_names(table: TableName)
    ensures
        table.text() == table_word(table),
{
}

/// Every column is called by its name.
pub proof fn law_columns_are_called_by_their_names(column: Column)
    ensures
        column.text() == match column {
            Column::L1BatchNumber => "l1_batch_number"@,
            Column::Status => "status"@,
            Column::Attempts => "attempts"@,
            Column::CreatedAt => "created_at"@,
            Column::UpdatedAt => "updated_at"@,
            Column::ProcessingStartedAt => "processing_started_at"@,
            Column::TimeTaken => "time_taken"@,
            Column::Error => "error"@,
            Column::IsBlobCleaned => "is_blob_cleaned"@,
            Column::MerkleTreePaths => "merkle_tree_paths"@,
            Column::MerkleTreePathsBlobUrl => "merkel_tree_paths_blob_url"@,
            Column::BasicCircuits => "basic_circuits"@,
            Column::BasicCircuitsInputs => "basic_circuits_inputs"@,
            Column::BasicCircuitsBlobUrl => "basic_circuits_blob_url"@,
            Column::BasicCircuitsInputsBlobUrl => "basic_circuits_inputs_blob_url"@,
            Column::NumberOfBasicCircuits => "number_of_basic_circuits"@,
            Column::NumberOfLeafCircuits => "number_of_leaf_circuits"@,
            Column::LeafLayerSubqueuesBlobUrl => "leaf_layer_subqueues_blob_url"@,
            Column::AggregationOutputsBlobUrl => "aggregation_outputs_blob_url"@,
            Column::SchedulerWitness => "scheduler_witness"@,
            Column::SchedulerWitnessBlobUrl => "scheduler_witness_blob_url"@,
            Column::FinalNodeAggregationsBlobUrl => "final_node_aggregations_blob_url"@,
            Column::AggregationResultCoords => "aggregation_result_coords"@,
            Column::CircuitType => "circuit_type"@,
            Column::ProofResult => "result"@,
            Column::AggregationRound => "aggregation_round"@,
            Column::SequenceNumber => "sequence_number"@,
        },
{
}

/// Every status is called by its name.
pub proof fn law_statuses_are_called_by_their_names(status: JobStatus)
    ensures
        status.text() == match status {
            JobStatus::Queued => "queued"@,
            JobStatus::InProgress => "in_progress"@,
            JobStatus::Failed => "failed"@,
            JobStatus::Successful => "successful"@,
            JobStatus::Skipped => "skipped"@,
            JobStatus::WaitingForProofs => "waiting_for_proofs"@,
            JobStatus::WaitingForArtifacts => "waiting_for_artifacts"@,
        },
{
}

/// The rounds are numbered from zero on, in their order.
pub proof fn law_rounds_are_numbered_in_their_order(round: AggregationRound)
    ensures
        round.number() == match round {
            AggregationRound::BasicCircuits => 0u8,
            AggregationRound::LeafAggregation => 1u8,
            AggregationRound::NodeAggregation => 2u8,
            AggregationRound::Scheduler => 3u8,
        },
        table_word(table_of(round)) == match round {
            AggregationRound::BasicCircuits => "witness_inputs"@,
            AggregationRound::LeafAggregation => "leaf_aggregation_witness_jobs"@,
            AggregationRound::NodeAggregation => "node_aggregation_witness_jobs"@,
            AggregationRound::Scheduler => "scheduler_witness_jobs"@,
        },
{
}

/// An assignment is written as the column, an equals sign and the value, with the number of an
/// argument behind a dollar sign.
pub proof fn law_text_of_an_assignment(assignment: Assignment)
    ensures
        assignment.text() == assignment.column.text() + " = "@ + assignment.value_text(),
        assignment.value_text() == match assignment.value {
            Operand::Arg(k) => "$"@ + decimal(k as nat),
            Operand::Status(status) => "'"@ + status.text() + "'"@,
            Operand::Now => "now()"@,
            Operand::True => "TRUE"@,
            Operand::OneMore => assignment.column.text() + " + 1"@,
        },
{
}

/// A condition is written with what it compares: the number of an argument behind a dollar sign,
/// a status in quotes, and numbers in decimal notation.
pub proof fn law_text_of_a_condition(condition: Condition)
    ensures
        condition.text() == match condition {
            Condition::Always => "1 = 1"@,
            Condition::BatchIs(k) => "l1_batch_number = "@ + ("$"@ + decimal(k as nat)),
            Condition::BatchAtMost(k) => "l1_batch_number <= "@ + ("$"@ + decimal(k as nat)),
            Condition::BatchAmong(k) => "l1_batch_number = ANY("@ + ("$"@ + decimal(k as nat))
                + ")"@,
            Condition::BatchBetween(first, last) => "l1_batch_number BETWEEN "@ + decimal(
                first as nat,
            ) + " AND "@ + decimal(last as nat),
            Condition::RoundIs(k) => "aggregation_round = "@ + ("$"@ + decimal(k as nat)),
            Condition::StatusIs(status) => "status = '"@ + status.text() + "'"@,
            Condition::StatusIsNot(status) => "status != '"@ + status.text() + "'"@,
            Condition::Claimable { timeout, max_attempts } =>
                "(status = 'queued' OR (status = 'in_progress' AND processing_started_at < now() - "@
                + ("$"@ + decimal(timeout as nat))
                + "::interval) OR (status = 'failed' AND attempts < "@ + ("$"@ + decimal(
                max_attempts as nat,
            )) + "))"@,
            Condition::BlobsNotCleaned => "is_blob_cleaned = FALSE"@,
            Condition::NotNull(column) => column.text() + " IS NOT NULL"@,
            Condition::NotUpdatedForDays(days) => "updated_at < now() - INTERVAL '"@ + decimal(
                days as nat,
            ) + " days'"@,
        },
{
}

/// An output is written as what it gives, with the name under which it gives it.
pub proof fn law_text_of_an_output(output: Output)
    ensures
        output.text() == match output {
            Output::Column(column) => column.text(),
            Output::ColumnAsCount(column) => column.text() + " as \"count\""@,
            Output::QuotedStatus => "status as \"status\""@,
            Output::RowCount => "COUNT(*) as \"count\""@,
            Output::GreatestBatch => "MAX(l1_batch_number) as l1_batch"@,
        },
{
}

/// The lists in a query have the texts of all items, in their order.
pub proof fn law_texts_of_the_lists_in_a_query(
    set: Seq<Assignment>,
    filter: Seq<Condition>,
    outputs: Seq<Output>,
    set_texts: Seq<Seq<char>>,
    columns: Seq<Seq<char>>,
    values: Seq<Seq<char>>,
    filter_texts: Seq<Seq<char>>,
    output_texts: Seq<Seq<char>>,
)
    requires
        set_texts.len() == set.len(),
        columns.len() == set.len(),
        values.len() == set.len(),
        forall|i: int|
            0 <= i < set.len() ==> {
                &&& set_texts[i] == (#[trigger] set[i]).text()
                &&& columns[i] == set[i].column.text()
                &&& values[i] == set[i].value_text()
            },
        filter_texts.len() == filter.len(),
        forall|i: int| 0 <= i < filter.len() ==> filter_texts[i] == (#[trigger] filter[i]).text(),
        output_texts.len() == outputs.len(),
        forall|i: int|
            0 <= i < outputs.len() ==> output_texts[i] == (#[trigger] outputs[i]).text(),
    ensures
        assignments_text(set) == joined(set_texts, ", "@),
        columns_text(set) == joined(columns, ", "@),
        values_text(set) == joined(values, ", "@),
        outputs_text(outputs) == joined(output_texts, ", "@),
        where_text(filter) == if filter.len() == 0 {
            Seq::<char>::empty()
        } else {
            " WHERE "@ + joined(filter_texts, " AND "@)
        },
{
    assert(set.map_values(|assignment: Assignment| assignment.text()) =~= set_texts);
    assert(set.map_values(|assignment: Assignment| assignment.column.text()) =~= columns);
    assert(set.map_values(|assignment: Assignment| assignment.value_text()) =~= values);
    assert(outputs.map_values(|output: Output| output.text()) =~= output_texts);
    assert(filter.map_values(|condition: Condition| condition.text()) =~= filter_texts);
}

/// A query is written as its clauses, in the order of SQL, on the table that it is about.
pub proof fn law_text_of_a_query(query: QueryView)
    ensures
        query matches QueryView::Update { table, set, filter, returning } ==> query.text()
            == "UPDATE "@ + table_word(table) + " SET "@ + assignments_text(set) + where_text(filter)
            + match returning {
            Some(column) => " RETURNING "@ + column.text(),
            None => Seq::<char>::empty(),
        },
        query matches QueryView::UpdateFirst { table, set, filter } ==> query.text() == "UPDATE "@
            + table_word(table) + " SET "@ + assignments_text(set)
            + " WHERE l1_batch_number = (SELECT l1_batch_number FROM "@ + table_word(table)
            + where_text(filter)
            + " ORDER BY l1_batch_number ASC LIMIT 1 FOR UPDATE SKIP LOCKED) RETURNING "@
            + table_word(table) + ".*"@,
        query matches QueryView::Insert { table, values, keep_existing } ==> query.text()
            == "INSERT INTO "@ + table_word(table) + " ("@ + columns_text(values) + ") VALUES ("@
            + values_text(values) + ")"@ + if keep_existing {
            " ON CONFLICT (l1_batch_number) DO NOTHING"@
        } else {
            Seq::<char>::empty()
        },
        query matches QueryView::Select { outputs, table, filter, group_by, order_by, limit }
            ==> query.text() == "SELECT "@ + outputs_text(outputs) + " FROM "@ + table_word(table)
            + where_text(filter) + match group_by {
            Some(column) => " GROUP BY "@ + column.text(),
            None => Seq::<char>::empty(),
        } + match order_by {
            Some(column) => " ORDER BY "@ + column.text() + " ASC"@,
            None => Seq::<char>::empty(),
        } + match limit {
            Some(k) => " LIMIT "@ + ("$"@ + decimal(k as nat)),
            None => Seq::<char>::empty(),
        },
        query matches QueryView::ListJobs { filter } ==> query.text() == joined(
            seq![
                job_slice_text(AggregationRound::BasicCircuits, filter),
                job_slice_text(AggregationRound::LeafAggregation, filter),
                job_slice_text(AggregationRound::NodeAggregation, filter),
                job_slice_text(AggregationRound::Scheduler, filter),
            ],
            " UNION "@,
        ),
{
}

/// The part of a list of jobs that comes from the table of a round gives the number of the round
/// and reads its table.
pub proof fn law_text_of_a_part_of_a_list(round: AggregationRound, filter: Seq<Condition>)
    ensures
        job_slice_text(round, filter) == "SELECT "@ + decimal(round.number() as nat)
            + " as aggregation_round, "@
            + "l1_batch_number, created_at, updated_at, status, time_taken, processing_started_at, error, attempts"@
            + " FROM "@ + table_word(table_of(round)) + where_text(filter),
{
}

/// A statement changes no table but the one that its text names.
pub proof fn law_changed_table_is_named_in_the_text(
    db: Database,
    statement: StatementView,
    locked: Set<int>,
    now: int,
    name: TableName,
)
    requires
        run(db, statement, locked, now) matches Some(after) && after.table(name) != db.table(name),
    ensures
        ("UPDATE "@ + table_word(name) + " SET "@).is_prefix_of(statement.query.text()) || (
        "INSERT INTO "@ + table_word(name) + " ("@).is_prefix_of(statement.query.text()),
{
    let text = statement.query.text();
    law_text_of_a_query(statement.query);
    match statement.query {
        QueryView::Update { table, .. } => {
            let start = "UPDATE "@ + table_word(table) + " SET "@;
            assert(start =~= text.subrange(0, start.len() as int));
        },
        QueryView::UpdateFirst { table, .. } => {
            let start = "UPDATE "@ + table_word(table) + " SET "@;
            assert(start =~= text.subrange(0, start.len() as int));
        },
        QueryView::Insert { table, .. } => {
            let start = "INSERT INTO "@ + table_word(table) + " ("@;
            assert(start =~= text.subrange(0, start.len() as int));
        },
        _ => {},
    }
}

/// The text of a `SELECT` names the table that it reads.
pub proof fn law_text_of_a_select_names_its_table(statement: StatementView)
    requires
        statement.query is Select,
    ensures
        ("SELECT "@ + outputs_text(statement.query->outputs) + " FROM "@ + table_word(
            statement.query->Select_table,
        ) + where_text(statement.query->Select_filter)).is_prefix_of(statement.query.text()),
{
    let text = statement.query.text();
    let start = "SELECT "@ + outputs_text(statement.query->outputs) + " FROM "@ + table_word(
        statement.query->Select_table,
    ) + where_text(statement.query->Select_filter);
    law_text_of_a_query(statement.query);
    assert(start =~= text.subrange(0, start.len() as int));
}

/// Databases that agree on the table that the text of a `SELECT` names give the same answers.
pub proof fn law_read_table_is_named_in_the_text(
    db: Database,
    other: Database,
    statement: StatementView,
    locked: Set<int>,
    now: int,
    reply: Seq<ReplyRow>,
    name: TableName,
)
    requires
        statement.query is Select,
        ("SELECT "@ + outputs_text(statement.query->outputs) + " FROM "@ + table_word(
            name,
        )).is_prefix_of(statement.query.text()),
        db.table(name) == other.table(name),
    ensures
        is_answer(reply, db, statement, locked, now) <==> is_answer(
            reply,
            other,
            statement,
            locked,
            now,
        ),
{
    let text = statement.query.text();
    let table = statement.query->Select_table;
    let start = "SELECT "@ + outputs_text(statement.query->outputs) + " FROM "@;
    law_text_of_a_query(statement.query);
    reveal_strlit("witness_inputs");
    reveal_strlit("leaf_aggregation_witness_jobs");
    reveal_strlit("node_aggregation_witness_jobs");
    reveal_strlit("scheduler_witness_jobs");
    reveal_strlit("prover_jobs");
    assert(text[start.len() as int] == table_word(table)[0]);
    let named = start + table_word(name);
    assert(text.subrange(0, named.len() as int)[start.len() as int] == table_word(name)[0]);
    assert(name == table);
}

/// An argument is seen as the value that is sent.
pub proof fn law_argument_is_seen_as_it_is(arg: Arg)
    ensures
        arg@ == match arg {
            Arg::Int4(value) => ArgView::Int4(value),
            Arg::Int8(value) => ArgView::Int8(value),
            Arg::Text(value) => ArgView::Text(value@),
            Arg::Bytes(value) => ArgView::Bytes(value@),
            Arg::Interval(value) => ArgView::Interval(value),
            Arg::TimeOfDay(value) => ArgView::TimeOfDay(value),
            Arg::Int8List(value) => ArgView::Int8List(value@),
        },
{
}

/// A query is seen with the table, the lists and the options that it has.
pub proof fn law_query_is_seen_as_it_is(query: Query)
    ensures
        query matches Query::Update { table, set, filter, returning } ==> query@
            == (QueryView::Update { table, set: set@, filter: filter@, returning }),
        query matches Query::UpdateFirst { table, set, filter } ==> query@
            == (QueryView::UpdateFirst { table, set: set@, filter: filter@ }),
        query matches Query::Insert { table, values, keep_existing } ==> query@
            == (QueryView::Insert { table, values: values@, keep_existing }),
        query matches Query::Select { outputs, table, filter, group_by, order_by, limit } ==> query@
            == (QueryView::Select {
            outputs: outputs@,
            table,
            filter: filter@,
            group_by,
            order_by,
            limit,
        }),
        query matches Query::ListJobs { filter } ==> query@ == (QueryView::ListJobs {
            filter: filter@,
        }),
{
}

/// A statement is seen with its query and its arguments, in their order.
pub proof fn law_statement_is_seen_as_it_is(statement: Statement)
    ensures
        statement@.query == statement.query@,
        statement@.args.len() == statement.args.len(),
        forall|i: int|
            0 <= i < statement.args.len() ==> #[trigger] statement@.args[i] == statement.args@[i]@,
{
}

/// Steps and statements are seen as they are, in their order.
pub proof fn law_steps_are_seen_as_they_are(steps: Seq<Step>, statements: Seq<Statement>)
    ensures
        step_views(steps).len() == steps.len(),
        forall|i: int|
            0 <= i < steps.len() ==> #[trigger] step_views(steps)[i] == match steps[i] {
                Step::Begin => StepView::Begin,
                Step::Run(statement) => StepView::Run(statement@),
                Step::SkipProof(block_number) => StepView::SkipProof(block_number),
                Step::Commit => StepView::Commit,
            },
        statement_views(statements).len() == statements.len(),
        forall|i: int|
            0 <= i < statements.len() ==> #[trigger] statement_views(statements)[i]
                == statements[i]@,
{
}

} // verus!
