//! What is sent to the database, letter for letter.
//!
//! The contracts of the operations give the statement that each sends, and [`crate::meaning`] says
//! what a statement does. The laws here give the SQL text and the arguments of every statement, so
//! that what is sent is what the other laws speak of.
use vstd::prelude::*;

use crate::query::{
    assignments_text, columns_text, job_columns_text, job_slice_text, outputs_text, values_text,
    where_text, ArgView,
};
use crate::sql::{placeholder, table_of, Assignment, Condition, Output};
use crate::statements::{
    circuit_count_column, circuit_count_statement, claim_statement, cleanable_leaf_statement,
    cleanable_node_statement, cleanable_scheduler_statement, cleaned_statement, failure_statement,
    final_result_statement, generated_batch_statement, inputs_statement, leaf_artifacts_statement,
    leaf_job_statement, list_filter, list_statement, node_artifacts_statement, node_job_statement,
    proofs_statement, scheduler_job_statement, stats_statement, status_statement, success_statement,
};
use crate::text::{decimal, digit, joined};
use crate::types::{
    AggregationRound, GetWitnessJobsParams, Interval, JobStatus, L1BatchNumber, TimeOfDay,
};

verus! {

/// The name of the table that holds the jobs of a round.
pub open spec fn jobs_table(round: AggregationRound) -> Seq<char> {
    match round {
        AggregationRound::BasicCircuits => "witness_inputs"@,
        AggregationRound::LeafAggregation => "leaf_aggregation_witness_jobs"@,
        AggregationRound::NodeAggregation => "node_aggregation_witness_jobs"@,
        AggregationRound::Scheduler => "scheduler_witness_jobs"@,
    }
}

/// The number by which the database knows a round.
pub open spec fn round_number(round: AggregationRound) -> i64 {
    match round {
        AggregationRound::BasicCircuits => 0,
        AggregationRound::LeafAggregation => 1,
        AggregationRound::NodeAggregation => 2,
        AggregationRound::Scheduler => 3,
    }
}

/// A list of texts is the texts in their order, with the separator between neighbours.
pub proof fn law_separated_list(parts: Seq<Seq<char>>, last: Seq<char>, separator: Seq<char>)
    ensures
        joined(Seq::empty(), separator) == Seq::<char>::empty(),
        joined(seq![last], separator) == last,
        parts.len() > 0 ==> joined(parts.push(last), separator) == joined(parts, separator)
            + separator + last,
{
    assert(parts.push(last).drop_last() =~= parts);
}

/// A list of two texts.
proof fn lemma_joined_2(
    a: Seq<char>,
    b: Seq<char>,
    separator: Seq<char>,
)
    ensures
        joined(seq![a, b], separator) == a + separator + b,
{
    law_separated_list(seq![], a, separator);
    law_separated_list(seq![a], b, separator);
    assert(seq![a].push(b) =~= seq![a, b]);
}

/// A list of three texts.
proof fn lemma_joined_3(
    a: Seq<char>,
    b: Seq<char>,
    c: Seq<char>,
    separator: Seq<char>,
)
    ensures
        joined(seq![a, b, c], separator) == a + separator + b + separator + c,
{
    lemma_joined_2(a, b, separator);
    law_separated_list(seq![a, b], c, separator);
    assert(seq![a, b].push(c) =~= seq![a, b, c]);
}

/// A list of four texts.
proof fn lemma_joined_4(
    a: Seq<char>,
    b: Seq<char>,
    c: Seq<char>,
    d: Seq<char>,
    separator: Seq<char>,
)
    ensures
        joined(seq![a, b, c, d], separator) == a + separator + b + separator + c + separator + d,
{
    lemma_joined_3(a, b, c, separator);
    law_separated_list(seq![a, b, c], d, separator);
    assert(seq![a, b, c].push(d) =~= seq![a, b, c, d]);
}

/// A list of five texts.
proof fn lemma_joined_5(
    a: Seq<char>,
    b: Seq<char>,
    c: Seq<char>,
    d: Seq<char>,
    e: Seq<char>,
    separator: Seq<char>,
)
    ensures
        joined(seq![a, b, c, d, e], separator) == a + separator + b + separator + c + separator + d + separator + e,
{
    lemma_joined_4(a, b, c, d, separator);
    law_separated_list(seq![a, b, c, d], e, separator);
    assert(seq![a, b, c, d].push(e) =~= seq![a, b, c, d, e]);
}

/// A list of six texts.
proof fn lemma_joined_6(
    a: Seq<char>,
    b: Seq<char>,
    c: Seq<char>,
    d: Seq<char>,
    e: Seq<char>,
    f: Seq<char>,
    separator: Seq<char>,
)
    ensures
        joined(seq![a, b, c, d, e, f], separator) == a + separator + b + separator + c + separator + d + separator + e + separator + f,
{
    lemma_joined_5(a, b, c, d, e, separator);
    law_separated_list(seq![a, b, c, d, e], f, separator);
    assert(seq![a, b, c, d, e].push(f) =~= seq![a, b, c, d, e, f]);
}

/// A list of seven texts.
proof fn lemma_joined_7(
    a: Seq<char>,
    b: Seq<char>,
    c: Seq<char>,
    d: Seq<char>,
    e: Seq<char>,
    f: Seq<char>,
    g: Seq<char>,
    separator: Seq<char>,
)
    ensures
        joined(seq![a, b, c, d, e, f, g], separator) == a + separator + b + separator + c + separator + d + separator + e + separator + f + separator + g,
{
    lemma_joined_6(a, b, c, d, e, f, separator);
    law_separated_list(seq![a, b, c, d, e, f], g, separator);
    assert(seq![a, b, c, d, e, f].push(g) =~= seq![a, b, c, d, e, f, g]);
}

/// A list of eight texts.
proof fn lemma_joined_8(
    a: Seq<char>,
    b: Seq<char>,
    c: Seq<char>,
    d: Seq<char>,
    e: Seq<char>,
    f: Seq<char>,
    g: Seq<char>,
    h: Seq<char>,
    separator: Seq<char>,
)
    ensures
        joined(seq![a, b, c, d, e, f, g, h], separator) == a + separator + b + separator + c + separator + d + separator + e + separator + f + separator + g + separator + h,
{
    lemma_joined_7(a, b, c, d, e, f, g, separator);
    law_separated_list(seq![a, b, c, d, e, f, g], h, separator);
    assert(seq![a, b, c, d, e, f, g].push(h) =~= seq![a, b, c, d, e, f, g, h]);
}

/// A list of nine texts.
proof fn lemma_joined_9(
    a: Seq<char>,
    b: Seq<char>,
    c: Seq<char>,
    d: Seq<char>,
    e: Seq<char>,
    f: Seq<char>,
    g: Seq<char>,
    h: Seq<char>,
    i: Seq<char>,
    separator: Seq<char>,
)
    ensures
        joined(seq![a, b, c, d, e, f, g, h, i], separator) == a + separator + b + separator + c + separator + d + separator + e + separator + f + separator + g + separator + h + separator + i,
{
    lemma_joined_8(a, b, c, d, e, f, g, h, separator);
    law_separated_list(seq![a, b, c, d, e, f, g, h], i, separator);
    assert(seq![a, b, c, d, e, f, g, h].push(i) =~= seq![a, b, c, d, e, f, g, h, i]);
}

/// What is sent to take the next job of a round.
#[verifier::spinoff_prover]
#[verifier::rlimit(40)]
pub proof fn law_text_of_taking_a_job(
    round: AggregationRound,
    processing_timeout: Interval,
    max_attempts: u32,
    last_l1_batch_to_process: u32,
)
    ensures
        claim_statement(
            table_of(round),
            processing_timeout,
            max_attempts,
            last_l1_batch_to_process,
        ).query.text() == "UPDATE "@
            + jobs_table(round)
            + " SET status = 'in_progress', attempts = attempts + 1, updated_at = now(), processing_started_at = now() WHERE l1_batch_number = (SELECT l1_batch_number FROM "@
            + jobs_table(round)
            + " WHERE l1_batch_number <= $3 AND (status = 'queued' OR (status = 'in_progress' AND processing_started_at < now() - $1::interval) OR (status = 'failed' AND attempts < $2)) ORDER BY l1_batch_number ASC LIMIT 1 FOR UPDATE SKIP LOCKED) RETURNING "@
            + jobs_table(round)
            + ".*"@,
        claim_statement(
            table_of(round),
            processing_timeout,
            max_attempts,
            last_l1_batch_to_process,
        ).args == seq![
            ArgView::Interval(processing_timeout),
            ArgView::Int4(max_attempts as i32),
            ArgView::Int8(last_l1_batch_to_process as i64),
        ],
{
    let statement = claim_statement(
        table_of(round),
        processing_timeout,
        max_attempts,
        last_l1_batch_to_process,
    );
    let set = statement.query->UpdateFirst_set;
    let filter = statement.query->UpdateFirst_filter;
    assert(assignments_text(set) == "status = 'in_progress', attempts = attempts + 1, updated_at = now(), processing_started_at = now()"@) by {
        reveal_with_fuel(decimal, 3);
        assert(set[0].text() =~= "status = 'in_progress'"@) by {
            reveal_strlit("status");
            reveal_strlit(" = ");
            reveal_strlit("'");
            reveal_strlit("in_progress");
            reveal_strlit("status = 'in_progress'");
        }
        assert(set[1].text() =~= "attempts = attempts + 1"@) by {
            reveal_strlit("attempts");
            reveal_strlit(" = ");
            reveal_strlit(" + 1");
            reveal_strlit("attempts = attempts + 1");
        }
        assert(set[2].text() =~= "updated_at = now()"@) by {
            reveal_strlit("updated_at");
            reveal_strlit(" = ");
            reveal_strlit("now()");
            reveal_strlit("updated_at = now()");
        }
        assert(set[3].text() =~= "processing_started_at = now()"@) by {
            reveal_strlit("processing_started_at");
            reveal_strlit(" = ");
            reveal_strlit("now()");
            reveal_strlit("processing_started_at = now()");
        }
        let parts = seq![
            "status = 'in_progress'"@,
            "attempts = attempts + 1"@,
            "updated_at = now()"@,
            "processing_started_at = now()"@,
        ];
        assert(set.map_values(|assignment: Assignment| assignment.text()) =~= parts);
        lemma_joined_4(parts[0], parts[1], parts[2], parts[3], ", "@);
        assert(parts =~= seq![parts[0], parts[1], parts[2], parts[3]]);
        reveal_strlit("status = 'in_progress'");
        reveal_strlit("attempts = attempts + 1");
        reveal_strlit("updated_at = now()");
        reveal_strlit("processing_started_at = now()");
        reveal_strlit(", ");
        reveal_strlit("status = 'in_progress', attempts = attempts + 1, updated_at = now(), processing_started_at = now()");
    }
    assert(where_text(filter) == " WHERE l1_batch_number <= $3 AND (status = 'queued' OR (status = 'in_progress' AND processing_started_at < now() - $1::interval) OR (status = 'failed' AND attempts < $2))"@) by {
        reveal_with_fuel(decimal, 3);
        assert(filter[0].text() =~= "l1_batch_number <= $3"@) by {
            reveal_strlit("l1_batch_number <= ");
            reveal_strlit("$");
            reveal_strlit("l1_batch_number <= $3");
        }
        assert(filter[1].text() =~= "(status = 'queued' OR (status = 'in_progress' AND processing_started_at < now() - $1::interval) OR (status = 'failed' AND attempts < $2))"@) by {
            reveal_strlit("(status = 'queued' OR (status = 'in_progress' AND processing_started_at < now() - ");
            reveal_strlit("$");
            reveal_strlit("::interval) OR (status = 'failed' AND attempts < ");
            reveal_strlit("))");
            reveal_strlit("(status = 'queued' OR (status = 'in_progress' AND processing_started_at < now() - $1::interval) OR (status = 'failed' AND attempts < $2))");
        }
        let parts = seq![
            "l1_batch_number <= $3"@,
            "(status = 'queued' OR (status = 'in_progress' AND processing_started_at < now() - $1::interval) OR (status = 'failed' AND attempts < $2))"@,
        ];
        assert(filter.map_values(|condition: Condition| condition.text()) =~= parts);
        lemma_joined_2(parts[0], parts[1], " AND "@);
        assert(parts =~= seq![parts[0], parts[1]]);
        reveal_strlit("l1_batch_number <= $3");
        reveal_strlit("(status = 'queued' OR (status = 'in_progress' AND processing_started_at < now() - $1::interval) OR (status = 'failed' AND attempts < $2))");
        reveal_strlit(" AND ");
        reveal_strlit(" WHERE ");
        reveal_strlit(" WHERE l1_batch_number <= $3 AND (status = 'queued' OR (status = 'in_progress' AND processing_started_at < now() - $1::interval) OR (status = 'failed' AND attempts < $2))");
    }
    assert(" SET "@
        + "status = 'in_progress', attempts = attempts + 1, updated_at = now(), processing_started_at = now()"@
        + " WHERE l1_batch_number = (SELECT l1_batch_number FROM "@
        =~= " SET status = 'in_progress', attempts = attempts + 1, updated_at = now(), processing_started_at = now() WHERE l1_batch_number = (SELECT l1_batch_number FROM "@) by {
        reveal_strlit(" SET ");
        reveal_strlit("status = 'in_progress', attempts = attempts + 1, updated_at = now(), processing_started_at = now()");
        reveal_strlit(" WHERE l1_batch_number = (SELECT l1_batch_number FROM ");
        reveal_strlit(" SET status = 'in_progress', attempts = attempts + 1, updated_at = now(), processing_started_at = now() WHERE l1_batch_number = (SELECT l1_batch_number FROM ");
    }
    assert(" WHERE l1_batch_number <= $3 AND (status = 'queued' OR (status = 'in_progress' AND processing_started_at < now() - $1::interval) OR (status = 'failed' AND attempts < $2))"@
        + " ORDER BY l1_batch_number ASC LIMIT 1 FOR UPDATE SKIP LOCKED) RETURNING "@
        =~= " WHERE l1_batch_number <= $3 AND (status = 'queued' OR (status = 'in_progress' AND processing_started_at < now() - $1::interval) OR (status = 'failed' AND attempts < $2)) ORDER BY l1_batch_number ASC LIMIT 1 FOR UPDATE SKIP LOCKED) RETURNING "@) by {
        reveal_strlit(" WHERE l1_batch_number <= $3 AND (status = 'queued' OR (status = 'in_progress' AND processing_started_at < now() - $1::interval) OR (status = 'failed' AND attempts < $2))");
        reveal_strlit(" ORDER BY l1_batch_number ASC LIMIT 1 FOR UPDATE SKIP LOCKED) RETURNING ");
        reveal_strlit(" WHERE l1_batch_number <= $3 AND (status = 'queued' OR (status = 'in_progress' AND processing_started_at < now() - $1::interval) OR (status = 'failed' AND attempts < $2)) ORDER BY l1_batch_number ASC LIMIT 1 FOR UPDATE SKIP LOCKED) RETURNING ");
    }
    assert(statement.query.text() =~= "UPDATE "@
        + jobs_table(round)
        + " SET status = 'in_progress', attempts = attempts + 1, updated_at = now(), processing_started_at = now() WHERE l1_batch_number = (SELECT l1_batch_number FROM "@
        + jobs_table(round)
        + " WHERE l1_batch_number <= $3 AND (status = 'queued' OR (status = 'in_progress' AND processing_started_at < now() - $1::interval) OR (status = 'failed' AND attempts < $2)) ORDER BY l1_batch_number ASC LIMIT 1 FOR UPDATE SKIP LOCKED) RETURNING "@
        + jobs_table(round)
        + ".*"@);
    assert(statement.args =~= seq![
        ArgView::Interval(processing_timeout),
        ArgView::Int4(max_attempts as i32),
        ArgView::Int8(last_l1_batch_to_process as i64),
    ]);
}

/// What is sent to find the last batch of a round whose job succeeded.
#[verifier::spinoff_prover]
#[verifier::rlimit(40)]
pub proof fn law_text_of_the_last_generated_batch(round: AggregationRound)
    ensures
        generated_batch_statement(table_of(round)).query.text() == "SELECT MAX(l1_batch_number) as l1_batch FROM "@
            + jobs_table(round)
            + " WHERE status = 'successful'"@,
        generated_batch_statement(table_of(round)).args == Seq::<ArgView>::empty(),
{
    let statement = generated_batch_statement(table_of(round));
    let outputs = statement.query->outputs;
    let filter = statement.query->Select_filter;
    assert(outputs_text(outputs) == "MAX(l1_batch_number) as l1_batch"@) by {
        reveal_with_fuel(decimal, 3);
        let parts = seq![
            "MAX(l1_batch_number) as l1_batch"@,
        ];
        assert(outputs.map_values(|output: Output| output.text()) =~= parts);
        law_separated_list(seq![], parts[0], ", "@);
    }
    assert(where_text(filter) == " WHERE status = 'successful'"@) by {
        reveal_with_fuel(decimal, 3);
        assert(filter[0].text() =~= "status = 'successful'"@) by {
            reveal_strlit("status = '");
            reveal_strlit("successful");
            reveal_strlit("'");
            reveal_strlit("status = 'successful'");
        }
        let parts = seq![
            "status = 'successful'"@,
        ];
        assert(filter.map_values(|condition: Condition| condition.text()) =~= parts);
        law_separated_list(seq![], parts[0], " AND "@);
        reveal_strlit("status = 'successful'");
        reveal_strlit(" WHERE ");
        reveal_strlit(" WHERE status = 'successful'");
    }
    assert("SELECT "@
        + "MAX(l1_batch_number) as l1_batch"@
        + " FROM "@
        =~= "SELECT MAX(l1_batch_number) as l1_batch FROM "@) by {
        reveal_strlit("SELECT ");
        reveal_strlit("MAX(l1_batch_number) as l1_batch");
        reveal_strlit(" FROM ");
        reveal_strlit("SELECT MAX(l1_batch_number) as l1_batch FROM ");
    }
    assert(statement.query.text() =~= "SELECT MAX(l1_batch_number) as l1_batch FROM "@
        + jobs_table(round)
        + " WHERE status = 'successful'"@);
    assert(statement.args =~= Seq::<ArgView>::empty());
}

/// What is sent to find the proofs of a round of a batch.
#[verifier::spinoff_prover]
#[verifier::rlimit(40)]
pub proof fn law_text_of_the_proofs(block_number: L1BatchNumber, round: AggregationRound)
    ensures
        proofs_statement(block_number, round).query.text() == "SELECT circuit_type, result FROM prover_jobs"@
            + " WHERE l1_batch_number = $1 AND status = 'successful' AND aggregation_round = $2"@
            + " ORDER BY sequence_number ASC"@,
        proofs_statement(block_number, round).args == seq![
            ArgView::Int8(block_number.0 as i64),
            ArgView::Int8(round_number(round)),
        ],
{
    let statement = proofs_statement(block_number, round);
    let outputs = statement.query->outputs;
    let filter = statement.query->Select_filter;
    assert(outputs_text(outputs) == "circuit_type, result"@) by {
        reveal_with_fuel(decimal, 3);
        let parts = seq![
            "circuit_type"@,
            "result"@,
        ];
        assert(outputs.map_values(|output: Output| output.text()) =~= parts);
        lemma_joined_2(parts[0], parts[1], ", "@);
        assert(parts =~= seq![parts[0], parts[1]]);
        reveal_strlit("circuit_type");
        reveal_strlit("result");
        reveal_strlit(", ");
        reveal_strlit("circuit_type, result");
    }
    assert(where_text(filter) == " WHERE l1_batch_number = $1 AND status = 'successful' AND aggregation_round = $2"@) by {
        reveal_with_fuel(decimal, 3);
        assert(filter[0].text() =~= "l1_batch_number = $1"@) by {
            reveal_strlit("l1_batch_number = ");
            reveal_strlit("$");
            reveal_strlit("l1_batch_number = $1");
        }
        assert(filter[1].text() =~= "status = 'successful'"@) by {
            reveal_strlit("status = '");
            reveal_strlit("successful");
            reveal_strlit("'");
            reveal_strlit("status = 'successful'");
        }
        assert(filter[2].text() =~= "aggregation_round = $2"@) by {
            reveal_strlit("aggregation_round = ");
            reveal_strlit("$");
            reveal_strlit("aggregation_round = $2");
        }
        let parts = seq![
            "l1_batch_number = $1"@,
            "status = 'successful'"@,
            "aggregation_round = $2"@,
        ];
        assert(filter.map_values(|condition: Condition| condition.text()) =~= parts);
        lemma_joined_3(parts[0], parts[1], parts[2], " AND "@);
        assert(parts =~= seq![parts[0], parts[1], parts[2]]);
        reveal_strlit("l1_batch_number = $1");
        reveal_strlit("status = 'successful'");
        reveal_strlit("aggregation_round = $2");
        reveal_strlit(" AND ");
        reveal_strlit(" WHERE ");
        reveal_strlit(" WHERE l1_batch_number = $1 AND status = 'successful' AND aggregation_round = $2");
    }
    assert(" ORDER BY "@
        + "sequence_number"@
        + " ASC"@
        =~= " ORDER BY sequence_number ASC"@) by {
        reveal_strlit(" ORDER BY ");
        reveal_strlit("sequence_number");
        reveal_strlit(" ASC");
        reveal_strlit(" ORDER BY sequence_number ASC");
    }
    assert("SELECT "@
        + "circuit_type, result"@
        + " FROM "@
        + "prover_jobs"@
        =~= "SELECT circuit_type, result FROM prover_jobs"@) by {
        reveal_strlit("SELECT ");
        reveal_strlit("circuit_type, result");
        reveal_strlit(" FROM ");
        reveal_strlit("prover_jobs");
        reveal_strlit("SELECT circuit_type, result FROM prover_jobs");
    }
    assert(statement.query.text() =~= "SELECT circuit_type, result FROM prover_jobs"@
        + " WHERE l1_batch_number = $1 AND status = 'successful' AND aggregation_round = $2"@
        + " ORDER BY sequence_number ASC"@);
    assert(statement.args =~= seq![
        ArgView::Int8(block_number.0 as i64),
        ArgView::Int8(round_number(round)),
    ]);
}

/// What is sent to mark a job of a round as successful.
#[verifier::spinoff_prover]
#[verifier::rlimit(40)]
pub proof fn law_text_of_marking_as_successful(
    block_number: L1BatchNumber,
    round: AggregationRound,
    time_taken: TimeOfDay,
)
    ensures
        success_statement(block_number, round, time_taken).query.text() == "UPDATE "@
            + jobs_table(round)
            + " SET status = 'successful', updated_at = now(), time_taken = $1 WHERE l1_batch_number = $2"@,
        success_statement(block_number, round, time_taken).args == seq![
            ArgView::TimeOfDay(time_taken),
            ArgView::Int8(block_number.0 as i64),
        ],
{
    let statement = success_statement(block_number, round, time_taken);
    let set = statement.query->Update_set;
    let filter = statement.query->Update_filter;
    assert(assignments_text(set) == "status = 'successful', updated_at = now(), time_taken = $1"@) by {
        reveal_with_fuel(decimal, 3);
        assert(set[0].text() =~= "status = 'successful'"@) by {
            reveal_strlit("status");
            reveal_strlit(" = ");
            reveal_strlit("'");
            reveal_strlit("successful");
            reveal_strlit("status = 'successful'");
        }
        assert(set[1].text() =~= "updated_at = now()"@) by {
            reveal_strlit("updated_at");
            reveal_strlit(" = ");
            reveal_strlit("now()");
            reveal_strlit("updated_at = now()");
        }
        assert(set[2].text() =~= "time_taken = $1"@) by {
            reveal_strlit("time_taken");
            reveal_strlit(" = ");
            reveal_strlit("$");
            reveal_strlit("time_taken = $1");
        }
        let parts = seq![
            "status = 'successful'"@,
            "updated_at = now()"@,
            "time_taken = $1"@,
        ];
        assert(set.map_values(|assignment: Assignment| assignment.text()) =~= parts);
        lemma_joined_3(parts[0], parts[1], parts[2], ", "@);
        assert(parts =~= seq![parts[0], parts[1], parts[2]]);
        reveal_strlit("status = 'successful'");
        reveal_strlit("updated_at = now()");
        reveal_strlit("time_taken = $1");
        reveal_strlit(", ");
        reveal_strlit("status = 'successful', updated_at = now(), time_taken = $1");
    }
    assert(where_text(filter) == " WHERE l1_batch_number = $2"@) by {
        reveal_with_fuel(decimal, 3);
        assert(filter[0].text() =~= "l1_batch_number = $2"@) by {
            reveal_strlit("l1_batch_number = ");
            reveal_strlit("$");
            reveal_strlit("l1_batch_number = $2");
        }
        let parts = seq![
            "l1_batch_number = $2"@,
        ];
        assert(filter.map_values(|condition: Condition| condition.text()) =~= parts);
        law_separated_list(seq![], parts[0], " AND "@);
        reveal_strlit("l1_batch_number = $2");
        reveal_strlit(" WHERE ");
        reveal_strlit(" WHERE l1_batch_number = $2");
    }
    assert(" SET "@
        + "status = 'successful', updated_at = now(), time_taken = $1"@
        + " WHERE l1_batch_number = $2"@
        =~= " SET status = 'successful', updated_at = now(), time_taken = $1 WHERE l1_batch_number = $2"@) by {
        reveal_strlit(" SET ");
        reveal_strlit("status = 'successful', updated_at = now(), time_taken = $1");
        reveal_strlit(" WHERE l1_batch_number = $2");
        reveal_strlit(" SET status = 'successful', updated_at = now(), time_taken = $1 WHERE l1_batch_number = $2");
    }
    assert(statement.query.text() =~= "UPDATE "@
        + jobs_table(round)
        + " SET status = 'successful', updated_at = now(), time_taken = $1 WHERE l1_batch_number = $2"@);
    assert(statement.args =~= seq![
        ArgView::TimeOfDay(time_taken),
        ArgView::Int8(block_number.0 as i64),
    ]);
}

/// What is sent to mark a job of a round as queued.
#[verifier::spinoff_prover]
#[verifier::rlimit(40)]
pub proof fn law_text_of_marking_as_queued(block_number: L1BatchNumber, round: AggregationRound)
    ensures
        status_statement(block_number, round, JobStatus::Queued).query.text() == "UPDATE "@
            + jobs_table(round)
            + " SET status = 'queued', updated_at = now() WHERE l1_batch_number = $1"@,
        status_statement(block_number, round, JobStatus::Queued).args == seq![ArgView::Int8(block_number.0 as i64)],
{
    let statement = status_statement(block_number, round, JobStatus::Queued);
    let set = statement.query->Update_set;
    let filter = statement.query->Update_filter;
    assert(assignments_text(set) == "status = 'queued', updated_at = now()"@) by {
        reveal_with_fuel(decimal, 3);
        assert(set[0].text() =~= "status = 'queued'"@) by {
            reveal_strlit("status");
            reveal_strlit(" = ");
            reveal_strlit("'");
            reveal_strlit("queued");
            reveal_strlit("status = 'queued'");
        }
        assert(set[1].text() =~= "updated_at = now()"@) by {
            reveal_strlit("updated_at");
            reveal_strlit(" = ");
            reveal_strlit("now()");
            reveal_strlit("updated_at = now()");
        }
        let parts = seq![
            "status = 'queued'"@,
            "updated_at = now()"@,
        ];
        assert(set.map_values(|assignment: Assignment| assignment.text()) =~= parts);
        lemma_joined_2(parts[0], parts[1], ", "@);
        assert(parts =~= seq![parts[0], parts[1]]);
        reveal_strlit("status = 'queued'");
        reveal_strlit("updated_at = now()");
        reveal_strlit(", ");
        reveal_strlit("status = 'queued', updated_at = now()");
    }
    assert(where_text(filter) == " WHERE l1_batch_number = $1"@) by {
        reveal_with_fuel(decimal, 3);
        assert(filter[0].text() =~= "l1_batch_number = $1"@) by {
            reveal_strlit("l1_batch_number = ");
            reveal_strlit("$");
            reveal_strlit("l1_batch_number = $1");
        }
        let parts = seq![
            "l1_batch_number = $1"@,
        ];
        assert(filter.map_values(|condition: Condition| condition.text()) =~= parts);
        law_separated_list(seq![], parts[0], " AND "@);
        reveal_strlit("l1_batch_number = $1");
        reveal_strlit(" WHERE ");
        reveal_strlit(" WHERE l1_batch_number = $1");
    }
    assert(" SET "@
        + "status = 'queued', updated_at = now()"@
        + " WHERE l1_batch_number = $1"@
        =~= " SET status = 'queued', updated_at = now() WHERE l1_batch_number = $1"@) by {
        reveal_strlit(" SET ");
        reveal_strlit("status = 'queued', updated_at = now()");
        reveal_strlit(" WHERE l1_batch_number = $1");
        reveal_strlit(" SET status = 'queued', updated_at = now() WHERE l1_batch_number = $1");
    }
    assert(statement.query.text() =~= "UPDATE "@
        + jobs_table(round)
        + " SET status = 'queued', updated_at = now() WHERE l1_batch_number = $1"@);
    assert(statement.args =~= seq![ArgView::Int8(block_number.0 as i64)]);
}

/// What is sent to mark a job of a round as waiting for proofs.
#[verifier::spinoff_prover]
#[verifier::rlimit(40)]
pub proof fn law_text_of_marking_as_waiting_for_proofs(
    block_number: L1BatchNumber,
    round: AggregationRound,
)
    ensures
        status_statement(block_number, round, JobStatus::WaitingForProofs).query.text() == "UPDATE "@
            + jobs_table(round)
            + " SET status = 'waiting_for_proofs', updated_at = now() WHERE l1_batch_number = $1"@,
        status_statement(block_number, round, JobStatus::WaitingForProofs).args == seq![ArgView::Int8(block_number.0 as i64)],
{
    let statement = status_statement(block_number, round, JobStatus::WaitingForProofs);
    let set = statement.query->Update_set;
    let filter = statement.query->Update_filter;
    assert(assignments_text(set) == "status = 'waiting_for_proofs', updated_at = now()"@) by {
        reveal_with_fuel(decimal, 3);
        assert(set[0].text() =~= "status = 'waiting_for_proofs'"@) by {
            reveal_strlit("status");
            reveal_strlit(" = ");
            reveal_strlit("'");
            reveal_strlit("waiting_for_proofs");
            reveal_strlit("status = 'waiting_for_proofs'");
        }
        assert(set[1].text() =~= "updated_at = now()"@) by {
            reveal_strlit("updated_at");
            reveal_strlit(" = ");
            reveal_strlit("now()");
            reveal_strlit("updated_at = now()");
        }
        let parts = seq![
            "status = 'waiting_for_proofs'"@,
            "updated_at = now()"@,
        ];
        assert(set.map_values(|assignment: Assignment| assignment.text()) =~= parts);
        lemma_joined_2(parts[0], parts[1], ", "@);
        assert(parts =~= seq![parts[0], parts[1]]);
        reveal_strlit("status = 'waiting_for_proofs'");
        reveal_strlit("updated_at = now()");
        reveal_strlit(", ");
        reveal_strlit("status = 'waiting_for_proofs', updated_at = now()");
    }
    assert(where_text(filter) == " WHERE l1_batch_number = $1"@) by {
        reveal_with_fuel(decimal, 3);
        assert(filter[0].text() =~= "l1_batch_number = $1"@) by {
            reveal_strlit("l1_batch_number = ");
            reveal_strlit("$");
            reveal_strlit("l1_batch_number = $1");
        }
        let parts = seq![
            "l1_batch_number = $1"@,
        ];
        assert(filter.map_values(|condition: Condition| condition.text()) =~= parts);
        law_separated_list(seq![], parts[0], " AND "@);
        reveal_strlit("l1_batch_number = $1");
        reveal_strlit(" WHERE ");
        reveal_strlit(" WHERE l1_batch_number = $1");
    }
    assert(" SET "@
        + "status = 'waiting_for_proofs', updated_at = now()"@
        + " WHERE l1_batch_number = $1"@
        =~= " SET status = 'waiting_for_proofs', updated_at = now() WHERE l1_batch_number = $1"@) by {
        reveal_strlit(" SET ");
        reveal_strlit("status = 'waiting_for_proofs', updated_at = now()");
        reveal_strlit(" WHERE l1_batch_number = $1");
        reveal_strlit(" SET status = 'waiting_for_proofs', updated_at = now() WHERE l1_batch_number = $1");
    }
    assert(statement.query.text() =~= "UPDATE "@
        + jobs_table(round)
        + " SET status = 'waiting_for_proofs', updated_at = now() WHERE l1_batch_number = $1"@);
    assert(statement.args =~= seq![ArgView::Int8(block_number.0 as i64)]);
}

/// What is sent to mark a job of a round as skipped.
#[verifier::spinoff_prover]
#[verifier::rlimit(40)]
pub proof fn law_text_of_marking_as_skipped(block_number: L1BatchNumber, round: AggregationRound)
    ensures
        status_statement(block_number, round, JobStatus::Skipped).query.text() == "UPDATE "@
            + jobs_table(round)
            + " SET status = 'skipped', updated_at = now() WHERE l1_batch_number = $1"@,
        status_statement(block_number, round, JobStatus::Skipped).args == seq![ArgView::Int8(block_number.0 as i64)],
{
    let statement = status_statement(block_number, round, JobStatus::Skipped);
    let set = statement.query->Update_set;
    let filter = statement.query->Update_filter;
    assert(assignments_text(set) == "status = 'skipped', updated_at = now()"@) by {
        reveal_with_fuel(decimal, 3);
        assert(set[0].text() =~= "status = 'skipped'"@) by {
            reveal_strlit("status");
            reveal_strlit(" = ");
            reveal_strlit("'");
            reveal_strlit("skipped");
            reveal_strlit("status = 'skipped'");
        }
        assert(set[1].text() =~= "updated_at = now()"@) by {
            reveal_strlit("updated_at");
            reveal_strlit(" = ");
            reveal_strlit("now()");
            reveal_strlit("updated_at = now()");
        }
        let parts = seq![
            "status = 'skipped'"@,
            "updated_at = now()"@,
        ];
        assert(set.map_values(|assignment: Assignment| assignment.text()) =~= parts);
        lemma_joined_2(parts[0], parts[1], ", "@);
        assert(parts =~= seq![parts[0], parts[1]]);
        reveal_strlit("status = 'skipped'");
        reveal_strlit("updated_at = now()");
        reveal_strlit(", ");
        reveal_strlit("status = 'skipped', updated_at = now()");
    }
    assert(where_text(filter) == " WHERE l1_batch_number = $1"@) by {
        reveal_with_fuel(decimal, 3);
        assert(filter[0].text() =~= "l1_batch_number = $1"@) by {
            reveal_strlit("l1_batch_number = ");
            reveal_strlit("$");
            reveal_strlit("l1_batch_number = $1");
        }
        let parts = seq![
            "l1_batch_number = $1"@,
        ];
        assert(filter.map_values(|condition: Condition| condition.text()) =~= parts);
        law_separated_list(seq![], parts[0], " AND "@);
        reveal_strlit("l1_batch_number = $1");
        reveal_strlit(" WHERE ");
        reveal_strlit(" WHERE l1_batch_number = $1");
    }
    assert(" SET "@
        + "status = 'skipped', updated_at = now()"@
        + " WHERE l1_batch_number = $1"@
        =~= " SET status = 'skipped', updated_at = now() WHERE l1_batch_number = $1"@) by {
        reveal_strlit(" SET ");
        reveal_strlit("status = 'skipped', updated_at = now()");
        reveal_strlit(" WHERE l1_batch_number = $1");
        reveal_strlit(" SET status = 'skipped', updated_at = now() WHERE l1_batch_number = $1");
    }
    assert(statement.query.text() =~= "UPDATE "@
        + jobs_table(round)
        + " SET status = 'skipped', updated_at = now() WHERE l1_batch_number = $1"@);
    assert(statement.args =~= seq![ArgView::Int8(block_number.0 as i64)]);
}

/// What is sent to mark a job of a round as failed.
#[verifier::spinoff_prover]
#[verifier::rlimit(40)]
pub proof fn law_text_of_marking_as_failed(
    block_number: L1BatchNumber,
    round: AggregationRound,
    time_taken: TimeOfDay,
    error: Seq<char>,
)
    ensures
        failure_statement(block_number, round, time_taken, error).query.text() == "UPDATE "@
            + jobs_table(round)
            + " SET status = 'failed', updated_at = now(), time_taken = $1, error = $2 WHERE l1_batch_number = $3 RETURNING attempts"@,
        failure_statement(block_number, round, time_taken, error).args == seq![
            ArgView::TimeOfDay(time_taken),
            ArgView::Text(error),
            ArgView::Int8(block_number.0 as i64),
        ],
{
    let statement = failure_statement(block_number, round, time_taken, error);
    let set = statement.query->Update_set;
    let filter = statement.query->Update_filter;
    assert(assignments_text(set) == "status = 'failed', updated_at = now(), time_taken = $1, error = $2"@) by {
        reveal_with_fuel(decimal, 3);
        assert(set[0].text() =~= "status = 'failed'"@) by {
            reveal_strlit("status");
            reveal_strlit(" = ");
            reveal_strlit("'");
            reveal_strlit("failed");
            reveal_strlit("status = 'failed'");
        }
        assert(set[1].text() =~= "updated_at = now()"@) by {
            reveal_strlit("updated_at");
            reveal_strlit(" = ");
            reveal_strlit("now()");
            reveal_strlit("updated_at = now()");
        }
        assert(set[2].text() =~= "time_taken = $1"@) by {
            reveal_strlit("time_taken");
            reveal_strlit(" = ");
            reveal_strlit("$");
            reveal_strlit("time_taken = $1");
        }
        assert(set[3].text() =~= "error = $2"@) by {
            reveal_strlit("error");
            reveal_strlit(" = ");
            reveal_strlit("$");
            reveal_strlit("error = $2");
        }
        let parts = seq![
            "status = 'failed'"@,
            "updated_at = now()"@,
            "time_taken = $1"@,
            "error = $2"@,
        ];
        assert(set.map_values(|assignment: Assignment| assignment.text()) =~= parts);
        lemma_joined_4(parts[0], parts[1], parts[2], parts[3], ", "@);
        assert(parts =~= seq![parts[0], parts[1], parts[2], parts[3]]);
        reveal_strlit("status = 'failed'");
        reveal_strlit("updated_at = now()");
        reveal_strlit("time_taken = $1");
        reveal_strlit("error = $2");
        reveal_strlit(", ");
        reveal_strlit("status = 'failed', updated_at = now(), time_taken = $1, error = $2");
    }
    assert(where_text(filter) == " WHERE l1_batch_number = $3"@) by {
        reveal_with_fuel(decimal, 3);
        assert(filter[0].text() =~= "l1_batch_number = $3"@) by {
            reveal_strlit("l1_batch_number = ");
            reveal_strlit("$");
            reveal_strlit("l1_batch_number = $3");
        }
        let parts = seq![
            "l1_batch_number = $3"@,
        ];
        assert(filter.map_values(|condition: Condition| condition.text()) =~= parts);
        law_separated_list(seq![], parts[0], " AND "@);
        reveal_strlit("l1_batch_number = $3");
        reveal_strlit(" WHERE ");
        reveal_strlit(" WHERE l1_batch_number = $3");
    }
    assert(" RETURNING "@
        + "attempts"@
        =~= " RETURNING attempts"@) by {
        reveal_strlit(" RETURNING ");
        reveal_strlit("attempts");
        reveal_strlit(" RETURNING attempts");
    }
    assert(" SET "@
        + "status = 'failed', updated_at = now(), time_taken = $1, error = $2"@
        + " WHERE l1_batch_number = $3"@
        + " RETURNING attempts"@
        =~= " SET status = 'failed', updated_at = now(), time_taken = $1, error = $2 WHERE l1_batch_number = $3 RETURNING attempts"@) by {
        reveal_strlit(" SET ");
        reveal_strlit("status = 'failed', updated_at = now(), time_taken = $1, error = $2");
        reveal_strlit(" WHERE l1_batch_number = $3");
        reveal_strlit(" RETURNING attempts");
        reveal_strlit(" SET status = 'failed', updated_at = now(), time_taken = $1, error = $2 WHERE l1_batch_number = $3 RETURNING attempts");
    }
    assert(statement.query.text() =~= "UPDATE "@
        + jobs_table(round)
        + " SET status = 'failed', updated_at = now(), time_taken = $1, error = $2 WHERE l1_batch_number = $3 RETURNING attempts"@);
    assert(statement.args =~= seq![
        ArgView::TimeOfDay(time_taken),
        ArgView::Text(error),
        ArgView::Int8(block_number.0 as i64),
    ]);
}

/// What is sent to add a leaf aggregation job.
#[verifier::spinoff_prover]
#[verifier::rlimit(40)]
pub proof fn law_text_of_adding_a_leaf_job(
    block_number: L1BatchNumber,
    number_of_basic_circuits: usize,
    basic_circuits_blob_url: Seq<char>,
    basic_circuits_inputs_blob_url: Seq<char>,
)
    ensures
        leaf_job_statement(
            block_number,
            number_of_basic_circuits,
            basic_circuits_blob_url,
            basic_circuits_inputs_blob_url,
        ).query.text() == "INSERT INTO leaf_aggregation_witness_jobs (l1_batch_number, basic_circuits, basic_circuits_inputs, basic_circuits_blob_url, basic_circuits_inputs_blob_url, number_of_basic_circuits, status, created_at, updated_at)"@
            + " VALUES ($1, $2, $3, $4, $5, $6, 'waiting_for_proofs', now(), now())"@,
        leaf_job_statement(
            block_number,
            number_of_basic_circuits,
            basic_circuits_blob_url,
            basic_circuits_inputs_blob_url,
        ).args == seq![
            ArgView::Int8(block_number.0 as i64),
            ArgView::Bytes(Seq::empty()),
            ArgView::Bytes(Seq::empty()),
            ArgView::Text(basic_circuits_blob_url),
            ArgView::Text(basic_circuits_inputs_blob_url),
            ArgView::Int8(number_of_basic_circuits as i64),
        ],
{
    let statement = leaf_job_statement(
        block_number,
        number_of_basic_circuits,
        basic_circuits_blob_url,
        basic_circuits_inputs_blob_url,
    );
    let values = statement.query->values;
    assert(columns_text(values) == "l1_batch_number, basic_circuits, basic_circuits_inputs, basic_circuits_blob_url, basic_circuits_inputs_blob_url, number_of_basic_circuits, status, created_at, updated_at"@) by {
        reveal_with_fuel(decimal, 3);
        let parts = seq![
            "l1_batch_number"@,
            "basic_circuits"@,
            "basic_circuits_inputs"@,
            "basic_circuits_blob_url"@,
            "basic_circuits_inputs_blob_url"@,
            "number_of_basic_circuits"@,
            "status"@,
            "created_at"@,
            "updated_at"@,
        ];
        assert(values.map_values(|assignment: Assignment| assignment.column.text()) =~= parts);
        lemma_joined_9(parts[0], parts[1], parts[2], parts[3], parts[4], parts[5], parts[6], parts[7], parts[8], ", "@);
        assert(parts =~= seq![parts[0], parts[1], parts[2], parts[3], parts[4], parts[5], parts[6], parts[7], parts[8]]);
        reveal_strlit("l1_batch_number");
        reveal_strlit("basic_circuits");
        reveal_strlit("basic_circuits_inputs");
        reveal_strlit("basic_circuits_blob_url");
        reveal_strlit("basic_circuits_inputs_blob_url");
        reveal_strlit("number_of_basic_circuits");
        reveal_strlit("status");
        reveal_strlit("created_at");
        reveal_strlit("updated_at");
        reveal_strlit(", ");
        reveal_strlit("l1_batch_number, basic_circuits, basic_circuits_inputs, basic_circuits_blob_url, basic_circuits_inputs_blob_url, number_of_basic_circuits, status, created_at, updated_at");
    }
    assert(values_text(values) == "$1, $2, $3, $4, $5, $6, 'waiting_for_proofs', now(), now()"@) by {
        reveal_with_fuel(decimal, 3);
        assert(values[0].value_text() =~= "$1"@) by {
            reveal_strlit("$");
            reveal_strlit("$1");
        }
        assert(values[1].value_text() =~= "$2"@) by {
            reveal_strlit("$");
            reveal_strlit("$2");
        }
        assert(values[2].value_text() =~= "$3"@) by {
            reveal_strlit("$");
            reveal_strlit("$3");
        }
        assert(values[3].value_text() =~= "$4"@) by {
            reveal_strlit("$");
            reveal_strlit("$4");
        }
        assert(values[4].value_text() =~= "$5"@) by {
            reveal_strlit("$");
            reveal_strlit("$5");
        }
        assert(values[5].value_text() =~= "$6"@) by {
            reveal_strlit("$");
            reveal_strlit("$6");
        }
        assert(values[6].value_text() =~= "'waiting_for_proofs'"@) by {
            reveal_strlit("'");
            reveal_strlit("waiting_for_proofs");
            reveal_strlit("'waiting_for_proofs'");
        }
        let parts = seq![
            "$1"@,
            "$2"@,
            "$3"@,
            "$4"@,
            "$5"@,
            "$6"@,
            "'waiting_for_proofs'"@,
            "now()"@,
            "now()"@,
        ];
        assert(values.map_values(|assignment: Assignment| assignment.value_text()) =~= parts);
        lemma_joined_9(parts[0], parts[1], parts[2], parts[3], parts[4], parts[5], parts[6], parts[7], parts[8], ", "@);
        assert(parts =~= seq![parts[0], parts[1], parts[2], parts[3], parts[4], parts[5], parts[6], parts[7], parts[8]]);
        reveal_strlit("$1");
        reveal_strlit("$2");
        reveal_strlit("$3");
        reveal_strlit("$4");
        reveal_strlit("$5");
        reveal_strlit("$6");
        reveal_strlit("'waiting_for_proofs'");
        reveal_strlit("now()");
        reveal_strlit(", ");
        reveal_strlit("$1, $2, $3, $4, $5, $6, 'waiting_for_proofs', now(), now()");
    }
    assert("INSERT INTO "@
        + "leaf_aggregation_witness_jobs"@
        + " ("@
        + "l1_batch_number, basic_circuits, basic_circuits_inputs, basic_circuits_blob_url, basic_circuits_inputs_blob_url, number_of_basic_circuits, status, created_at, updated_at"@
        + ")"@
        =~= "INSERT INTO leaf_aggregation_witness_jobs (l1_batch_number, basic_circuits, basic_circuits_inputs, basic_circuits_blob_url, basic_circuits_inputs_blob_url, number_of_basic_circuits, status, created_at, updated_at)"@) by {
        reveal_strlit("INSERT INTO ");
        reveal_strlit("leaf_aggregation_witness_jobs");
        reveal_strlit(" (");
        reveal_strlit("l1_batch_number, basic_circuits, basic_circuits_inputs, basic_circuits_blob_url, basic_circuits_inputs_blob_url, number_of_basic_circuits, status, created_at, updated_at");
        reveal_strlit(")");
        reveal_strlit("INSERT INTO leaf_aggregation_witness_jobs (l1_batch_number, basic_circuits, basic_circuits_inputs, basic_circuits_blob_url, basic_circuits_inputs_blob_url, number_of_basic_circuits, status, created_at, updated_at)");
    }
    assert(" VALUES ("@
        + "$1, $2, $3, $4, $5, $6, 'waiting_for_proofs', now(), now()"@
        + ")"@
        =~= " VALUES ($1, $2, $3, $4, $5, $6, 'waiting_for_proofs', now(), now())"@) by {
        reveal_strlit(" VALUES (");
        reveal_strlit("$1, $2, $3, $4, $5, $6, 'waiting_for_proofs', now(), now()");
        reveal_strlit(")");
        reveal_strlit(" VALUES ($1, $2, $3, $4, $5, $6, 'waiting_for_proofs', now(), now())");
    }
    assert(")"@
        + " VALUES ("@
        =~= ") VALUES ("@) by {
        reveal_strlit(")");
        reveal_strlit(" VALUES (");
        reveal_strlit(") VALUES (");
    }
    assert(statement.query.text() =~= "INSERT INTO leaf_aggregation_witness_jobs (l1_batch_number, basic_circuits, basic_circuits_inputs, basic_circuits_blob_url, basic_circuits_inputs_blob_url, number_of_basic_circuits, status, created_at, updated_at)"@
        + " VALUES ($1, $2, $3, $4, $5, $6, 'waiting_for_proofs', now(), now())"@);
    assert(statement.args =~= seq![
        ArgView::Int8(block_number.0 as i64),
        ArgView::Bytes(Seq::empty()),
        ArgView::Bytes(Seq::empty()),
        ArgView::Text(basic_circuits_blob_url),
        ArgView::Text(basic_circuits_inputs_blob_url),
        ArgView::Int8(number_of_basic_circuits as i64),
    ]);
}

/// What is sent to add a node aggregation job.
#[verifier::spinoff_prover]
#[verifier::rlimit(40)]
pub proof fn law_text_of_adding_a_node_job(block_number: L1BatchNumber)
    ensures
        node_job_statement(block_number).query.text() == "INSERT INTO node_aggregation_witness_jobs (l1_batch_number, status, created_at, updated_at)"@
            + " VALUES ($1, 'waiting_for_artifacts', now(), now())"@,
        node_job_statement(block_number).args == seq![ArgView::Int8(block_number.0 as i64)],
{
    let statement = node_job_statement(block_number);
    let values = statement.query->values;
    assert(columns_text(values) == "l1_batch_number, status, created_at, updated_at"@) by {
        reveal_with_fuel(decimal, 3);
        let parts = seq![
            "l1_batch_number"@,
            "status"@,
            "created_at"@,
            "updated_at"@,
        ];
        assert(values.map_values(|assignment: Assignment| assignment.column.text()) =~= parts);
        lemma_joined_4(parts[0], parts[1], parts[2], parts[3], ", "@);
        assert(parts =~= seq![parts[0], parts[1], parts[2], parts[3]]);
        reveal_strlit("l1_batch_number");
        reveal_strlit("status");
        reveal_strlit("created_at");
        reveal_strlit("updated_at");
        reveal_strlit(", ");
        reveal_strlit("l1_batch_number, status, created_at, updated_at");
    }
    assert(values_text(values) == "$1, 'waiting_for_artifacts', now(), now()"@) by {
        reveal_with_fuel(decimal, 3);
        assert(values[0].value_text() =~= "$1"@) by {
            reveal_strlit("$");
            reveal_strlit("$1");
        }
        assert(values[1].value_text() =~= "'waiting_for_artifacts'"@) by {
            reveal_strlit("'");
            reveal_strlit("waiting_for_artifacts");
            reveal_strlit("'waiting_for_artifacts'");
        }
        let parts = seq![
            "$1"@,
            "'waiting_for_artifacts'"@,
            "now()"@,
            "now()"@,
        ];
        assert(values.map_values(|assignment: Assignment| assignment.value_text()) =~= parts);
        lemma_joined_4(parts[0], parts[1], parts[2], parts[3], ", "@);
        assert(parts =~= seq![parts[0], parts[1], parts[2], parts[3]]);
        reveal_strlit("$1");
        reveal_strlit("'waiting_for_artifacts'");
        reveal_strlit("now()");
        reveal_strlit(", ");
        reveal_strlit("$1, 'waiting_for_artifacts', now(), now()");
    }
    assert("INSERT INTO "@
        + "node_aggregation_witness_jobs"@
        + " ("@
        + "l1_batch_number, status, created_at, updated_at"@
        + ")"@
        =~= "INSERT INTO node_aggregation_witness_jobs (l1_batch_number, status, created_at, updated_at)"@) by {
        reveal_strlit("INSERT INTO ");
        reveal_strlit("node_aggregation_witness_jobs");
        reveal_strlit(" (");
        reveal_strlit("l1_batch_number, status, created_at, updated_at");
        reveal_strlit(")");
        reveal_strlit("INSERT INTO node_aggregation_witness_jobs (l1_batch_number, status, created_at, updated_at)");
    }
    assert(" VALUES ("@
        + "$1, 'waiting_for_artifacts', now(), now()"@
        + ")"@
        =~= " VALUES ($1, 'waiting_for_artifacts', now(), now())"@) by {
        reveal_strlit(" VALUES (");
        reveal_strlit("$1, 'waiting_for_artifacts', now(), now()");
        reveal_strlit(")");
        reveal_strlit(" VALUES ($1, 'waiting_for_artifacts', now(), now())");
    }
    assert(")"@
        + " VALUES ("@
        =~= ") VALUES ("@) by {
        reveal_strlit(")");
        reveal_strlit(" VALUES (");
        reveal_strlit(") VALUES (");
    }
    assert(statement.query.text() =~= "INSERT INTO node_aggregation_witness_jobs (l1_batch_number, status, created_at, updated_at)"@
        + " VALUES ($1, 'waiting_for_artifacts', now(), now())"@);
    assert(statement.args =~= seq![ArgView::Int8(block_number.0 as i64)]);
}

/// What is sent to add a scheduler job.
#[verifier::spinoff_prover]
#[verifier::rlimit(40)]
pub proof fn law_text_of_adding_a_scheduler_job(
    block_number: L1BatchNumber,
    scheduler_witness_blob_url: Seq<char>,
)
    ensures
        scheduler_job_statement(block_number, scheduler_witness_blob_url).query.text() == "INSERT INTO scheduler_witness_jobs (l1_batch_number, scheduler_witness, scheduler_witness_blob_url, status, created_at, updated_at)"@
            + " VALUES ($1, $2, $3, 'waiting_for_artifacts', now(), now())"@,
        scheduler_job_statement(block_number, scheduler_witness_blob_url).args == seq![
            ArgView::Int8(block_number.0 as i64),
            ArgView::Bytes(Seq::empty()),
            ArgView::Text(scheduler_witness_blob_url),
        ],
{
    let statement = scheduler_job_statement(block_number, scheduler_witness_blob_url);
    let values = statement.query->values;
    assert(columns_text(values) == "l1_batch_number, scheduler_witness, scheduler_witness_blob_url, status, created_at, updated_at"@) by {
        reveal_with_fuel(decimal, 3);
        let parts = seq![
            "l1_batch_number"@,
            "scheduler_witness"@,
            "scheduler_witness_blob_url"@,
            "status"@,
            "created_at"@,
            "updated_at"@,
        ];
        assert(values.map_values(|assignment: Assignment| assignment.column.text()) =~= parts);
        lemma_joined_6(parts[0], parts[1], parts[2], parts[3], parts[4], parts[5], ", "@);
        assert(parts =~= seq![parts[0], parts[1], parts[2], parts[3], parts[4], parts[5]]);
        reveal_strlit("l1_batch_number");
        reveal_strlit("scheduler_witness");
        reveal_strlit("scheduler_witness_blob_url");
        reveal_strlit("status");
        reveal_strlit("created_at");
        reveal_strlit("updated_at");
        reveal_strlit(", ");
        reveal_strlit("l1_batch_number, scheduler_witness, scheduler_witness_blob_url, status, created_at, updated_at");
    }
    assert(values_text(values) == "$1, $2, $3, 'waiting_for_artifacts', now(), now()"@) by {
        reveal_with_fuel(decimal, 3);
        assert(values[0].value_text() =~= "$1"@) by {
            reveal_strlit("$");
            reveal_strlit("$1");
        }
        assert(values[1].value_text() =~= "$2"@) by {
            reveal_strlit("$");
            reveal_strlit("$2");
        }
        assert(values[2].value_text() =~= "$3"@) by {
            reveal_strlit("$");
            reveal_strlit("$3");
        }
        assert(values[3].value_text() =~= "'waiting_for_artifacts'"@) by {
            reveal_strlit("'");
            reveal_strlit("waiting_for_artifacts");
            reveal_strlit("'waiting_for_artifacts'");
        }
        let parts = seq![
            "$1"@,
            "$2"@,
            "$3"@,
            "'waiting_for_artifacts'"@,
            "now()"@,
            "now()"@,
        ];
        assert(values.map_values(|assignment: Assignment| assignment.value_text()) =~= parts);
        lemma_joined_6(parts[0], parts[1], parts[2], parts[3], parts[4], parts[5], ", "@);
        assert(parts =~= seq![parts[0], parts[1], parts[2], parts[3], parts[4], parts[5]]);
        reveal_strlit("$1");
        reveal_strlit("$2");
        reveal_strlit("$3");
        reveal_strlit("'waiting_for_artifacts'");
        reveal_strlit("now()");
        reveal_strlit(", ");
        reveal_strlit("$1, $2, $3, 'waiting_for_artifacts', now(), now()");
    }
    assert("INSERT INTO "@
        + "scheduler_witness_jobs"@
        + " ("@
        + "l1_batch_number, scheduler_witness, scheduler_witness_blob_url, status, created_at, updated_at"@
        + ")"@
        =~= "INSERT INTO scheduler_witness_jobs (l1_batch_number, scheduler_witness, scheduler_witness_blob_url, status, created_at, updated_at)"@) by {
        reveal_strlit("INSERT INTO ");
        reveal_strlit("scheduler_witness_jobs");
        reveal_strlit(" (");
        reveal_strlit("l1_batch_number, scheduler_witness, scheduler_witness_blob_url, status, created_at, updated_at");
        reveal_strlit(")");
        reveal_strlit("INSERT INTO scheduler_witness_jobs (l1_batch_number, scheduler_witness, scheduler_witness_blob_url, status, created_at, updated_at)");
    }
    assert(" VALUES ("@
        + "$1, $2, $3, 'waiting_for_artifacts', now(), now()"@
        + ")"@
        =~= " VALUES ($1, $2, $3, 'waiting_for_artifacts', now(), now())"@) by {
        reveal_strlit(" VALUES (");
        reveal_strlit("$1, $2, $3, 'waiting_for_artifacts', now(), now()");
        reveal_strlit(")");
        reveal_strlit(" VALUES ($1, $2, $3, 'waiting_for_artifacts', now(), now())");
    }
    assert(")"@
        + " VALUES ("@
        =~= ") VALUES ("@) by {
        reveal_strlit(")");
        reveal_strlit(" VALUES (");
        reveal_strlit(") VALUES (");
    }
    assert(statement.query.text() =~= "INSERT INTO scheduler_witness_jobs (l1_batch_number, scheduler_witness, scheduler_witness_blob_url, status, created_at, updated_at)"@
        + " VALUES ($1, $2, $3, 'waiting_for_artifacts', now(), now())"@);
    assert(statement.args =~= seq![
        ArgView::Int8(block_number.0 as i64),
        ArgView::Bytes(Seq::empty()),
        ArgView::Text(scheduler_witness_blob_url),
    ]);
}

/// What is sent to save the artifacts of the leaf aggregation.
#[verifier::spinoff_prover]
#[verifier::rlimit(40)]
pub proof fn law_text_of_saving_leaf_artifacts(
    block_number: L1BatchNumber,
    number_of_leaf_circuits: usize,
    leaf_layer_subqueues_blob_url: Seq<char>,
    aggregation_outputs_blob_url: Seq<char>,
)
    ensures
        leaf_artifacts_statement(
            block_number,
            number_of_leaf_circuits,
            leaf_layer_subqueues_blob_url,
            aggregation_outputs_blob_url,
        ).query.text() == "UPDATE node_aggregation_witness_jobs"@
            + " SET number_of_leaf_circuits = $1, leaf_layer_subqueues_blob_url = $3, aggregation_outputs_blob_url = $4, status = 'waiting_for_proofs', updated_at = now() WHERE l1_batch_number = $2 AND status != 'queued'"@,
        leaf_artifacts_statement(
            block_number,
            number_of_leaf_circuits,
            leaf_layer_subqueues_blob_url,
            aggregation_outputs_blob_url,
        ).args == seq![
            ArgView::Int8(number_of_leaf_circuits as i64),
            ArgView::Int8(block_number.0 as i64),
            ArgView::Text(leaf_layer_subqueues_blob_url),
            ArgView::Text(aggregation_outputs_blob_url),
        ],
{
    let statement = leaf_artifacts_statement(
        block_number,
        number_of_leaf_circuits,
        leaf_layer_subqueues_blob_url,
        aggregation_outputs_blob_url,
    );
    let set = statement.query->Update_set;
    let filter = statement.query->Update_filter;
    assert(assignments_text(set) == "number_of_leaf_circuits = $1, leaf_layer_subqueues_blob_url = $3, aggregation_outputs_blob_url = $4, status = 'waiting_for_proofs', updated_at = now()"@) by {
        reveal_with_fuel(decimal, 3);
        assert(set[0].text() =~= "number_of_leaf_circuits = $1"@) by {
            reveal_strlit("number_of_leaf_circuits");
            reveal_strlit(" = ");
            reveal_strlit("$");
            reveal_strlit("number_of_leaf_circuits = $1");
        }
        assert(set[1].text() =~= "leaf_layer_subqueues_blob_url = $3"@) by {
            reveal_strlit("leaf_layer_subqueues_blob_url");
            reveal_strlit(" = ");
            reveal_strlit("$");
            reveal_strlit("leaf_layer_subqueues_blob_url = $3");
        }
        assert(set[2].text() =~= "aggregation_outputs_blob_url = $4"@) by {
            reveal_strlit("aggregation_outputs_blob_url");
            reveal_strlit(" = ");
            reveal_strlit("$");
            reveal_strlit("aggregation_outputs_blob_url = $4");
        }
        assert(set[3].text() =~= "status = 'waiting_for_proofs'"@) by {
            reveal_strlit("status");
            reveal_strlit(" = ");
            reveal_strlit("'");
            reveal_strlit("waiting_for_proofs");
            reveal_strlit("status = 'waiting_for_proofs'");
        }
        assert(set[4].text() =~= "updated_at = now()"@) by {
            reveal_strlit("updated_at");
            reveal_strlit(" = ");
            reveal_strlit("now()");
            reveal_strlit("updated_at = now()");
        }
        let parts = seq![
            "number_of_leaf_circuits = $1"@,
            "leaf_layer_subqueues_blob_url = $3"@,
            "aggregation_outputs_blob_url = $4"@,
            "status = 'waiting_for_proofs'"@,
            "updated_at = now()"@,
        ];
        assert(set.map_values(|assignment: Assignment| assignment.text()) =~= parts);
        lemma_joined_5(parts[0], parts[1], parts[2], parts[3], parts[4], ", "@);
        assert(parts =~= seq![parts[0], parts[1], parts[2], parts[3], parts[4]]);
        reveal_strlit("number_of_leaf_circuits = $1");
        reveal_strlit("leaf_layer_subqueues_blob_url = $3");
        reveal_strlit("aggregation_outputs_blob_url = $4");
        reveal_strlit("status = 'waiting_for_proofs'");
        reveal_strlit("updated_at = now()");
        reveal_strlit(", ");
        reveal_strlit("number_of_leaf_circuits = $1, leaf_layer_subqueues_blob_url = $3, aggregation_outputs_blob_url = $4, status = 'waiting_for_proofs', updated_at = now()");
    }
    assert(where_text(filter) == " WHERE l1_batch_number = $2 AND status != 'queued'"@) by {
        reveal_with_fuel(decimal, 3);
        assert(filter[0].text() =~= "l1_batch_number = $2"@) by {
            reveal_strlit("l1_batch_number = ");
            reveal_strlit("$");
            reveal_strlit("l1_batch_number = $2");
        }
        assert(filter[1].text() =~= "status != 'queued'"@) by {
            reveal_strlit("status != '");
            reveal_strlit("queued");
            reveal_strlit("'");
            reveal_strlit("status != 'queued'");
        }
        let parts = seq![
            "l1_batch_number = $2"@,
            "status != 'queued'"@,
        ];
        assert(filter.map_values(|condition: Condition| condition.text()) =~= parts);
        lemma_joined_2(parts[0], parts[1], " AND "@);
        assert(parts =~= seq![parts[0], parts[1]]);
        reveal_strlit("l1_batch_number = $2");
        reveal_strlit("status != 'queued'");
        reveal_strlit(" AND ");
        reveal_strlit(" WHERE ");
        reveal_strlit(" WHERE l1_batch_number = $2 AND status != 'queued'");
    }
    assert("UPDATE "@
        + "node_aggregation_witness_jobs"@
        =~= "UPDATE node_aggregation_witness_jobs"@) by {
        reveal_strlit("UPDATE ");
        reveal_strlit("node_aggregation_witness_jobs");
        reveal_strlit("UPDATE node_aggregation_witness_jobs");
    }
    assert(" SET "@
        + "number_of_leaf_circuits = $1, leaf_layer_subqueues_blob_url = $3, aggregation_outputs_blob_url = $4, status = 'waiting_for_proofs', updated_at = now()"@
        + " WHERE l1_batch_number = $2 AND status != 'queued'"@
        =~= " SET number_of_leaf_circuits = $1, leaf_layer_subqueues_blob_url = $3, aggregation_outputs_blob_url = $4, status = 'waiting_for_proofs', updated_at = now() WHERE l1_batch_number = $2 AND status != 'queued'"@) by {
        reveal_strlit(" SET ");
        reveal_strlit("number_of_leaf_circuits = $1, leaf_layer_subqueues_blob_url = $3, aggregation_outputs_blob_url = $4, status = 'waiting_for_proofs', updated_at = now()");
        reveal_strlit(" WHERE l1_batch_number = $2 AND status != 'queued'");
        reveal_strlit(" SET number_of_leaf_circuits = $1, leaf_layer_subqueues_blob_url = $3, aggregation_outputs_blob_url = $4, status = 'waiting_for_proofs', updated_at = now() WHERE l1_batch_number = $2 AND status != 'queued'");
    }
    assert(statement.query.text() =~= "UPDATE node_aggregation_witness_jobs"@
        + " SET number_of_leaf_circuits = $1, leaf_layer_subqueues_blob_url = $3, aggregation_outputs_blob_url = $4, status = 'waiting_for_proofs', updated_at = now() WHERE l1_batch_number = $2 AND status != 'queued'"@);
    assert(statement.args =~= seq![
        ArgView::Int8(number_of_leaf_circuits as i64),
        ArgView::Int8(block_number.0 as i64),
        ArgView::Text(leaf_layer_subqueues_blob_url),
        ArgView::Text(aggregation_outputs_blob_url),
    ]);
}

/// What is sent to save the artifacts of the node aggregation.
#[verifier::spinoff_prover]
#[verifier::rlimit(40)]
pub proof fn law_text_of_saving_node_artifacts(
    block_number: L1BatchNumber,
    final_node_aggregations_blob_url: Seq<char>,
)
    ensures
        node_artifacts_statement(
            block_number,
            final_node_aggregations_blob_url,
        ).query.text() == "UPDATE scheduler_witness_jobs"@
            + " SET final_node_aggregations_blob_url = $2, status = 'waiting_for_proofs', updated_at = now() WHERE l1_batch_number = $1 AND status != 'queued'"@,
        node_artifacts_statement(
            block_number,
            final_node_aggregations_blob_url,
        ).args == seq![
            ArgView::Int8(block_number.0 as i64),
            ArgView::Text(final_node_aggregations_blob_url),
        ],
{
    let statement = node_artifacts_statement(
        block_number,
        final_node_aggregations_blob_url,
    );
    let set = statement.query->Update_set;
    let filter = statement.query->Update_filter;
    assert(assignments_text(set) == "final_node_aggregations_blob_url = $2, status = 'waiting_for_proofs', updated_at = now()"@) by {
        reveal_with_fuel(decimal, 3);
        assert(set[0].text() =~= "final_node_aggregations_blob_url = $2"@) by {
            reveal_strlit("final_node_aggregations_blob_url");
            reveal_strlit(" = ");
            reveal_strlit("$");
            reveal_strlit("final_node_aggregations_blob_url = $2");
        }
        assert(set[1].text() =~= "status = 'waiting_for_proofs'"@) by {
            reveal_strlit("status");
            reveal_strlit(" = ");
            reveal_strlit("'");
            reveal_strlit("waiting_for_proofs");
            reveal_strlit("status = 'waiting_for_proofs'");
        }
        assert(set[2].text() =~= "updated_at = now()"@) by {
            reveal_strlit("updated_at");
            reveal_strlit(" = ");
            reveal_strlit("now()");
            reveal_strlit("updated_at = now()");
        }
        let parts = seq![
            "final_node_aggregations_blob_url = $2"@,
            "status = 'waiting_for_proofs'"@,
            "updated_at = now()"@,
        ];
        assert(set.map_values(|assignment: Assignment| assignment.text()) =~= parts);
        lemma_joined_3(parts[0], parts[1], parts[2], ", "@);
        assert(parts =~= seq![parts[0], parts[1], parts[2]]);
        reveal_strlit("final_node_aggregations_blob_url = $2");
        reveal_strlit("status = 'waiting_for_proofs'");
        reveal_strlit("updated_at = now()");
        reveal_strlit(", ");
        reveal_strlit("final_node_aggregations_blob_url = $2, status = 'waiting_for_proofs', updated_at = now()");
    }
    assert(where_text(filter) == " WHERE l1_batch_number = $1 AND status != 'queued'"@) by {
        reveal_with_fuel(decimal, 3);
        assert(filter[0].text() =~= "l1_batch_number = $1"@) by {
            reveal_strlit("l1_batch_number = ");
            reveal_strlit("$");
            reveal_strlit("l1_batch_number = $1");
        }
        assert(filter[1].text() =~= "status != 'queued'"@) by {
            reveal_strlit("status != '");
            reveal_strlit("queued");
            reveal_strlit("'");
            reveal_strlit("status != 'queued'");
        }
        let parts = seq![
            "l1_batch_number = $1"@,
            "status != 'queued'"@,
        ];
        assert(filter.map_values(|condition: Condition| condition.text()) =~= parts);
        lemma_joined_2(parts[0], parts[1], " AND "@);
        assert(parts =~= seq![parts[0], parts[1]]);
        reveal_strlit("l1_batch_number = $1");
        reveal_strlit("status != 'queued'");
        reveal_strlit(" AND ");
        reveal_strlit(" WHERE ");
        reveal_strlit(" WHERE l1_batch_number = $1 AND status != 'queued'");
    }
    assert("UPDATE "@
        + "scheduler_witness_jobs"@
        =~= "UPDATE scheduler_witness_jobs"@) by {
        reveal_strlit("UPDATE ");
        reveal_strlit("scheduler_witness_jobs");
        reveal_strlit("UPDATE scheduler_witness_jobs");
    }
    assert(" SET "@
        + "final_node_aggregations_blob_url = $2, status = 'waiting_for_proofs', updated_at = now()"@
        + " WHERE l1_batch_number = $1 AND status != 'queued'"@
        =~= " SET final_node_aggregations_blob_url = $2, status = 'waiting_for_proofs', updated_at = now() WHERE l1_batch_number = $1 AND status != 'queued'"@) by {
        reveal_strlit(" SET ");
        reveal_strlit("final_node_aggregations_blob_url = $2, status = 'waiting_for_proofs', updated_at = now()");
        reveal_strlit(" WHERE l1_batch_number = $1 AND status != 'queued'");
        reveal_strlit(" SET final_node_aggregations_blob_url = $2, status = 'waiting_for_proofs', updated_at = now() WHERE l1_batch_number = $1 AND status != 'queued'");
    }
    assert(statement.query.text() =~= "UPDATE scheduler_witness_jobs"@
        + " SET final_node_aggregations_blob_url = $2, status = 'waiting_for_proofs', updated_at = now() WHERE l1_batch_number = $1 AND status != 'queued'"@);
    assert(statement.args =~= seq![
        ArgView::Int8(block_number.0 as i64),
        ArgView::Text(final_node_aggregations_blob_url),
    ]);
}

/// What is sent to save the final aggregation result.
#[verifier::spinoff_prover]
#[verifier::rlimit(40)]
pub proof fn law_text_of_saving_the_final_result(
    block_number: L1BatchNumber,
    aggregation_result_coords: [[u8; 32]; 4],
)
    ensures
        final_result_statement(block_number, aggregation_result_coords).query.text() == "UPDATE scheduler_witness_jobs"@
            + " SET aggregation_result_coords = $1, updated_at = now() WHERE l1_batch_number = $2"@,
        final_result_statement(block_number, aggregation_result_coords).args == seq![
            ArgView::Bytes(aggregation_result_coords@[0]@ + aggregation_result_coords@[1]@ + aggregation_result_coords@[2]@ + aggregation_result_coords@[3]@),
            ArgView::Int8(block_number.0 as i64),
        ],
{
    let statement = final_result_statement(block_number, aggregation_result_coords);
    let set = statement.query->Update_set;
    let filter = statement.query->Update_filter;
    assert(assignments_text(set) == "aggregation_result_coords = $1, updated_at = now()"@) by {
        reveal_with_fuel(decimal, 3);
        assert(set[0].text() =~= "aggregation_result_coords = $1"@) by {
            reveal_strlit("aggregation_result_coords");
            reveal_strlit(" = ");
            reveal_strlit("$");
            reveal_strlit("aggregation_result_coords = $1");
        }
        assert(set[1].text() =~= "updated_at = now()"@) by {
            reveal_strlit("updated_at");
            reveal_strlit(" = ");
            reveal_strlit("now()");
            reveal_strlit("updated_at = now()");
        }
        let parts = seq![
            "aggregation_result_coords = $1"@,
            "updated_at = now()"@,
        ];
        assert(set.map_values(|assignment: Assignment| assignment.text()) =~= parts);
        lemma_joined_2(parts[0], parts[1], ", "@);
        assert(parts =~= seq![parts[0], parts[1]]);
        reveal_strlit("aggregation_result_coords = $1");
        reveal_strlit("updated_at = now()");
        reveal_strlit(", ");
        reveal_strlit("aggregation_result_coords = $1, updated_at = now()");
    }
    assert(where_text(filter) == " WHERE l1_batch_number = $2"@) by {
        reveal_with_fuel(decimal, 3);
        assert(filter[0].text() =~= "l1_batch_number = $2"@) by {
            reveal_strlit("l1_batch_number = ");
            reveal_strlit("$");
            reveal_strlit("l1_batch_number = $2");
        }
        let parts = seq![
            "l1_batch_number = $2"@,
        ];
        assert(filter.map_values(|condition: Condition| condition.text()) =~= parts);
        law_separated_list(seq![], parts[0], " AND "@);
        reveal_strlit("l1_batch_number = $2");
        reveal_strlit(" WHERE ");
        reveal_strlit(" WHERE l1_batch_number = $2");
    }
    assert("UPDATE "@
        + "scheduler_witness_jobs"@
        =~= "UPDATE scheduler_witness_jobs"@) by {
        reveal_strlit("UPDATE ");
        reveal_strlit("scheduler_witness_jobs");
        reveal_strlit("UPDATE scheduler_witness_jobs");
    }
    assert(" SET "@
        + "aggregation_result_coords = $1, updated_at = now()"@
        + " WHERE l1_batch_number = $2"@
        =~= " SET aggregation_result_coords = $1, updated_at = now() WHERE l1_batch_number = $2"@) by {
        reveal_strlit(" SET ");
        reveal_strlit("aggregation_result_coords = $1, updated_at = now()");
        reveal_strlit(" WHERE l1_batch_number = $2");
        reveal_strlit(" SET aggregation_result_coords = $1, updated_at = now() WHERE l1_batch_number = $2");
    }
    assert(statement.query.text() =~= "UPDATE scheduler_witness_jobs"@
        + " SET aggregation_result_coords = $1, updated_at = now() WHERE l1_batch_number = $2"@);
    assert(statement.args =~= seq![
        ArgView::Bytes(aggregation_result_coords@[0]@ + aggregation_result_coords@[1]@ + aggregation_result_coords@[2]@ + aggregation_result_coords@[3]@),
        ArgView::Int8(block_number.0 as i64),
    ]);
}

/// What is sent to count the jobs of a round by status.
#[verifier::spinoff_prover]
#[verifier::rlimit(40)]
pub proof fn law_text_of_the_statistics(round: AggregationRound)
    ensures
        stats_statement(round).query.text() == "SELECT COUNT(*) as \"count\", status as \"status\" FROM "@
            + jobs_table(round)
            + " GROUP BY status"@,
        stats_statement(round).args == Seq::<ArgView>::empty(),
{
    let statement = stats_statement(round);
    let outputs = statement.query->outputs;
    let filter = statement.query->Select_filter;
    assert(outputs_text(outputs) == "COUNT(*) as \"count\", status as \"status\""@) by {
        reveal_with_fuel(decimal, 3);
        let parts = seq![
            "COUNT(*) as \"count\""@,
            "status as \"status\""@,
        ];
        assert(outputs.map_values(|output: Output| output.text()) =~= parts);
        lemma_joined_2(parts[0], parts[1], ", "@);
        assert(parts =~= seq![parts[0], parts[1]]);
        reveal_strlit("COUNT(*) as \"count\"");
        reveal_strlit("status as \"status\"");
        reveal_strlit(", ");
        reveal_strlit("COUNT(*) as \"count\", status as \"status\"");
    }
    assert(" GROUP BY "@
        + "status"@
        =~= " GROUP BY status"@) by {
        reveal_strlit(" GROUP BY ");
        reveal_strlit("status");
        reveal_strlit(" GROUP BY status");
    }
    assert("SELECT "@
        + "COUNT(*) as \"count\", status as \"status\""@
        + " FROM "@
        =~= "SELECT COUNT(*) as \"count\", status as \"status\" FROM "@) by {
        reveal_strlit("SELECT ");
        reveal_strlit("COUNT(*) as \"count\", status as \"status\"");
        reveal_strlit(" FROM ");
        reveal_strlit("SELECT COUNT(*) as \"count\", status as \"status\" FROM ");
    }
    assert(statement.query.text() =~= "SELECT COUNT(*) as \"count\", status as \"status\" FROM "@
        + jobs_table(round)
        + " GROUP BY status"@);
    assert(statement.args =~= Seq::<ArgView>::empty());
}

/// What is sent to find the number of basic circuits of a batch.
#[verifier::spinoff_prover]
#[verifier::rlimit(40)]
pub proof fn law_text_of_the_basic_circuit_count(block_number: L1BatchNumber)
    ensures
        circuit_count_statement(
            block_number,
            AggregationRound::LeafAggregation,
            circuit_count_column(AggregationRound::LeafAggregation)->Some_0,
        ).query.text() == "SELECT number_of_basic_circuits as \"count\" FROM leaf_aggregation_witness_jobs"@
            + " WHERE l1_batch_number = $1"@,
        circuit_count_statement(
            block_number,
            AggregationRound::LeafAggregation,
            circuit_count_column(AggregationRound::LeafAggregation)->Some_0,
        ).args == seq![ArgView::Int8(block_number.0 as i64)],
{
    let statement = circuit_count_statement(
        block_number,
        AggregationRound::LeafAggregation,
        circuit_count_column(AggregationRound::LeafAggregation)->Some_0,
    );
    let outputs = statement.query->outputs;
    let filter = statement.query->Select_filter;
    assert(outputs_text(outputs) == "number_of_basic_circuits as \"count\""@) by {
        reveal_with_fuel(decimal, 3);
        assert(outputs[0].text() =~= "number_of_basic_circuits as \"count\""@) by {
            reveal_strlit("number_of_basic_circuits");
            reveal_strlit(" as \"count\"");
            reveal_strlit("number_of_basic_circuits as \"count\"");
        }
        let parts = seq![
            "number_of_basic_circuits as \"count\""@,
        ];
        assert(outputs.map_values(|output: Output| output.text()) =~= parts);
        law_separated_list(seq![], parts[0], ", "@);
    }
    assert(where_text(filter) == " WHERE l1_batch_number = $1"@) by {
        reveal_with_fuel(decimal, 3);
        assert(filter[0].text() =~= "l1_batch_number = $1"@) by {
            reveal_strlit("l1_batch_number = ");
            reveal_strlit("$");
            reveal_strlit("l1_batch_number = $1");
        }
        let parts = seq![
            "l1_batch_number = $1"@,
        ];
        assert(filter.map_values(|condition: Condition| condition.text()) =~= parts);
        law_separated_list(seq![], parts[0], " AND "@);
        reveal_strlit("l1_batch_number = $1");
        reveal_strlit(" WHERE ");
        reveal_strlit(" WHERE l1_batch_number = $1");
    }
    assert("SELECT "@
        + "number_of_basic_circuits as \"count\""@
        + " FROM "@
        + "leaf_aggregation_witness_jobs"@
        =~= "SELECT number_of_basic_circuits as \"count\" FROM leaf_aggregation_witness_jobs"@) by {
        reveal_strlit("SELECT ");
        reveal_strlit("number_of_basic_circuits as \"count\"");
        reveal_strlit(" FROM ");
        reveal_strlit("leaf_aggregation_witness_jobs");
        reveal_strlit("SELECT number_of_basic_circuits as \"count\" FROM leaf_aggregation_witness_jobs");
    }
    assert(statement.query.text() =~= "SELECT number_of_basic_circuits as \"count\" FROM leaf_aggregation_witness_jobs"@
        + " WHERE l1_batch_number = $1"@);
    assert(statement.args =~= seq![ArgView::Int8(block_number.0 as i64)]);
}

/// What is sent to find the number of leaf circuits of a batch.
#[verifier::spinoff_prover]
#[verifier::rlimit(40)]
pub proof fn law_text_of_the_leaf_circuit_count(block_number: L1BatchNumber)
    ensures
        circuit_count_statement(
            block_number,
            AggregationRound::NodeAggregation,
            circuit_count_column(AggregationRound::NodeAggregation)->Some_0,
        ).query.text() == "SELECT number_of_leaf_circuits as \"count\" FROM node_aggregation_witness_jobs"@
            + " WHERE l1_batch_number = $1"@,
        circuit_count_statement(
            block_number,
            AggregationRound::NodeAggregation,
            circuit_count_column(AggregationRound::NodeAggregation)->Some_0,
        ).args == seq![ArgView::Int8(block_number.0 as i64)],
{
    let statement = circuit_count_statement(
        block_number,
        AggregationRound::NodeAggregation,
        circuit_count_column(AggregationRound::NodeAggregation)->Some_0,
    );
    let outputs = statement.query->outputs;
    let filter = statement.query->Select_filter;
    assert(outputs_text(outputs) == "number_of_leaf_circuits as \"count\""@) by {
        reveal_with_fuel(decimal, 3);
        assert(outputs[0].text() =~= "number_of_leaf_circuits as \"count\""@) by {
            reveal_strlit("number_of_leaf_circuits");
            reveal_strlit(" as \"count\"");
            reveal_strlit("number_of_leaf_circuits as \"count\"");
        }
        let parts = seq![
            "number_of_leaf_circuits as \"count\""@,
        ];
        assert(outputs.map_values(|output: Output| output.text()) =~= parts);
        law_separated_list(seq![], parts[0], ", "@);
    }
    assert(where_text(filter) == " WHERE l1_batch_number = $1"@) by {
        reveal_with_fuel(decimal, 3);
        assert(filter[0].text() =~= "l1_batch_number = $1"@) by {
            reveal_strlit("l1_batch_number = ");
            reveal_strlit("$");
            reveal_strlit("l1_batch_number = $1");
        }
        let parts = seq![
            "l1_batch_number = $1"@,
        ];
        assert(filter.map_values(|condition: Condition| condition.text()) =~= parts);
        law_separated_list(seq![], parts[0], " AND "@);
        reveal_strlit("l1_batch_number = $1");
        reveal_strlit(" WHERE ");
        reveal_strlit(" WHERE l1_batch_number = $1");
    }
    assert("SELECT "@
        + "number_of_leaf_circuits as \"count\""@
        + " FROM "@
        + "node_aggregation_witness_jobs"@
        =~= "SELECT number_of_leaf_circuits as \"count\" FROM node_aggregation_witness_jobs"@) by {
        reveal_strlit("SELECT ");
        reveal_strlit("number_of_leaf_circuits as \"count\"");
        reveal_strlit(" FROM ");
        reveal_strlit("node_aggregation_witness_jobs");
        reveal_strlit("SELECT number_of_leaf_circuits as \"count\" FROM node_aggregation_witness_jobs");
    }
    assert(statement.query.text() =~= "SELECT number_of_leaf_circuits as \"count\" FROM node_aggregation_witness_jobs"@
        + " WHERE l1_batch_number = $1"@);
    assert(statement.args =~= seq![ArgView::Int8(block_number.0 as i64)]);
}

/// What is sent to save the witness inputs of a batch.
#[verifier::spinoff_prover]
#[verifier::rlimit(40)]
pub proof fn law_text_of_saving_inputs(
    block_number: L1BatchNumber,
    merkle_tree_paths_blob_url: Seq<char>,
)
    ensures
        inputs_statement(block_number, merkle_tree_paths_blob_url).query.text() == "INSERT INTO witness_inputs (l1_batch_number, merkle_tree_paths, merkel_tree_paths_blob_url, status, created_at, updated_at)"@
            + " VALUES ($1, $2, $3, 'queued', now(), now()) ON CONFLICT (l1_batch_number) DO NOTHING"@,
        inputs_statement(block_number, merkle_tree_paths_blob_url).args == seq![
            ArgView::Int8(block_number.0 as i64),
            ArgView::Bytes(Seq::empty()),
            ArgView::Text(merkle_tree_paths_blob_url),
        ],
{
    let statement = inputs_statement(block_number, merkle_tree_paths_blob_url);
    let values = statement.query->values;
    assert(columns_text(values) == "l1_batch_number, merkle_tree_paths, merkel_tree_paths_blob_url, status, created_at, updated_at"@) by {
        reveal_with_fuel(decimal, 3);
        let parts = seq![
            "l1_batch_number"@,
            "merkle_tree_paths"@,
            "merkel_tree_paths_blob_url"@,
            "status"@,
            "created_at"@,
            "updated_at"@,
        ];
        assert(values.map_values(|assignment: Assignment| assignment.column.text()) =~= parts);
        lemma_joined_6(parts[0], parts[1], parts[2], parts[3], parts[4], parts[5], ", "@);
        assert(parts =~= seq![parts[0], parts[1], parts[2], parts[3], parts[4], parts[5]]);
        reveal_strlit("l1_batch_number");
        reveal_strlit("merkle_tree_paths");
        reveal_strlit("merkel_tree_paths_blob_url");
        reveal_strlit("status");
        reveal_strlit("created_at");
        reveal_strlit("updated_at");
        reveal_strlit(", ");
        reveal_strlit("l1_batch_number, merkle_tree_paths, merkel_tree_paths_blob_url, status, created_at, updated_at");
    }
    assert(values_text(values) == "$1, $2, $3, 'queued', now(), now()"@) by {
        reveal_with_fuel(decimal, 3);
        assert(values[0].value_text() =~= "$1"@) by {
            reveal_strlit("$");
            reveal_strlit("$1");
        }
        assert(values[1].value_text() =~= "$2"@) by {
            reveal_strlit("$");
            reveal_strlit("$2");
        }
        assert(values[2].value_text() =~= "$3"@) by {
            reveal_strlit("$");
            reveal_strlit("$3");
        }
        assert(values[3].value_text() =~= "'queued'"@) by {
            reveal_strlit("'");
            reveal_strlit("queued");
            reveal_strlit("'queued'");
        }
        let parts = seq![
            "$1"@,
            "$2"@,
            "$3"@,
            "'queued'"@,
            "now()"@,
            "now()"@,
        ];
        assert(values.map_values(|assignment: Assignment| assignment.value_text()) =~= parts);
        lemma_joined_6(parts[0], parts[1], parts[2], parts[3], parts[4], parts[5], ", "@);
        assert(parts =~= seq![parts[0], parts[1], parts[2], parts[3], parts[4], parts[5]]);
        reveal_strlit("$1");
        reveal_strlit("$2");
        reveal_strlit("$3");
        reveal_strlit("'queued'");
        reveal_strlit("now()");
        reveal_strlit(", ");
        reveal_strlit("$1, $2, $3, 'queued', now(), now()");
    }
    assert("INSERT INTO "@
        + "witness_inputs"@
        + " ("@
        + "l1_batch_number, merkle_tree_paths, merkel_tree_paths_blob_url, status, created_at, updated_at"@
        + ")"@
        =~= "INSERT INTO witness_inputs (l1_batch_number, merkle_tree_paths, merkel_tree_paths_blob_url, status, created_at, updated_at)"@) by {
        reveal_strlit("INSERT INTO ");
        reveal_strlit("witness_inputs");
        reveal_strlit(" (");
        reveal_strlit("l1_batch_number, merkle_tree_paths, merkel_tree_paths_blob_url, status, created_at, updated_at");
        reveal_strlit(")");
        reveal_strlit("INSERT INTO witness_inputs (l1_batch_number, merkle_tree_paths, merkel_tree_paths_blob_url, status, created_at, updated_at)");
    }
    assert(" VALUES ("@
        + "$1, $2, $3, 'queued', now(), now()"@
        + ")"@
        + " ON CONFLICT (l1_batch_number) DO NOTHING"@
        =~= " VALUES ($1, $2, $3, 'queued', now(), now()) ON CONFLICT (l1_batch_number) DO NOTHING"@) by {
        reveal_strlit(" VALUES (");
        reveal_strlit("$1, $2, $3, 'queued', now(), now()");
        reveal_strlit(")");
        reveal_strlit(" ON CONFLICT (l1_batch_number) DO NOTHING");
        reveal_strlit(" VALUES ($1, $2, $3, 'queued', now(), now()) ON CONFLICT (l1_batch_number) DO NOTHING");
    }
    assert(")"@
        + " VALUES ("@
        =~= ") VALUES ("@) by {
        reveal_strlit(")");
        reveal_strlit(" VALUES (");
        reveal_strlit(") VALUES (");
    }
    assert(statement.query.text() =~= "INSERT INTO witness_inputs (l1_batch_number, merkle_tree_paths, merkel_tree_paths_blob_url, status, created_at, updated_at)"@
        + " VALUES ($1, $2, $3, 'queued', now(), now()) ON CONFLICT (l1_batch_number) DO NOTHING"@);
    assert(statement.args =~= seq![
        ArgView::Int8(block_number.0 as i64),
        ArgView::Bytes(Seq::empty()),
        ArgView::Text(merkle_tree_paths_blob_url),
    ]);
}

/// What is sent to find the leaf aggregation jobs whose blobs may be cleaned.
#[verifier::spinoff_prover]
#[verifier::rlimit(40)]
pub proof fn law_text_of_finding_leaf_blobs(limit: u8)
    ensures
        cleanable_leaf_statement(limit).query.text() == "SELECT l1_batch_number, basic_circuits_blob_url, basic_circuits_inputs_blob_url FROM leaf_aggregation_witness_jobs"@
            + " WHERE status = 'successful' AND is_blob_cleaned = FALSE AND basic_circuits_blob_url IS NOT NULL AND basic_circuits_inputs_blob_url IS NOT NULL AND updated_at < now() - INTERVAL '30 days'"@
            + " LIMIT $1"@,
        cleanable_leaf_statement(limit).args == seq![ArgView::Int4(limit as i32)],
{
    let statement = cleanable_leaf_statement(limit);
    let outputs = statement.query->outputs;
    let filter = statement.query->Select_filter;
    assert(outputs_text(outputs) == "l1_batch_number, basic_circuits_blob_url, basic_circuits_inputs_blob_url"@) by {
        reveal_with_fuel(decimal, 3);
        let parts = seq![
            "l1_batch_number"@,
            "basic_circuits_blob_url"@,
            "basic_circuits_inputs_blob_url"@,
        ];
        assert(outputs.map_values(|output: Output| output.text()) =~= parts);
        lemma_joined_3(parts[0], parts[1], parts[2], ", "@);
        assert(parts =~= seq![parts[0], parts[1], parts[2]]);
        reveal_strlit("l1_batch_number");
        reveal_strlit("basic_circuits_blob_url");
        reveal_strlit("basic_circuits_inputs_blob_url");
        reveal_strlit(", ");
        reveal_strlit("l1_batch_number, basic_circuits_blob_url, basic_circuits_inputs_blob_url");
    }
    assert(where_text(filter) == " WHERE status = 'successful' AND is_blob_cleaned = FALSE AND basic_circuits_blob_url IS NOT NULL AND basic_circuits_inputs_blob_url IS NOT NULL AND updated_at < now() - INTERVAL '30 days'"@) by {
        reveal_with_fuel(decimal, 3);
        assert(filter[0].text() =~= "status = 'successful'"@) by {
            reveal_strlit("status = '");
            reveal_strlit("successful");
            reveal_strlit("'");
            reveal_strlit("status = 'successful'");
        }
        assert(filter[2].text() =~= "basic_circuits_blob_url IS NOT NULL"@) by {
            reveal_strlit("basic_circuits_blob_url");
            reveal_strlit(" IS NOT NULL");
            reveal_strlit("basic_circuits_blob_url IS NOT NULL");
        }
        assert(filter[3].text() =~= "basic_circuits_inputs_blob_url IS NOT NULL"@) by {
            reveal_strlit("basic_circuits_inputs_blob_url");
            reveal_strlit(" IS NOT NULL");
            reveal_strlit("basic_circuits_inputs_blob_url IS NOT NULL");
        }
        assert(filter[4].text() =~= "updated_at < now() - INTERVAL '30 days'"@) by {
            reveal_strlit("updated_at < now() - INTERVAL '");
            reveal_strlit(" days'");
            reveal_strlit("updated_at < now() - INTERVAL '30 days'");
        }
        let parts = seq![
            "status = 'successful'"@,
            "is_blob_cleaned = FALSE"@,
            "basic_circuits_blob_url IS NOT NULL"@,
            "basic_circuits_inputs_blob_url IS NOT NULL"@,
            "updated_at < now() - INTERVAL '30 days'"@,
        ];
        assert(filter.map_values(|condition: Condition| condition.text()) =~= parts);
        lemma_joined_5(parts[0], parts[1], parts[2], parts[3], parts[4], " AND "@);
        assert(parts =~= seq![parts[0], parts[1], parts[2], parts[3], parts[4]]);
        reveal_strlit("status = 'successful'");
        reveal_strlit("is_blob_cleaned = FALSE");
        reveal_strlit("basic_circuits_blob_url IS NOT NULL");
        reveal_strlit("basic_circuits_inputs_blob_url IS NOT NULL");
        reveal_strlit("updated_at < now() - INTERVAL '30 days'");
        reveal_strlit(" AND ");
        reveal_strlit(" WHERE ");
        reveal_strlit(" WHERE status = 'successful' AND is_blob_cleaned = FALSE AND basic_circuits_blob_url IS NOT NULL AND basic_circuits_inputs_blob_url IS NOT NULL AND updated_at < now() - INTERVAL '30 days'");
    }
    assert(" LIMIT "@ + placeholder(1) =~= " LIMIT $1"@) by {
        reveal_with_fuel(decimal, 3);
        reveal_strlit(" LIMIT ");
        reveal_strlit("$");
        reveal_strlit(" LIMIT $1");
    }
    assert("SELECT "@
        + "l1_batch_number, basic_circuits_blob_url, basic_circuits_inputs_blob_url"@
        + " FROM "@
        + "leaf_aggregation_witness_jobs"@
        =~= "SELECT l1_batch_number, basic_circuits_blob_url, basic_circuits_inputs_blob_url FROM leaf_aggregation_witness_jobs"@) by {
        reveal_strlit("SELECT ");
        reveal_strlit("l1_batch_number, basic_circuits_blob_url, basic_circuits_inputs_blob_url");
        reveal_strlit(" FROM ");
        reveal_strlit("leaf_aggregation_witness_jobs");
        reveal_strlit("SELECT l1_batch_number, basic_circuits_blob_url, basic_circuits_inputs_blob_url FROM leaf_aggregation_witness_jobs");
    }
    assert(statement.query.text() =~= "SELECT l1_batch_number, basic_circuits_blob_url, basic_circuits_inputs_blob_url FROM leaf_aggregation_witness_jobs"@
        + " WHERE status = 'successful' AND is_blob_cleaned = FALSE AND basic_circuits_blob_url IS NOT NULL AND basic_circuits_inputs_blob_url IS NOT NULL AND updated_at < now() - INTERVAL '30 days'"@
        + " LIMIT $1"@);
    assert(statement.args =~= seq![ArgView::Int4(limit as i32)]);
}

/// What is sent to find the node aggregation jobs whose blobs may be cleaned.
#[verifier::spinoff_prover]
#[verifier::rlimit(40)]
pub proof fn law_text_of_finding_node_blobs(limit: u8)
    ensures
        cleanable_node_statement(limit).query.text() == "SELECT l1_batch_number, leaf_layer_subqueues_blob_url, aggregation_outputs_blob_url FROM node_aggregation_witness_jobs"@
            + " WHERE status = 'successful' AND is_blob_cleaned = FALSE AND leaf_layer_subqueues_blob_url IS NOT NULL AND aggregation_outputs_blob_url IS NOT NULL AND updated_at < now() - INTERVAL '30 days'"@
            + " LIMIT $1"@,
        cleanable_node_statement(limit).args == seq![ArgView::Int4(limit as i32)],
{
    let statement = cleanable_node_statement(limit);
    let outputs = statement.query->outputs;
    let filter = statement.query->Select_filter;
    assert(outputs_text(outputs) == "l1_batch_number, leaf_layer_subqueues_blob_url, aggregation_outputs_blob_url"@) by {
        reveal_with_fuel(decimal, 3);
        let parts = seq![
            "l1_batch_number"@,
            "leaf_layer_subqueues_blob_url"@,
            "aggregation_outputs_blob_url"@,
        ];
        assert(outputs.map_values(|output: Output| output.text()) =~= parts);
        lemma_joined_3(parts[0], parts[1], parts[2], ", "@);
        assert(parts =~= seq![parts[0], parts[1], parts[2]]);
        reveal_strlit("l1_batch_number");
        reveal_strlit("leaf_layer_subqueues_blob_url");
        reveal_strlit("aggregation_outputs_blob_url");
        reveal_strlit(", ");
        reveal_strlit("l1_batch_number, leaf_layer_subqueues_blob_url, aggregation_outputs_blob_url");
    }
    assert(where_text(filter) == " WHERE status = 'successful' AND is_blob_cleaned = FALSE AND leaf_layer_subqueues_blob_url IS NOT NULL AND aggregation_outputs_blob_url IS NOT NULL AND updated_at < now() - INTERVAL '30 days'"@) by {
        reveal_with_fuel(decimal, 3);
        assert(filter[0].text() =~= "status = 'successful'"@) by {
            reveal_strlit("status = '");
            reveal_strlit("successful");
            reveal_strlit("'");
            reveal_strlit("status = 'successful'");
        }
        assert(filter[2].text() =~= "leaf_layer_subqueues_blob_url IS NOT NULL"@) by {
            reveal_strlit("leaf_layer_subqueues_blob_url");
            reveal_strlit(" IS NOT NULL");
            reveal_strlit("leaf_layer_subqueues_blob_url IS NOT NULL");
        }
        assert(filter[3].text() =~= "aggregation_outputs_blob_url IS NOT NULL"@) by {
            reveal_strlit("aggregation_outputs_blob_url");
            reveal_strlit(" IS NOT NULL");
            reveal_strlit("aggregation_outputs_blob_url IS NOT NULL");
        }
        assert(filter[4].text() =~= "updated_at < now() - INTERVAL '30 days'"@) by {
            reveal_strlit("updated_at < now() - INTERVAL '");
            reveal_strlit(" days'");
            reveal_strlit("updated_at < now() - INTERVAL '30 days'");
        }
        let parts = seq![
            "status = 'successful'"@,
            "is_blob_cleaned = FALSE"@,
            "leaf_layer_subqueues_blob_url IS NOT NULL"@,
            "aggregation_outputs_blob_url IS NOT NULL"@,
            "updated_at < now() - INTERVAL '30 days'"@,
        ];
        assert(filter.map_values(|condition: Condition| condition.text()) =~= parts);
        lemma_joined_5(parts[0], parts[1], parts[2], parts[3], parts[4], " AND "@);
        assert(parts =~= seq![parts[0], parts[1], parts[2], parts[3], parts[4]]);
        reveal_strlit("status = 'successful'");
        reveal_strlit("is_blob_cleaned = FALSE");
        reveal_strlit("leaf_layer_subqueues_blob_url IS NOT NULL");
        reveal_strlit("aggregation_outputs_blob_url IS NOT NULL");
        reveal_strlit("updated_at < now() - INTERVAL '30 days'");
        reveal_strlit(" AND ");
        reveal_strlit(" WHERE ");
        reveal_strlit(" WHERE status = 'successful' AND is_blob_cleaned = FALSE AND leaf_layer_subqueues_blob_url IS NOT NULL AND aggregation_outputs_blob_url IS NOT NULL AND updated_at < now() - INTERVAL '30 days'");
    }
    assert(" LIMIT "@ + placeholder(1) =~= " LIMIT $1"@) by {
        reveal_with_fuel(decimal, 3);
        reveal_strlit(" LIMIT ");
        reveal_strlit("$");
        reveal_strlit(" LIMIT $1");
    }
    assert("SELECT "@
        + "l1_batch_number, leaf_layer_subqueues_blob_url, aggregation_outputs_blob_url"@
        + " FROM "@
        + "node_aggregation_witness_jobs"@
        =~= "SELECT l1_batch_number, leaf_layer_subqueues_blob_url, aggregation_outputs_blob_url FROM node_aggregation_witness_jobs"@) by {
        reveal_strlit("SELECT ");
        reveal_strlit("l1_batch_number, leaf_layer_subqueues_blob_url, aggregation_outputs_blob_url");
        reveal_strlit(" FROM ");
        reveal_strlit("node_aggregation_witness_jobs");
        reveal_strlit("SELECT l1_batch_number, leaf_layer_subqueues_blob_url, aggregation_outputs_blob_url FROM node_aggregation_witness_jobs");
    }
    assert(statement.query.text() =~= "SELECT l1_batch_number, leaf_layer_subqueues_blob_url, aggregation_outputs_blob_url FROM node_aggregation_witness_jobs"@
        + " WHERE status = 'successful' AND is_blob_cleaned = FALSE AND leaf_layer_subqueues_blob_url IS NOT NULL AND aggregation_outputs_blob_url IS NOT NULL AND updated_at < now() - INTERVAL '30 days'"@
        + " LIMIT $1"@);
    assert(statement.args =~= seq![ArgView::Int4(limit as i32)]);
}

/// What is sent to find the scheduler jobs whose blobs may be cleaned.
#[verifier::spinoff_prover]
#[verifier::rlimit(40)]
pub proof fn law_text_of_finding_scheduler_blobs(limit: u8)
    ensures
        cleanable_scheduler_statement(limit).query.text() == "SELECT l1_batch_number, scheduler_witness_blob_url, final_node_aggregations_blob_url FROM scheduler_witness_jobs"@
            + " WHERE status = 'successful' AND is_blob_cleaned = FALSE AND updated_at < now() - INTERVAL '30 days' AND scheduler_witness_blob_url IS NOT NULL AND final_node_aggregations_blob_url IS NOT NULL"@
            + " LIMIT $1"@,
        cleanable_scheduler_statement(limit).args == seq![ArgView::Int4(limit as i32)],
{
    let statement = cleanable_scheduler_statement(limit);
    let outputs = statement.query->outputs;
    let filter = statement.query->Select_filter;
    assert(outputs_text(outputs) == "l1_batch_number, scheduler_witness_blob_url, final_node_aggregations_blob_url"@) by {
        reveal_with_fuel(decimal, 3);
        let parts = seq![
            "l1_batch_number"@,
            "scheduler_witness_blob_url"@,
            "final_node_aggregations_blob_url"@,
        ];
        assert(outputs.map_values(|output: Output| output.text()) =~= parts);
        lemma_joined_3(parts[0], parts[1], parts[2], ", "@);
        assert(parts =~= seq![parts[0], parts[1], parts[2]]);
        reveal_strlit("l1_batch_number");
        reveal_strlit("scheduler_witness_blob_url");
        reveal_strlit("final_node_aggregations_blob_url");
        reveal_strlit(", ");
        reveal_strlit("l1_batch_number, scheduler_witness_blob_url, final_node_aggregations_blob_url");
    }
    assert(where_text(filter) == " WHERE status = 'successful' AND is_blob_cleaned = FALSE AND updated_at < now() - INTERVAL '30 days' AND scheduler_witness_blob_url IS NOT NULL AND final_node_aggregations_blob_url IS NOT NULL"@) by {
        reveal_with_fuel(decimal, 3);
        assert(filter[0].text() =~= "status = 'successful'"@) by {
            reveal_strlit("status = '");
            reveal_strlit("successful");
            reveal_strlit("'");
            reveal_strlit("status = 'successful'");
        }
        assert(filter[2].text() =~= "updated_at < now() - INTERVAL '30 days'"@) by {
            reveal_strlit("updated_at < now() - INTERVAL '");
            reveal_strlit(" days'");
            reveal_strlit("updated_at < now() - INTERVAL '30 days'");
        }
        assert(filter[3].text() =~= "scheduler_witness_blob_url IS NOT NULL"@) by {
            reveal_strlit("scheduler_witness_blob_url");
            reveal_strlit(" IS NOT NULL");
            reveal_strlit("scheduler_witness_blob_url IS NOT NULL");
        }
        assert(filter[4].text() =~= "final_node_aggregations_blob_url IS NOT NULL"@) by {
            reveal_strlit("final_node_aggregations_blob_url");
            reveal_strlit(" IS NOT NULL");
            reveal_strlit("final_node_aggregations_blob_url IS NOT NULL");
        }
        let parts = seq![
            "status = 'successful'"@,
            "is_blob_cleaned = FALSE"@,
            "updated_at < now() - INTERVAL '30 days'"@,
            "scheduler_witness_blob_url IS NOT NULL"@,
            "final_node_aggregations_blob_url IS NOT NULL"@,
        ];
        assert(filter.map_values(|condition: Condition| condition.text()) =~= parts);
        lemma_joined_5(parts[0], parts[1], parts[2], parts[3], parts[4], " AND "@);
        assert(parts =~= seq![parts[0], parts[1], parts[2], parts[3], parts[4]]);
        reveal_strlit("status = 'successful'");
        reveal_strlit("is_blob_cleaned = FALSE");
        reveal_strlit("updated_at < now() - INTERVAL '30 days'");
        reveal_strlit("scheduler_witness_blob_url IS NOT NULL");
        reveal_strlit("final_node_aggregations_blob_url IS NOT NULL");
        reveal_strlit(" AND ");
        reveal_strlit(" WHERE ");
        reveal_strlit(" WHERE status = 'successful' AND is_blob_cleaned = FALSE AND updated_at < now() - INTERVAL '30 days' AND scheduler_witness_blob_url IS NOT NULL AND final_node_aggregations_blob_url IS NOT NULL");
    }
    assert(" LIMIT "@ + placeholder(1) =~= " LIMIT $1"@) by {
        reveal_with_fuel(decimal, 3);
        reveal_strlit(" LIMIT ");
        reveal_strlit("$");
        reveal_strlit(" LIMIT $1");
    }
    assert("SELECT "@
        + "l1_batch_number, scheduler_witness_blob_url, final_node_aggregations_blob_url"@
        + " FROM "@
        + "scheduler_witness_jobs"@
        =~= "SELECT l1_batch_number, scheduler_witness_blob_url, final_node_aggregations_blob_url FROM scheduler_witness_jobs"@) by {
        reveal_strlit("SELECT ");
        reveal_strlit("l1_batch_number, scheduler_witness_blob_url, final_node_aggregations_blob_url");
        reveal_strlit(" FROM ");
        reveal_strlit("scheduler_witness_jobs");
        reveal_strlit("SELECT l1_batch_number, scheduler_witness_blob_url, final_node_aggregations_blob_url FROM scheduler_witness_jobs");
    }
    assert(statement.query.text() =~= "SELECT l1_batch_number, scheduler_witness_blob_url, final_node_aggregations_blob_url FROM scheduler_witness_jobs"@
        + " WHERE status = 'successful' AND is_blob_cleaned = FALSE AND updated_at < now() - INTERVAL '30 days' AND scheduler_witness_blob_url IS NOT NULL AND final_node_aggregations_blob_url IS NOT NULL"@
        + " LIMIT $1"@);
    assert(statement.args =~= seq![ArgView::Int4(limit as i32)]);
}

/// What is sent to mark blobs of a round as cleaned.
#[verifier::spinoff_prover]
#[verifier::rlimit(40)]
pub proof fn law_text_of_marking_blobs_as_cleaned(
    round: AggregationRound,
    l1_batch_numbers: Seq<i64>,
)
    ensures
        cleaned_statement(table_of(round), l1_batch_numbers).query.text() == "UPDATE "@
            + jobs_table(round)
            + " SET is_blob_cleaned = TRUE WHERE l1_batch_number = ANY($1)"@,
        cleaned_statement(table_of(round), l1_batch_numbers).args == seq![ArgView::Int8List(l1_batch_numbers)],
{
    let statement = cleaned_statement(table_of(round), l1_batch_numbers);
    let set = statement.query->Update_set;
    let filter = statement.query->Update_filter;
    assert(assignments_text(set) == "is_blob_cleaned = TRUE"@) by {
        reveal_with_fuel(decimal, 3);
        assert(set[0].text() =~= "is_blob_cleaned = TRUE"@) by {
            reveal_strlit("is_blob_cleaned");
            reveal_strlit(" = ");
            reveal_strlit("TRUE");
            reveal_strlit("is_blob_cleaned = TRUE");
        }
        let parts = seq![
            "is_blob_cleaned = TRUE"@,
        ];
        assert(set.map_values(|assignment: Assignment| assignment.text()) =~= parts);
        law_separated_list(seq![], parts[0], ", "@);
    }
    assert(where_text(filter) == " WHERE l1_batch_number = ANY($1)"@) by {
        reveal_with_fuel(decimal, 3);
        assert(filter[0].text() =~= "l1_batch_number = ANY($1)"@) by {
            reveal_strlit("l1_batch_number = ANY(");
            reveal_strlit("$");
            reveal_strlit(")");
            reveal_strlit("l1_batch_number = ANY($1)");
        }
        let parts = seq![
            "l1_batch_number = ANY($1)"@,
        ];
        assert(filter.map_values(|condition: Condition| condition.text()) =~= parts);
        law_separated_list(seq![], parts[0], " AND "@);
        reveal_strlit("l1_batch_number = ANY($1)");
        reveal_strlit(" WHERE ");
        reveal_strlit(" WHERE l1_batch_number = ANY($1)");
    }
    assert(" SET "@
        + "is_blob_cleaned = TRUE"@
        + " WHERE l1_batch_number = ANY($1)"@
        =~= " SET is_blob_cleaned = TRUE WHERE l1_batch_number = ANY($1)"@) by {
        reveal_strlit(" SET ");
        reveal_strlit("is_blob_cleaned = TRUE");
        reveal_strlit(" WHERE l1_batch_number = ANY($1)");
        reveal_strlit(" SET is_blob_cleaned = TRUE WHERE l1_batch_number = ANY($1)");
    }
    assert(statement.query.text() =~= "UPDATE "@
        + jobs_table(round)
        + " SET is_blob_cleaned = TRUE WHERE l1_batch_number = ANY($1)"@);
    assert(statement.args =~= seq![ArgView::Int8List(l1_batch_numbers)]);
}

/// The condition on the batch number of a list of jobs: none, or both bounds of the range.
pub open spec fn range_text(opts: GetWitnessJobsParams) -> Seq<char> {
    match opts.blocks {
        Some(blocks) => " AND l1_batch_number BETWEEN "@ + decimal(blocks.start.0 as nat) + " AND "@
            + decimal(blocks.end.0 as nat),
        None => Seq::empty(),
    }
}

/// The conditions of a list of jobs.
proof fn lemma_list_where(opts: GetWitnessJobsParams)
    ensures
        where_text(list_filter(opts)) == " WHERE 1 = 1"@ + range_text(opts),
{
    let filter = list_filter(opts);
    assert(filter[0].text() == "1 = 1"@);
    assert(" WHERE "@ + "1 = 1"@ =~= " WHERE 1 = 1"@) by {
        reveal_strlit(" WHERE ");
        reveal_strlit("1 = 1");
        reveal_strlit(" WHERE 1 = 1");
    }
    match opts.blocks {
        Some(blocks) => {
            let range = "l1_batch_number BETWEEN "@ + decimal(blocks.start.0 as nat) + " AND "@
                + decimal(blocks.end.0 as nat);
            assert(filter[1].text() == range);
            assert(filter.map_values(|condition: Condition| condition.text()) =~= seq![
                "1 = 1"@,
                range,
            ]);
            lemma_joined_2("1 = 1"@, range, " AND "@);
            assert(" AND "@ + "l1_batch_number BETWEEN "@ =~= " AND l1_batch_number BETWEEN "@) by {
                reveal_strlit(" AND ");
                reveal_strlit("l1_batch_number BETWEEN ");
                reveal_strlit(" AND l1_batch_number BETWEEN ");
            }
            assert(where_text(filter) =~= (" WHERE "@ + "1 = 1"@) + ((" AND "@
                + "l1_batch_number BETWEEN "@) + decimal(blocks.start.0 as nat) + " AND "@
                + decimal(blocks.end.0 as nat)));
        },
        None => {
            assert(filter.map_values(|condition: Condition| condition.text()) =~= seq!["1 = 1"@]);
            law_separated_list(seq![], "1 = 1"@, " AND "@);
            assert(where_text(filter) =~= " WHERE 1 = 1"@ + range_text(opts));
        },
    }
}

/// The part of a list of jobs that comes from the table of a round.
proof fn lemma_list_slice(round: AggregationRound, filter: Seq<Condition>)
    ensures
        job_slice_text(round, filter) == match round {
            AggregationRound::BasicCircuits =>
                "SELECT 0 as aggregation_round, l1_batch_number, created_at, updated_at, status, time_taken, processing_started_at, error, attempts FROM witness_inputs"@,
            AggregationRound::LeafAggregation =>
                "SELECT 1 as aggregation_round, l1_batch_number, created_at, updated_at, status, time_taken, processing_started_at, error, attempts FROM leaf_aggregation_witness_jobs"@,
            AggregationRound::NodeAggregation =>
                "SELECT 2 as aggregation_round, l1_batch_number, created_at, updated_at, status, time_taken, processing_started_at, error, attempts FROM node_aggregation_witness_jobs"@,
            AggregationRound::Scheduler =>
                "SELECT 3 as aggregation_round, l1_batch_number, created_at, updated_at, status, time_taken, processing_started_at, error, attempts FROM scheduler_witness_jobs"@,
        } + where_text(filter),
{
    reveal_with_fuel(decimal, 2);
    assert(seq![digit(0)] =~= "0"@ && seq![digit(1)] =~= "1"@ && seq![digit(2)] =~= "2"@ && seq![
        digit(3),
    ] =~= "3"@) by {
        reveal_strlit("0");
        reveal_strlit("1");
        reveal_strlit("2");
        reveal_strlit("3");
    }
    match round {
        AggregationRound::BasicCircuits => {
            assert("SELECT "@ + "0"@ + " as aggregation_round, "@ + job_columns_text() + " FROM "@
                + "witness_inputs"@
                =~= "SELECT 0 as aggregation_round, l1_batch_number, created_at, updated_at, status, time_taken, processing_started_at, error, attempts FROM witness_inputs"@) by {
                reveal_strlit("SELECT ");
                reveal_strlit("0");
                reveal_strlit(" as aggregation_round, ");
                reveal_strlit("l1_batch_number, created_at, updated_at, status, time_taken, processing_started_at, error, attempts");
                reveal_strlit(" FROM ");
                reveal_strlit("witness_inputs");
                reveal_strlit("SELECT 0 as aggregation_round, l1_batch_number, created_at, updated_at, status, time_taken, processing_started_at, error, attempts FROM witness_inputs");
            }
        },
        AggregationRound::LeafAggregation => {
            assert("SELECT "@ + "1"@ + " as aggregation_round, "@ + job_columns_text() + " FROM "@
                + "leaf_aggregation_witness_jobs"@
                =~= "SELECT 1 as aggregation_round, l1_batch_number, created_at, updated_at, status, time_taken, processing_started_at, error, attempts FROM leaf_aggregation_witness_jobs"@) by {
                reveal_strlit("SELECT ");
                reveal_strlit("1");
                reveal_strlit(" as aggregation_round, ");
                reveal_strlit("l1_batch_number, created_at, updated_at, status, time_taken, processing_started_at, error, attempts");
                reveal_strlit(" FROM ");
                reveal_strlit("leaf_aggregation_witness_jobs");
                reveal_strlit("SELECT 1 as aggregation_round, l1_batch_number, created_at, updated_at, status, time_taken, processing_started_at, error, attempts FROM leaf_aggregation_witness_jobs");
            }
        },
        AggregationRound::NodeAggregation => {
            assert("SELECT "@ + "2"@ + " as aggregation_round, "@ + job_columns_text() + " FROM "@
                + "node_aggregation_witness_jobs"@
                =~= "SELECT 2 as aggregation_round, l1_batch_number, created_at, updated_at, status, time_taken, processing_started_at, error, attempts FROM node_aggregation_witness_jobs"@) by {
                reveal_strlit("SELECT ");
                reveal_strlit("2");
                reveal_strlit(" as aggregation_round, ");
                reveal_strlit("l1_batch_number, created_at, updated_at, status, time_taken, processing_started_at, error, attempts");
                reveal_strlit(" FROM ");
                reveal_strlit("node_aggregation_witness_jobs");
                reveal_strlit("SELECT 2 as aggregation_round, l1_batch_number, created_at, updated_at, status, time_taken, processing_started_at, error, attempts FROM node_aggregation_witness_jobs");
            }
        },
        AggregationRound::Scheduler => {
            assert("SELECT "@ + "3"@ + " as aggregation_round, "@ + job_columns_text() + " FROM "@
                + "scheduler_witness_jobs"@
                =~= "SELECT 3 as aggregation_round, l1_batch_number, created_at, updated_at, status, time_taken, processing_started_at, error, attempts FROM scheduler_witness_jobs"@) by {
                reveal_strlit("SELECT ");
                reveal_strlit("3");
                reveal_strlit(" as aggregation_round, ");
                reveal_strlit("l1_batch_number, created_at, updated_at, status, time_taken, processing_started_at, error, attempts");
                reveal_strlit(" FROM ");
                reveal_strlit("scheduler_witness_jobs");
                reveal_strlit("SELECT 3 as aggregation_round, l1_batch_number, created_at, updated_at, status, time_taken, processing_started_at, error, attempts FROM scheduler_witness_jobs");
            }
        },
    }
}

/// The same, with the conditions.
#[verifier::spinoff_prover]
proof fn lemma_list_part(round: AggregationRound, opts: GetWitnessJobsParams)
    ensures
        job_slice_text(round, list_filter(opts)) == match round {
            AggregationRound::BasicCircuits =>
                "SELECT 0 as aggregation_round, l1_batch_number, created_at, updated_at, status, time_taken, processing_started_at, error, attempts FROM witness_inputs WHERE 1 = 1"@,
            AggregationRound::LeafAggregation =>
                "SELECT 1 as aggregation_round, l1_batch_number, created_at, updated_at, status, time_taken, processing_started_at, error, attempts FROM leaf_aggregation_witness_jobs WHERE 1 = 1"@,
            AggregationRound::NodeAggregation =>
                "SELECT 2 as aggregation_round, l1_batch_number, created_at, updated_at, status, time_taken, processing_started_at, error, attempts FROM node_aggregation_witness_jobs WHERE 1 = 1"@,
            AggregationRound::Scheduler =>
                "SELECT 3 as aggregation_round, l1_batch_number, created_at, updated_at, status, time_taken, processing_started_at, error, attempts FROM scheduler_witness_jobs WHERE 1 = 1"@,
        } + range_text(opts),
{
    let range = range_text(opts);
    lemma_list_where(opts);
    lemma_list_slice(round, list_filter(opts));
    match round {
        AggregationRound::BasicCircuits => {
            assert("SELECT 0 as aggregation_round, l1_batch_number, created_at, updated_at, status, time_taken, processing_started_at, error, attempts FROM witness_inputs"@
                + " WHERE 1 = 1"@
                =~= "SELECT 0 as aggregation_round, l1_batch_number, created_at, updated_at, status, time_taken, processing_started_at, error, attempts FROM witness_inputs WHERE 1 = 1"@) by {
                reveal_strlit("SELECT 0 as aggregation_round, l1_batch_number, created_at, updated_at, status, time_taken, processing_started_at, error, attempts FROM witness_inputs");
                reveal_strlit(" WHERE 1 = 1");
                reveal_strlit("SELECT 0 as aggregation_round, l1_batch_number, created_at, updated_at, status, time_taken, processing_started_at, error, attempts FROM witness_inputs WHERE 1 = 1");
            }
            assert("SELECT 0 as aggregation_round, l1_batch_number, created_at, updated_at, status, time_taken, processing_started_at, error, attempts FROM witness_inputs"@
                + (" WHERE 1 = 1"@ + range) =~= ("SELECT 0 as aggregation_round, l1_batch_number, created_at, updated_at, status, time_taken, processing_started_at, error, attempts FROM witness_inputs"@
                + " WHERE 1 = 1"@) + range);
        },
        AggregationRound::LeafAggregation => {
            assert("SELECT 1 as aggregation_round, l1_batch_number, created_at, updated_at, status, time_taken, processing_started_at, error, attempts FROM leaf_aggregation_witness_jobs"@
                + " WHERE 1 = 1"@
                =~= "SELECT 1 as aggregation_round, l1_batch_number, created_at, updated_at, status, time_taken, processing_started_at, error, attempts FROM leaf_aggregation_witness_jobs WHERE 1 = 1"@) by {
                reveal_strlit("SELECT 1 as aggregation_round, l1_batch_number, created_at, updated_at, status, time_taken, processing_started_at, error, attempts FROM leaf_aggregation_witness_jobs");
                reveal_strlit(" WHERE 1 = 1");
                reveal_strlit("SELECT 1 as aggregation_round, l1_batch_number, created_at, updated_at, status, time_taken, processing_started_at, error, attempts FROM leaf_aggregation_witness_jobs WHERE 1 = 1");
            }
            assert("SELECT 1 as aggregation_round, l1_batch_number, created_at, updated_at, status, time_taken, processing_started_at, error, attempts FROM leaf_aggregation_witness_jobs"@
                + (" WHERE 1 = 1"@ + range) =~= ("SELECT 1 as aggregation_round, l1_batch_number, created_at, updated_at, status, time_taken, processing_started_at, error, attempts FROM leaf_aggregation_witness_jobs"@
                + " WHERE 1 = 1"@) + range);
        },
        AggregationRound::NodeAggregation => {
            assert("SELECT 2 as aggregation_round, l1_batch_number, created_at, updated_at, status, time_taken, processing_started_at, error, attempts FROM node_aggregation_witness_jobs"@
                + " WHERE 1 = 1"@
                =~= "SELECT 2 as aggregation_round, l1_batch_number, created_at, updated_at, status, time_taken, processing_started_at, error, attempts FROM node_aggregation_witness_jobs WHERE 1 = 1"@) by {
                reveal_strlit("SELECT 2 as aggregation_round, l1_batch_number, created_at, updated_at, status, time_taken, processing_started_at, error, attempts FROM node_aggregation_witness_jobs");
                reveal_strlit(" WHERE 1 = 1");
                reveal_strlit("SELECT 2 as aggregation_round, l1_batch_number, created_at, updated_at, status, time_taken, processing_started_at, error, attempts FROM node_aggregation_witness_jobs WHERE 1 = 1");
            }
            assert("SELECT 2 as aggregation_round, l1_batch_number, created_at, updated_at, status, time_taken, processing_started_at, error, attempts FROM node_aggregation_witness_jobs"@
                + (" WHERE 1 = 1"@ + range) =~= ("SELECT 2 as aggregation_round, l1_batch_number, created_at, updated_at, status, time_taken, processing_started_at, error, attempts FROM node_aggregation_witness_jobs"@
                + " WHERE 1 = 1"@) + range);
        },
        AggregationRound::Scheduler => {
            assert("SELECT 3 as aggregation_round, l1_batch_number, created_at, updated_at, status, time_taken, processing_started_at, error, attempts FROM scheduler_witness_jobs"@
                + " WHERE 1 = 1"@
                =~= "SELECT 3 as aggregation_round, l1_batch_number, created_at, updated_at, status, time_taken, processing_started_at, error, attempts FROM scheduler_witness_jobs WHERE 1 = 1"@) by {
                reveal_strlit("SELECT 3 as aggregation_round, l1_batch_number, created_at, updated_at, status, time_taken, processing_started_at, error, attempts FROM scheduler_witness_jobs");
                reveal_strlit(" WHERE 1 = 1");
                reveal_strlit("SELECT 3 as aggregation_round, l1_batch_number, created_at, updated_at, status, time_taken, processing_started_at, error, attempts FROM scheduler_witness_jobs WHERE 1 = 1");
            }
            assert("SELECT 3 as aggregation_round, l1_batch_number, created_at, updated_at, status, time_taken, processing_started_at, error, attempts FROM scheduler_witness_jobs"@
                + (" WHERE 1 = 1"@ + range) =~= ("SELECT 3 as aggregation_round, l1_batch_number, created_at, updated_at, status, time_taken, processing_started_at, error, attempts FROM scheduler_witness_jobs"@
                + " WHERE 1 = 1"@) + range);
        },
    }
}

/// What is sent to list the jobs of all rounds.
pub proof fn law_text_of_the_list(opts: GetWitnessJobsParams)
    ensures
        list_statement(opts).query.text() == "SELECT 0 as aggregation_round, l1_batch_number, created_at, updated_at, status, time_taken, processing_started_at, error, attempts FROM witness_inputs WHERE 1 = 1"@
            + range_text(opts) + " UNION "@
            + "SELECT 1 as aggregation_round, l1_batch_number, created_at, updated_at, status, time_taken, processing_started_at, error, attempts FROM leaf_aggregation_witness_jobs WHERE 1 = 1"@
            + range_text(opts) + " UNION "@
            + "SELECT 2 as aggregation_round, l1_batch_number, created_at, updated_at, status, time_taken, processing_started_at, error, attempts FROM node_aggregation_witness_jobs WHERE 1 = 1"@
            + range_text(opts) + " UNION "@
            + "SELECT 3 as aggregation_round, l1_batch_number, created_at, updated_at, status, time_taken, processing_started_at, error, attempts FROM scheduler_witness_jobs WHERE 1 = 1"@
            + range_text(opts),
        list_statement(opts).args == Seq::<ArgView>::empty(),
{
    let filter = list_filter(opts);
    lemma_list_part(AggregationRound::BasicCircuits, opts);
    lemma_list_part(AggregationRound::LeafAggregation, opts);
    lemma_list_part(AggregationRound::NodeAggregation, opts);
    lemma_list_part(AggregationRound::Scheduler, opts);
    lemma_joined_4(
        job_slice_text(AggregationRound::BasicCircuits, filter),
        job_slice_text(AggregationRound::LeafAggregation, filter),
        job_slice_text(AggregationRound::NodeAggregation, filter),
        job_slice_text(AggregationRound::Scheduler, filter),
        " UNION "@,
    );
    lemma_four_parts(
        "SELECT 0 as aggregation_round, l1_batch_number, created_at, updated_at, status, time_taken, processing_started_at, error, attempts FROM witness_inputs WHERE 1 = 1"@,
        "SELECT 1 as aggregation_round, l1_batch_number, created_at, updated_at, status, time_taken, processing_started_at, error, attempts FROM leaf_aggregation_witness_jobs WHERE 1 = 1"@,
        "SELECT 2 as aggregation_round, l1_batch_number, created_at, updated_at, status, time_taken, processing_started_at, error, attempts FROM node_aggregation_witness_jobs WHERE 1 = 1"@,
        "SELECT 3 as aggregation_round, l1_batch_number, created_at, updated_at, status, time_taken, processing_started_at, error, attempts FROM scheduler_witness_jobs WHERE 1 = 1"@,
        range_text(opts),
        " UNION "@,
    );
    assert(list_statement(opts).args =~= Seq::<ArgView>::empty());
}

/// Brackets do not matter in a row of texts.
proof fn lemma_four_parts(
    a: Seq<char>,
    b: Seq<char>,
    c: Seq<char>,
    d: Seq<char>,
    range: Seq<char>,
    union: Seq<char>,
)
    ensures
        (a + range) + union + (b + range) + union + (c + range) + union + (d + range) == a + range
            + union + b + range + union + c + range + union + d + range,
{
    let two = a + range + union;
    assert(two + (b + range) =~= two + b + range);
    let three = two + b + range + union;
    assert(three + (c + range) =~= three + c + range);
    let four = three + c + range + union;
    assert(four + (d + range) =~= four + d + range);
}

} // verus!
