//! Statements on the job tables, as values, and the SQL text of each.
//!
//! A statement is a query together with the arguments of its placeholders. What a statement
//! does to the tables is defined in [`crate::meaning`].
use vstd::prelude::*;

use crate::text::decimal_text;
use crate::types::{AggregationRound, JobStatus};

verus! {

/// The tables that the statements read and write.
#[derive(Clone, Copy, Debug, PartialEq, Eq, Structural)]
pub enum TableName {
    WitnessInputs,
    LeafAggregationWitnessJobs,
    NodeAggregationWitnessJobs,
    SchedulerWitnessJobs,
    ProverJobs,
}

impl TableName {
    pub open spec fn text(self) -> Seq<char> {
        match self {
            TableName::WitnessInputs => "witness_inputs"@,
            TableName::LeafAggregationWitnessJobs => "leaf_aggregation_witness_jobs"@,
            TableName::NodeAggregationWitnessJobs => "node_aggregation_witness_jobs"@,
            TableName::SchedulerWitnessJobs => "scheduler_witness_jobs"@,
            TableName::ProverJobs => "prover_jobs"@,
        }
    }

    pub fn name(self) -> (name: &'static str)
        ensures
            name@ == self.text(),
    {
        match self {
            TableName::WitnessInputs => "witness_inputs",
            TableName::LeafAggregationWitnessJobs => "leaf_aggregation_witness_jobs",
            TableName::NodeAggregationWitnessJobs => "node_aggregation_witness_jobs",
            TableName::SchedulerWitnessJobs => "scheduler_witness_jobs",
            TableName::ProverJobs => "prover_jobs",
        }
    }
}

/// The table that holds the jobs of a round.
pub open spec fn spec_table_of(round: AggregationRound) -> TableName {
    match round {
        AggregationRound::BasicCircuits => TableName::WitnessInputs,
        AggregationRound::LeafAggregation => TableName::LeafAggregationWitnessJobs,
        AggregationRound::NodeAggregation => TableName::NodeAggregationWitnessJobs,
        AggregationRound::Scheduler => TableName::SchedulerWitnessJobs,
    }
}

#[verifier::when_used_as_spec(spec_table_of)]
pub fn table_of(round: AggregationRound) -> (table: TableName)
    ensures
        table == spec_table_of(round),
{
    match round {
        AggregationRound::BasicCircuits => TableName::WitnessInputs,
        AggregationRound::LeafAggregation => TableName::LeafAggregationWitnessJobs,
        AggregationRound::NodeAggregation => TableName::NodeAggregationWitnessJobs,
        AggregationRound::Scheduler => TableName::SchedulerWitnessJobs,
    }
}

/// The columns that the statements name.
#[derive(Clone, Copy, Debug, PartialEq, Eq, Structural)]
pub enum Column {
    L1BatchNumber,
    Status,
    Attempts,
    CreatedAt,
    UpdatedAt,
    ProcessingStartedAt,
    TimeTaken,
    Error,
    IsBlobCleaned,
    MerkleTreePaths,
    MerkleTreePathsBlobUrl,
    BasicCircuits,
    BasicCircuitsInputs,
    BasicCircuitsBlobUrl,
    BasicCircuitsInputsBlobUrl,
    NumberOfBasicCircuits,
    NumberOfLeafCircuits,
    LeafLayerSubqueuesBlobUrl,
    AggregationOutputsBlobUrl,
    SchedulerWitness,
    SchedulerWitnessBlobUrl,
    FinalNodeAggregationsBlobUrl,
    AggregationResultCoords,
    CircuitType,
    ProofResult,
    AggregationRound,
    SequenceNumber,
}

impl Column {
    pub open spec fn text(self) -> Seq<char> {
        match self {
            Column::L1BatchNumber => "l1_batch_number"@,
            Column::Status => "status"@,
            Column::Attempts => "attempts"@,
            Column::CreatedAt => "created_at"@,
            Column::UpdatedAt => "updated_at"@,
            Column::ProcessingStartedAt => "processing_started_at"@,
            Column::TimeTaken => "time_taken"@,
            Column::Error => "error"@,
            Column::IsBlobCleaned => "is_blob_cleaned"@,
            Column::MerkleTreePaths => "merkle_tree_paths"@,
            Column::MerkleTreePathsBlobUrl => "merkel_tree_paths_blob_url"@,
            Column::BasicCircuits => "basic_circuits"@,
            Column::BasicCircuitsInputs => "basic_circuits_inputs"@,
            Column::BasicCircuitsBlobUrl => "basic_circuits_blob_url"@,
            Column::BasicCircuitsInputsBlobUrl => "basic_circuits_inputs_blob_url"@,
            Column::NumberOfBasicCircuits => "number_of_basic_circuits"@,
            Column::NumberOfLeafCircuits => "number_of_leaf_circuits"@,
            Column::LeafLayerSubqueuesBlobUrl => "leaf_layer_subqueues_blob_url"@,
            Column::AggregationOutputsBlobUrl => "aggregation_outputs_blob_url"@,
            Column::SchedulerWitness => "scheduler_witness"@,
            Column::SchedulerWitnessBlobUrl => "scheduler_witness_blob_url"@,
            Column::FinalNodeAggregationsBlobUrl => "final_node_aggregations_blob_url"@,
            Column::AggregationResultCoords => "aggregation_result_coords"@,
            Column::CircuitType => "circuit_type"@,
            Column::ProofResult => "result"@,
            Column::AggregationRound => "aggregation_round"@,
            Column::SequenceNumber => "sequence_number"@,
        }
    }

    pub fn name(self) -> (name: &'static str)
        ensures
            name@ == self.text(),
    {
        match self {
            Column::L1BatchNumber => "l1_batch_number",
            Column::Status => "status",
            Column::Attempts => "attempts",
            Column::CreatedAt => "created_at",
            Column::UpdatedAt => "updated_at",
            Column::ProcessingStartedAt => "processing_started_at",
            Column::TimeTaken => "time_taken",
            Column::Error => "error",
            Column::IsBlobCleaned => "is_blob_cleaned",
            Column::MerkleTreePaths => "merkle_tree_paths",
            // The schema spells this one with "merkel".
            Column::MerkleTreePathsBlobUrl => "merkel_tree_paths_blob_url",
            Column::BasicCircuits => "basic_circuits",
            Column::BasicCircuitsInputs => "basic_circuits_inputs",
            Column::BasicCircuitsBlobUrl => "basic_circuits_blob_url",
            Column::BasicCircuitsInputsBlobUrl => "basic_circuits_inputs_blob_url",
            Column::NumberOfBasicCircuits => "number_of_basic_circuits",
            Column::NumberOfLeafCircuits => "number_of_leaf_circuits",
            Column::LeafLayerSubqueuesBlobUrl => "leaf_layer_subqueues_blob_url",
            Column::AggregationOutputsBlobUrl => "aggregation_outputs_blob_url",
            Column::SchedulerWitness => "scheduler_witness",
            Column::SchedulerWitnessBlobUrl => "scheduler_witness_blob_url",
            Column::FinalNodeAggregationsBlobUrl => "final_node_aggregations_blob_url",
            Column::AggregationResultCoords => "aggregation_result_coords",
            Column::CircuitType => "circuit_type",
            Column::ProofResult => "result",
            Column::AggregationRound => "aggregation_round",
            Column::SequenceNumber => "sequence_number",
        }
    }
}

/// The placeholder of the `k`-th argument, counted from one.
pub open spec fn placeholder(k: u8) -> Seq<char> {
    "$"@ + crate::text::decimal(k as nat)
}

pub(crate) fn placeholder_text(k: u8) -> (text: String)
    ensures
        text@ == placeholder(k),
{
    let mut text = "$".to_string();
    text.append(decimal_text(k as u64).as_str());
    text
}

/// What a column is set to.
#[derive(Clone, Copy, Debug, PartialEq, Eq, Structural)]
pub enum Operand {
    /// The argument with this number.
    Arg(u8),
    Status(JobStatus),
    Now,
    True,
    /// One more than the column holds.
    OneMore,
}

/// A column and what it is set to.
#[derive(Clone, Copy, Debug, PartialEq, Eq, Structural)]
pub struct Assignment {
    pub column: Column,
    pub value: Operand,
}

impl Assignment {
    /// The right-hand side.
    pub open spec fn value_text(self) -> Seq<char> {
        match self.value {
            Operand::Arg(k) => placeholder(k),
            Operand::Status(status) => "'"@ + status.text() + "'"@,
            Operand::Now => "now()"@,
            Operand::True => "TRUE"@,
            Operand::OneMore => self.column.text() + " + 1"@,
        }
    }

    pub open spec fn text(self) -> Seq<char> {
        self.column.text() + " = "@ + self.value_text()
    }

    pub(crate) fn value_sql(self) -> (text: String)
        ensures
            text@ == self.value_text(),
    {
        match self.value {
            Operand::Arg(k) => placeholder_text(k),
            Operand::Status(status) => {
                let mut text = "'".to_string();
                text.append(status.name());
                text.append("'");
                text
            },
            Operand::Now => "now()".to_string(),
            Operand::True => "TRUE".to_string(),
            Operand::OneMore => {
                let mut text = self.column.name().to_string();
                text.append(" + 1");
                text
            },
        }
    }

    pub(crate) fn sql(self) -> (text: String)
        ensures
            text@ == self.text(),
    {
        let mut text = self.column.name().to_string();
        text.append(" = ");
        text.append(self.value_sql().as_str());
        text
    }
}

/// A test on one row. The numbers are those of arguments, except in `BatchBetween` and
/// `NotUpdatedForDays`.
#[derive(Clone, Copy, Debug, PartialEq, Eq, Structural)]
pub enum Condition {
    /// Holds of every row.
    Always,
    BatchIs(u8),
    BatchAtMost(u8),
    /// The batch number is in the list.
    BatchAmong(u8),
    /// The batch number lies between the two numbers or is one of them.
    BatchBetween(u32, u32),
    RoundIs(u8),
    StatusIs(JobStatus),
    StatusIsNot(JobStatus),
    /// A worker may take the job: it is queued, or was taken longer ago than the timeout, or
    /// failed with attempts left.
    Claimable { timeout: u8, max_attempts: u8 },
    BlobsNotCleaned,
    NotNull(Column),
    /// The row was last changed longer ago than this many days.
    NotUpdatedForDays(u8),
}

impl Condition {
    pub open spec fn text(self) -> Seq<char> {
        match self {
            Condition::Always => "1 = 1"@,
            Condition::BatchIs(k) => "l1_batch_number = "@ + placeholder(k),
            Condition::BatchAtMost(k) => "l1_batch_number <= "@ + placeholder(k),
            Condition::BatchAmong(k) => "l1_batch_number = ANY("@ + placeholder(k) + ")"@,
            Condition::BatchBetween(first, last) => "l1_batch_number BETWEEN "@
                + crate::text::decimal(first as nat) + " AND "@ + crate::text::decimal(last as nat),
            Condition::RoundIs(k) => "aggregation_round = "@ + placeholder(k),
            Condition::StatusIs(status) => "status = '"@ + status.text() + "'"@,
            Condition::StatusIsNot(status) => "status != '"@ + status.text() + "'"@,
            Condition::Claimable { timeout, max_attempts } =>
                "(status = 'queued' OR (status = 'in_progress' AND processing_started_at < now() - "@
                + placeholder(timeout) + "::interval) OR (status = 'failed' AND attempts < "@
                + placeholder(max_attempts) + "))"@,
            Condition::BlobsNotCleaned => "is_blob_cleaned = FALSE"@,
            Condition::NotNull(column) => column.text() + " IS NOT NULL"@,
            Condition::NotUpdatedForDays(days) => "updated_at < now() - INTERVAL '"@
                + crate::text::decimal(days as nat) + " days'"@,
        }
    }

    pub(crate) fn sql(self) -> (text: String)
        ensures
            text@ == self.text(),
    {
        match self {
            Condition::Always => "1 = 1".to_string(),
            Condition::BatchIs(k) => {
                let mut text = "l1_batch_number = ".to_string();
                text.append(placeholder_text(k).as_str());
                text
            },
            Condition::BatchAtMost(k) => {
                let mut text = "l1_batch_number <= ".to_string();
                text.append(placeholder_text(k).as_str());
                text
            },
            Condition::BatchAmong(k) => {
                let mut text = "l1_batch_number = ANY(".to_string();
                text.append(placeholder_text(k).as_str());
                text.append(")");
                text
            },
            Condition::BatchBetween(first, last) => {
                let mut text = "l1_batch_number BETWEEN ".to_string();
                text.append(decimal_text(first as u64).as_str());
                text.append(" AND ");
                text.append(decimal_text(last as u64).as_str());
                text
            },
            Condition::RoundIs(k) => {
                let mut text = "aggregation_round = ".to_string();
                text.append(placeholder_text(k).as_str());
                text
            },
            Condition::StatusIs(status) => {
                let mut text = "status = '".to_string();
                text.append(status.name());
                text.append("'");
                text
            },
            Condition::StatusIsNot(status) => {
                let mut text = "status != '".to_string();
                text.append(status.name());
                text.append("'");
                text
            },
            Condition::Claimable { timeout, max_attempts } => {
                let mut text =
                    "(status = 'queued' OR (status = 'in_progress' AND processing_started_at < now() - ".to_string();
                text.append(placeholder_text(timeout).as_str());
                text.append("::interval) OR (status = 'failed' AND attempts < ");
                text.append(placeholder_text(max_attempts).as_str());
                text.append("))");
                text
            },
            Condition::BlobsNotCleaned => "is_blob_cleaned = FALSE".to_string(),
            Condition::NotNull(column) => {
                let mut text = column.name().to_string();
                text.append(" IS NOT NULL");
                text
            },
            Condition::NotUpdatedForDays(days) => {
                let mut text = "updated_at < now() - INTERVAL '".to_string();
                text.append(decimal_text(days as u64).as_str());
                text.append(" days'");
                text
            },
        }
    }
}

/// What a `SELECT` hands back of the rows that it finds.
#[derive(Clone, Copy, Debug, PartialEq, Eq, Structural)]
pub enum Output {
    Column(Column),
    /// The column, under the name `count`.
    ColumnAsCount(Column),
    /// The status, under its own name in quotes.
    QuotedStatus,
    /// The number of rows, under the name `count`.
    RowCount,
    /// The greatest batch number, under the name `l1_batch`.
    GreatestBatch,
}

impl Output {
    pub open spec fn text(self) -> Seq<char> {
        match self {
            Output::Column(column) => column.text(),
            Output::ColumnAsCount(column) => column.text() + " as \"count\""@,
            Output::QuotedStatus => "status as \"status\""@,
            Output::RowCount => "COUNT(*) as \"count\""@,
            Output::GreatestBatch => "MAX(l1_batch_number) as l1_batch"@,
        }
    }

    pub(crate) fn sql(self) -> (text: String)
        ensures
            text@ == self.text(),
    {
        match self {
            Output::Column(column) => column.name().to_string(),
            Output::ColumnAsCount(column) => {
                let mut text = column.name().to_string();
                text.append(" as \"count\"");
                text
            },
            Output::QuotedStatus => "status as \"status\"".to_string(),
            Output::RowCount => "COUNT(*) as \"count\"".to_string(),
            Output::GreatestBatch => "MAX(l1_batch_number) as l1_batch".to_string(),
        }
    }
}

} // verus!
