//! The operator model: a plan is a rose tree of operators.
//!
//! Each operator has a kind drawn from the closed built-in set plus a
//! generic extension kind, kind-specific parameters, and an ordered list of
//! child plans.  The output schema of every operator is derivable from its
//! kind, parameters and children.

use vstd::prelude::*;
use crate::expr::{AggExpr, AggExprV, Expr, ExprV, JoinFilter, JoinFilterV, SortExpr, SortExprV, WindowExpr, WindowExprV};
use crate::schema::{DataType, FieldV, Schema, SchemaV};

verus! {

broadcast use crate::views::lemma_deep_view_len, crate::views::lemma_deep_view_index;

/// How a join combines matching rows.
#[derive(Clone, Copy, Debug, PartialEq, Eq, Structural)]
pub enum JoinType {
    Inner,
    Left,
    Right,
    Full,
    LeftSemi,
    LeftAnti,
    RightSemi,
    RightAnti,
}

/// How a hash join distributes its inputs.
#[derive(Clone, Copy, Debug, PartialEq, Eq, Structural)]
pub enum PartitionMode {
    CollectLeft,
    Partitioned,
    Auto,
}

/// How a symmetric hash join distributes its inputs.
#[derive(Clone, Copy, Debug, PartialEq, Eq, Structural)]
pub enum StreamPartitionMode {
    SinglePartition,
    PartitionedExec,
}

/// Whether null keys compare equal in a join.
#[derive(Clone, Copy, Debug, PartialEq, Eq, Structural)]
pub enum NullEquality {
    NullEqualsNothing,
    NullEqualsNull,
}

/// The phase of an aggregation.
#[derive(Clone, Copy, Debug, PartialEq, Eq, Structural)]
pub enum AggregateMode {
    Partial,
    Final,
    FinalPartitioned,
    Single,
    SinglePartitioned,
}

impl DeepView for JoinType {
    type V = JoinType;

    open spec fn deep_view(&self) -> JoinType {
        *self
    }
}

impl DeepView for PartitionMode {
    type V = PartitionMode;

    open spec fn deep_view(&self) -> PartitionMode {
        *self
    }
}

impl DeepView for StreamPartitionMode {
    type V = StreamPartitionMode;

    open spec fn deep_view(&self) -> StreamPartitionMode {
        *self
    }
}

impl DeepView for NullEquality {
    type V = NullEquality;

    open spec fn deep_view(&self) -> NullEquality {
        *self
    }
}

impl DeepView for AggregateMode {
    type V = AggregateMode;

    open spec fn deep_view(&self) -> AggregateMode {
        *self
    }
}

/// An equi-join key pair; the left side is resolved against the left
/// input's schema and the right side against the right input's schema.
#[derive(Debug, PartialEq)]
pub struct JoinOn {
    pub left: Expr,
    pub right: Expr,
}

pub ghost struct JoinOnV {
    pub left: ExprV,
    pub right: ExprV,
}

impl DeepView for JoinOn {
    type V = JoinOnV;

    open spec fn deep_view(&self) -> JoinOnV {
        JoinOnV { left: self.left.deep_view(), right: self.right.deep_view() }
    }
}

/// A streaming window's declared input order.
#[derive(Debug, PartialEq)]
pub enum InputOrderMode {
    Linear,
    PartiallySorted { columns: Vec<u64> },
    Sorted,
}

pub ghost enum InputOrderModeV {
    Linear,
    PartiallySorted { columns: Seq<u64> },
    Sorted,
}

impl DeepView for InputOrderMode {
    type V = InputOrderModeV;

    open spec fn deep_view(&self) -> InputOrderModeV {
        match self {
            InputOrderMode::Linear => InputOrderModeV::Linear,
            InputOrderMode::PartiallySorted { columns } => InputOrderModeV::PartiallySorted {
                columns: columns.deep_view(),
            },
            InputOrderMode::Sorted => InputOrderModeV::Sorted,
        }
    }
}

/// How a repartitioning distributes rows.
#[derive(Debug, PartialEq)]
pub enum Partitioning {
    RoundRobinBatch { partition_count: u64 },
    Hash { exprs: Vec<Expr>, partition_count: u64 },
    UnknownPartitioning { partition_count: u64 },
}

pub ghost enum PartitioningV {
    RoundRobinBatch { partition_count: u64 },
    Hash { exprs: Seq<ExprV>, partition_count: u64 },
    UnknownPartitioning { partition_count: u64 },
}

impl DeepView for Partitioning {
    type V = PartitioningV;

    open spec fn deep_view(&self) -> PartitioningV {
        match self {
            Partitioning::RoundRobinBatch { partition_count } => PartitioningV::RoundRobinBatch {
                partition_count: *partition_count,
            },
            Partitioning::Hash { exprs, partition_count } => PartitioningV::Hash {
                exprs: exprs.deep_view(),
                partition_count: *partition_count,
            },
            Partitioning::UnknownPartitioning { partition_count } => PartitioningV::UnknownPartitioning {
                partition_count: *partition_count,
            },
        }
    }
}

/// The shared configuration of every leaf file scan: the file schema, the
/// column projection applied before any predicate, and an optional row
/// bound.
#[derive(Debug, PartialEq)]
pub struct FileScanConfig {
    pub file_schema: Schema,
    pub projection: Vec<u64>,
    pub limit: Option<u64>,
}

pub ghost struct FileScanConfigV {
    pub file_schema: SchemaV,
    pub projection: Seq<u64>,
    pub limit: Option<u64>,
}

impl DeepView for FileScanConfig {
    type V = FileScanConfigV;

    open spec fn deep_view(&self) -> FileScanConfigV {
        FileScanConfigV {
            file_schema: self.file_schema.deep_view(),
            projection: self.projection.deep_view(),
            limit: self.limit,
        }
    }
}

/// One list-typed column an unnest expands.
#[derive(Clone, Copy, Debug, PartialEq, Eq, Structural)]
pub struct ListUnnest {
    pub index_in_input_schema: u64,
    pub depth: u64,
}

impl DeepView for ListUnnest {
    type V = ListUnnest;

    open spec fn deep_view(&self) -> ListUnnest {
        *self
    }
}

/// The kind of an operator together with its kind-specific parameters.
/// Children are held beside the kind, on the plan node itself.
#[derive(Debug, PartialEq)]
pub enum OpKind {
    Projection { exprs: Vec<Expr>, names: Vec<Vec<u8>> },
    Filter { predicate: Expr, projection: Vec<u64>, default_selectivity: u8 },
    Aggregate {
        mode: AggregateMode,
        group_exprs: Vec<Expr>,
        group_names: Vec<Vec<u8>>,
        null_exprs: Vec<Expr>,
        groups: Vec<Vec<bool>>,
        aggr_exprs: Vec<AggExpr>,
        filter_exprs: Vec<Option<Expr>>,
        input_schema: Schema,
        limit: Option<u64>,
    },
    HashJoin {
        on: Vec<JoinOn>,
        join_type: JoinType,
        partition_mode: PartitionMode,
        null_equality: NullEquality,
        filter: Option<JoinFilter>,
        projection: Vec<u64>,
    },
    SymmetricHashJoin {
        on: Vec<JoinOn>,
        join_type: JoinType,
        partition_mode: StreamPartitionMode,
        null_equality: NullEquality,
        filter: Option<JoinFilter>,
        left_sort_exprs: Vec<SortExpr>,
        right_sort_exprs: Vec<SortExpr>,
    },
    CrossJoin,
    NestedLoopJoin { join_type: JoinType, filter: Option<JoinFilter>, projection: Vec<u64> },
    Sort { exprs: Vec<SortExpr>, fetch: Option<u64>, preserve_partitioning: bool },
    SortPreservingMerge { exprs: Vec<SortExpr>, fetch: Option<u64> },
    CoalesceBatches { target_batch_size: u64, fetch: Option<u64> },
    CoalescePartitions { fetch: Option<u64> },
    Repartition { partitioning: Partitioning },
    GlobalLimit { skip: u64, fetch: Option<u64> },
    LocalLimit { fetch: u64 },
    Union,
    Interleave,
    Empty { schema: Schema },
    PlaceholderRow { schema: Schema },
    Explain { schema: Schema, stringified_plans: Vec<Vec<u8>>, verbose: bool },
    Analyze { verbose: bool, show_statistics: bool, schema: Schema },
    Window {
        window_exprs: Vec<WindowExpr>,
        partition_keys: Vec<Expr>,
        input_order_mode: Option<InputOrderMode>,
    },
    Unnest {
        list_type_columns: Vec<ListUnnest>,
        struct_type_columns: Vec<u64>,
        schema: Schema,
        preserve_nulls: bool,
    },
    Cooperative,
    CsvScan {
        base_conf: FileScanConfig,
        has_header: bool,
        delimiter: u8,
        quote: u8,
        escape: Option<u8>,
        comment: Option<u8>,
        newlines_in_values: bool,
    },
    JsonScan { base_conf: FileScanConfig },
    ParquetScan { base_conf: FileScanConfig, predicate: Option<Expr>, parquet_options: Vec<u8> },
    AvroScan { base_conf: FileScanConfig },
    CsvSink { sink: Vec<u8>, sink_schema: Schema, sort_order: Option<Vec<SortExpr>> },
    JsonSink { sink: Vec<u8>, sink_schema: Schema, sort_order: Option<Vec<SortExpr>> },
    ParquetSink { sink: Vec<u8>, sink_schema: Schema, sort_order: Option<Vec<SortExpr>> },
    Extension { payload: Vec<u8>, schema: Schema },
}

/// The mathematical image of an [`OpKind`].
pub ghost enum OpV {
    Projection { exprs: Seq<ExprV>, names: Seq<Seq<u8>> },
    Filter { predicate: ExprV, projection: Seq<u64>, default_selectivity: u8 },
    Aggregate {
        mode: AggregateMode,
        group_exprs: Seq<ExprV>,
        group_names: Seq<Seq<u8>>,
        null_exprs: Seq<ExprV>,
        groups: Seq<Seq<bool>>,
        aggr_exprs: Seq<AggExprV>,
        filter_exprs: Seq<Option<ExprV>>,
        input_schema: SchemaV,
        limit: Option<u64>,
    },
    HashJoin {
        on: Seq<JoinOnV>,
        join_type: JoinType,
        partition_mode: PartitionMode,
        null_equality: NullEquality,
        filter: Option<JoinFilterV>,
        projection: Seq<u64>,
    },
    SymmetricHashJoin {
        on: Seq<JoinOnV>,
        join_type: JoinType,
        partition_mode: StreamPartitionMode,
        null_equality: NullEquality,
        filter: Option<JoinFilterV>,
        left_sort_exprs: Seq<SortExprV>,
        right_sort_exprs: Seq<SortExprV>,
    },
    CrossJoin,
    NestedLoopJoin { join_type: JoinType, filter: Option<JoinFilterV>, projection: Seq<u64> },
    Sort { exprs: Seq<SortExprV>, fetch: Option<u64>, preserve_partitioning: bool },
    SortPreservingMerge { exprs: Seq<SortExprV>, fetch: Option<u64> },
    CoalesceBatches { target_batch_size: u64, fetch: Option<u64> },
    CoalescePartitions { fetch: Option<u64> },
    Repartition { partitioning: PartitioningV },
    GlobalLimit { skip: u64, fetch: Option<u64> },
    LocalLimit { fetch: u64 },
    Union,
    Interleave,
    Empty { schema: SchemaV },
    PlaceholderRow { schema: SchemaV },
    Explain { schema: SchemaV, stringified_plans: Seq<Seq<u8>>, verbose: bool },
    Analyze { verbose: bool, show_statistics: bool, schema: SchemaV },
    Window {
        window_exprs: Seq<WindowExprV>,
        partition_keys: Seq<ExprV>,
        input_order_mode: Option<InputOrderModeV>,
    },
    Unnest {
        list_type_columns: Seq<ListUnnest>,
        struct_type_columns: Seq<u64>,
        schema: SchemaV,
        preserve_nulls: bool,
    },
    Cooperative,
    CsvScan {
        base_conf: FileScanConfigV,
        has_header: bool,
        delimiter: u8,
        quote: u8,
        escape: Option<u8>,
        comment: Option<u8>,
        newlines_in_values: bool,
    },
    JsonScan { base_conf: FileScanConfigV },
    ParquetScan { base_conf: FileScanConfigV, predicate: Option<ExprV>, parquet_options: Seq<u8> },
    AvroScan { base_conf: FileScanConfigV },
    CsvSink { sink: Seq<u8>, sink_schema: SchemaV, sort_order: Option<Seq<SortExprV>> },
    JsonSink { sink: Seq<u8>, sink_schema: SchemaV, sort_order: Option<Seq<SortExprV>> },
    ParquetSink { sink: Seq<u8>, sink_schema: SchemaV, sort_order: Option<Seq<SortExprV>> },
    Extension { payload: Seq<u8>, schema: SchemaV },
}

impl DeepView for OpKind {
    type V = OpV;

    open spec fn deep_view(&self) -> OpV {
        match self {
            OpKind::Projection { exprs, names } => OpV::Projection {
                exprs: exprs.deep_view(),
                names: names.deep_view(),
            },
            OpKind::Filter { predicate, projection, default_selectivity } => OpV::Filter {
                predicate: predicate.deep_view(),
                projection: projection.deep_view(),
                default_selectivity: *default_selectivity,
            },
            OpKind::Aggregate {
                mode,
                group_exprs,
                group_names,
                null_exprs,
                groups,
                aggr_exprs,
                filter_exprs,
                input_schema,
                limit,
            } => OpV::Aggregate {
                mode: *mode,
                group_exprs: group_exprs.deep_view(),
                group_names: group_names.deep_view(),
                null_exprs: null_exprs.deep_view(),
                groups: groups.deep_view(),
                aggr_exprs: aggr_exprs.deep_view(),
                filter_exprs: filter_exprs.deep_view(),
                input_schema: input_schema.deep_view(),
                limit: *limit,
            },
            OpKind::HashJoin {
                on,
                join_type,
                partition_mode,
                null_equality,
                filter,
                projection,
            } => OpV::HashJoin {
                on: on.deep_view(),
                join_type: *join_type,
                partition_mode: *partition_mode,
                null_equality: *null_equality,
                filter: filter.deep_view(),
                projection: projection.deep_view(),
            },
            OpKind::SymmetricHashJoin {
                on,
                join_type,
                partition_mode,
                null_equality,
                filter,
                left_sort_exprs,
                right_sort_exprs,
            } => OpV::SymmetricHashJoin {
                on: on.deep_view(),
                join_type: *join_type,
                partition_mode: *partition_mode,
                null_equality: *null_equality,
                filter: filter.deep_view(),
                left_sort_exprs: left_sort_exprs.deep_view(),
                right_sort_exprs: right_sort_exprs.deep_view(),
            },
            OpKind::CrossJoin => OpV::CrossJoin,
            OpKind::NestedLoopJoin { join_type, filter, projection } => OpV::NestedLoopJoin {
                join_type: *join_type,
                filter: filter.deep_view(),
                projection: projection.deep_view(),
            },
            OpKind::Sort { exprs, fetch, preserve_partitioning } => OpV::Sort {
                exprs: exprs.deep_view(),
                fetch: *fetch,
                preserve_partitioning: *preserve_partitioning,
            },
            OpKind::SortPreservingMerge { exprs, fetch } => OpV::SortPreservingMerge {
                exprs: exprs.deep_view(),
                fetch: *fetch,
            },
            OpKind::CoalesceBatches { target_batch_size, fetch } => OpV::CoalesceBatches {
                target_batch_size: *target_batch_size,
                fetch: *fetch,
            },
            OpKind::CoalescePartitions { fetch } => OpV::CoalescePartitions { fetch: *fetch },
            OpKind::Repartition { partitioning } => OpV::Repartition {
                partitioning: partitioning.deep_view(),
            },
            OpKind::GlobalLimit { skip, fetch } => OpV::GlobalLimit {
                skip: *skip,
                fetch: *fetch,
            },
            OpKind::LocalLimit { fetch } => OpV::LocalLimit { fetch: *fetch },
            OpKind::Union => OpV::Union,
            OpKind::Interleave => OpV::Interleave,
            OpKind::Empty { schema } => OpV::Empty { schema: schema.deep_view() },
            OpKind::PlaceholderRow { schema } => OpV::PlaceholderRow {
                schema: schema.deep_view(),
            },
            OpKind::Explain { schema, stringified_plans, verbose } => OpV::Explain {
                schema: schema.deep_view(),
                stringified_plans: stringified_plans.deep_view(),
                verbose: *verbose,
            },
            OpKind::Analyze { verbose, show_statistics, schema } => OpV::Analyze {
                verbose: *verbose,
                show_statistics: *show_statistics,
                schema: schema.deep_view(),
            },
            OpKind::Window { window_exprs, partition_keys, input_order_mode } => OpV::Window {
                window_exprs: window_exprs.deep_view(),
                partition_keys: partition_keys.deep_view(),
                input_order_mode: input_order_mode.deep_view(),
            },
            OpKind::Unnest {
                list_type_columns,
                struct_type_columns,
                schema,
                preserve_nulls,
            } => OpV::Unnest {
                list_type_columns: list_type_columns.deep_view(),
                struct_type_columns: struct_type_columns.deep_view(),
                schema: schema.deep_view(),
                preserve_nulls: *preserve_nulls,
            },
            OpKind::Cooperative => OpV::Cooperative,
            OpKind::CsvScan {
                base_conf,
                has_header,
                delimiter,
                quote,
                escape,
                comment,
                newlines_in_values,
            } => OpV::CsvScan {
                base_conf: base_conf.deep_view(),
                has_header: *has_header,
                delimiter: *delimiter,
                quote: *quote,
                escape: *escape,
                comment: *comment,
                newlines_in_values: *newlines_in_values,
            },
            OpKind::JsonScan { base_conf } => OpV::JsonScan {
                base_conf: base_conf.deep_view(),
            },
            OpKind::ParquetScan { base_conf, predicate, parquet_options } => OpV::ParquetScan {
                base_conf: base_conf.deep_view(),
                predicate: predicate.deep_view(),
                parquet_options: parquet_options@,
            },
            OpKind::AvroScan { base_conf } => OpV::AvroScan {
                base_conf: base_conf.deep_view(),
            },
            OpKind::CsvSink { sink, sink_schema, sort_order } => OpV::CsvSink {
                sink: sink@,
                sink_schema: sink_schema.deep_view(),
                sort_order: sort_order.deep_view(),
            },
            OpKind::JsonSink { sink, sink_schema, sort_order } => OpV::JsonSink {
                sink: sink@,
                sink_schema: sink_schema.deep_view(),
                sort_order: sort_order.deep_view(),
            },
            OpKind::ParquetSink { sink, sink_schema, sort_order } => OpV::ParquetSink {
                sink: sink@,
                sink_schema: sink_schema.deep_view(),
                sort_order: sort_order.deep_view(),
            },
            OpKind::Extension { payload, schema } => OpV::Extension {
                payload: payload@,
                schema: schema.deep_view(),
            },
        }
    }
}

/// A plan node: an operator and its ordered child plans.
#[derive(Debug, PartialEq)]
pub struct Plan {
    pub op: OpKind,
    pub children: Vec<Plan>,
}

/// The mathematical image of a [`Plan`].
pub ghost struct PlanV {
    pub op: OpV,
    pub children: Seq<PlanV>,
}

/// The mathematical image of a plan.  Stated as a standalone function
/// because the tree recurses through a vector.
pub open spec fn plan_view(p: Plan) -> PlanV
    decreases p,
{
    PlanV { op: p.op.deep_view(), children: plans_view(p.children@) }
}

/// The images of a sequence of plans, in order.
pub open spec fn plans_view(s: Seq<Plan>) -> Seq<PlanV>
    decreases s,
{
    if s.len() == 0 {
        Seq::empty()
    } else {
        seq![plan_view(s[0])] + plans_view(s.drop_first())
    }
}

/// Indexing the image of a sequence gives the image of the element.
pub proof fn lemma_plans_view_index(s: Seq<Plan>, i: int)
    requires
        0 <= i < s.len(),
    ensures
        plans_view(s).len() == s.len(),
        plans_view(s)[i] == plan_view(s[i]),
    decreases s,
{
    lemma_plans_view_len(s);
    if i > 0 {
        lemma_plans_view_index(s.drop_first(), i - 1);
        assert(s.drop_first()[i - 1] == s[i]);
    }
}

/// The image of a sequence keeps its length.
pub proof fn lemma_plans_view_len(s: Seq<Plan>)
    ensures
        plans_view(s).len() == s.len(),
    decreases s,
{
    if s.len() > 0 {
        lemma_plans_view_len(s.drop_first());
    }
}

/// Appending a plan appends its image.
pub proof fn lemma_plans_view_push(s: Seq<Plan>, x: Plan)
    ensures
        plans_view(s.push(x)) == plans_view(s).push(plan_view(x)),
    decreases s,
{
    if s.len() == 0 {
        assert(s.push(x)[0] == x);
        assert(s =~= Seq::<Plan>::empty());
        assert(s.push(x).drop_first() =~= Seq::<Plan>::empty());
        assert(plans_view(Seq::<Plan>::empty()) =~= Seq::<PlanV>::empty());
        assert(plans_view(s.push(x)) =~= plans_view(s).push(plan_view(x)));
    } else {
        let l = s.push(x);
        assert(l[0] == s[0]);
        assert(l.drop_first() =~= s.drop_first().push(x));
        lemma_plans_view_push(s.drop_first(), x);
        assert(plans_view(l) == seq![plan_view(s[0])] + plans_view(l.drop_first()));
        assert(plans_view(l.drop_first()) == plans_view(s.drop_first()).push(plan_view(x)));
        assert(plans_view(s) == seq![plan_view(s[0])] + plans_view(s.drop_first()));
        assert(plans_view(l) =~= plans_view(s).push(plan_view(x)));
    }
}

} // verus!
