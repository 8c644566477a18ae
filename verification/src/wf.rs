//! Well-formedness and schema derivation.
//!
//! An operator is well formed when its child count fits its kind, its
//! parameters are shaped correctly, and every expression it carries
//! references only columns of the schema it is resolved against.  The
//! decoder enforces exactly these conditions, so decoding yields only well
//! formed plans; shape violations surface as `Malformed` and resolution
//! violations as `SchemaMismatch`.

use vstd::prelude::*;
use crate::expr::{agg_ok, aggs_ok, expr_nullable, expr_ok, expr_type, exprs_ok, join_filter_ok, opt_exprs_ok, sorts_ok, windows_ok, ExprV, JoinFilterV, SortExprV, WindowExprV, AggExprV};
use crate::plan::{plan_view, plans_view, FileScanConfigV, JoinOnV, JoinType, OpV, PartitioningV, Plan, PlanV};
use crate::schema::{DataType, FieldV, SchemaV};

verus! {

/// The first child schema, or the empty schema for a leaf.
pub open spec fn ks0(ks: Seq<SchemaV>) -> SchemaV {
    if ks.len() >= 1 {
        ks[0]
    } else {
        Seq::empty()
    }
}

/// The second child schema, or the empty schema.
pub open spec fn ks1(ks: Seq<SchemaV>) -> SchemaV {
    if ks.len() >= 2 {
        ks[1]
    } else {
        Seq::empty()
    }
}

/// The stand-in for a field selected by an out-of-range index; it never
/// appears in a well formed plan's schema.
pub open spec fn default_field() -> FieldV {
    FieldV { name: Seq::empty(), data_type: DataType::Boolean, nullable: false }
}

/// The slice of `s` selected by a projection index list.
pub open spec fn project_fields(s: SchemaV, proj: Seq<u64>) -> SchemaV {
    Seq::new(
        proj.len(),
        |i: int|
            if (proj[i] as int) < s.len() {
                s[proj[i] as int]
            } else {
                default_field()
            },
    )
}

/// Applies a projection when one is present; an empty index list means no
/// projection.
pub open spec fn maybe_project(s: SchemaV, proj: Seq<u64>) -> SchemaV {
    if proj.len() == 0 {
        s
    } else {
        project_fields(s, proj)
    }
}

/// Every field forced nullable, as on the outer side of a join.
pub open spec fn force_nullable(s: SchemaV) -> SchemaV {
    Seq::new(
        s.len(),
        |i: int| FieldV { name: s[i].name, data_type: s[i].data_type, nullable: true },
    )
}

/// The row layout a join produces before any projection.
pub open spec fn join_base_schema(jt: JoinType, l: SchemaV, r: SchemaV) -> SchemaV {
    match jt {
        JoinType::Inner => l + r,
        JoinType::Left => l + force_nullable(r),
        JoinType::Right => force_nullable(l) + r,
        JoinType::Full => force_nullable(l) + force_nullable(r),
        JoinType::LeftSemi | JoinType::LeftAnti => l,
        JoinType::RightSemi | JoinType::RightAnti => r,
    }
}

/// The output of a projection: one field per name, typed by the paired
/// expression against the input schema.
pub open spec fn projection_out_schema(
    exprs: Seq<ExprV>,
    names: Seq<Seq<u8>>,
    input: SchemaV,
) -> SchemaV {
    Seq::new(
        names.len(),
        |i: int|
            FieldV {
                name: names[i],
                data_type: if i < exprs.len() {
                    expr_type(exprs[i], input)
                } else {
                    DataType::Boolean
                },
                nullable: if i < exprs.len() {
                    expr_nullable(exprs[i], input)
                } else {
                    false
                },
            },
    )
}

/// One field per aggregate, named by its alias; aggregate results are
/// 64-bit integers of this vocabulary and always nullable.
pub open spec fn agg_out_fields(aggr: Seq<AggExprV>) -> SchemaV {
    Seq::new(
        aggr.len(),
        |i: int| FieldV { name: aggr[i].alias, data_type: DataType::Int64, nullable: true },
    )
}

/// One field per window expression, appended after the input's fields.
pub open spec fn window_out_fields(ws: Seq<WindowExprV>) -> SchemaV {
    Seq::new(
        ws.len(),
        |i: int| FieldV { name: ws[i].alias, data_type: DataType::Int64, nullable: true },
    )
}

/// The schema a leaf scan produces: the file schema cut down by the
/// configured projection.
pub open spec fn scan_schema(c: FileScanConfigV) -> SchemaV {
    maybe_project(c.file_schema, c.projection)
}

/// The single-column row a terminal sink reports: a count of written rows.
pub open spec fn sink_count_schema() -> SchemaV {
    seq![
        FieldV {
            name: seq![99u8, 111u8, 117u8, 110u8, 116u8],
            data_type: DataType::UInt64,
            nullable: false,
        },
    ]
}

/// The two-column rendering an analyze operator produces.
pub open spec fn analyze_out_schema() -> SchemaV {
    seq![
        FieldV {
            name: seq![112u8, 108u8, 97u8, 110u8, 95u8, 116u8, 121u8, 112u8, 101u8],
            data_type: DataType::Utf8,
            nullable: false,
        },
        FieldV {
            name: seq![112u8, 108u8, 97u8, 110u8],
            data_type: DataType::Utf8,
            nullable: false,
        },
    ]
}

/// The output schema of an operator, as a function of its kind and the
/// schemas of its children.
pub open spec fn op_out_schema(op: OpV, ks: Seq<SchemaV>) -> SchemaV {
    match op {
        OpV::Projection { exprs, names } => projection_out_schema(exprs, names, ks0(ks)),
        OpV::Filter { predicate, projection, default_selectivity } => maybe_project(
            ks0(ks),
            projection,
        ),
        OpV::Aggregate { group_exprs, group_names, aggr_exprs, .. } => projection_out_schema(
            group_exprs,
            group_names,
            ks0(ks),
        ) + agg_out_fields(aggr_exprs),
        OpV::HashJoin { join_type, projection, .. } => maybe_project(
            join_base_schema(join_type, ks0(ks), ks1(ks)),
            projection,
        ),
        OpV::SymmetricHashJoin { join_type, .. } => join_base_schema(
            join_type,
            ks0(ks),
            ks1(ks),
        ),
        OpV::CrossJoin => ks0(ks) + ks1(ks),
        OpV::NestedLoopJoin { join_type, projection, .. } => maybe_project(
            join_base_schema(join_type, ks0(ks), ks1(ks)),
            projection,
        ),
        OpV::Sort { .. } => ks0(ks),
        OpV::SortPreservingMerge { .. } => ks0(ks),
        OpV::CoalesceBatches { .. } => ks0(ks),
        OpV::CoalescePartitions { .. } => ks0(ks),
        OpV::Repartition { .. } => ks0(ks),
        OpV::GlobalLimit { .. } => ks0(ks),
        OpV::LocalLimit { .. } => ks0(ks),
        OpV::Union => ks0(ks),
        OpV::Interleave => ks0(ks),
        OpV::Empty { schema } => schema,
        OpV::PlaceholderRow { schema } => schema,
        OpV::Explain { schema, .. } => schema,
        OpV::Analyze { schema, .. } => schema,
        OpV::Window { window_exprs, .. } => ks0(ks) + window_out_fields(window_exprs),
        OpV::Unnest { schema, .. } => schema,
        OpV::Cooperative => ks0(ks),
        OpV::CsvScan { base_conf, .. } => scan_schema(base_conf),
        OpV::JsonScan { base_conf } => scan_schema(base_conf),
        OpV::ParquetScan { base_conf, .. } => scan_schema(base_conf),
        OpV::AvroScan { base_conf } => scan_schema(base_conf),
        OpV::CsvSink { .. } => sink_count_schema(),
        OpV::JsonSink { .. } => sink_count_schema(),
        OpV::ParquetSink { .. } => sink_count_schema(),
        OpV::Extension { schema, .. } => schema,
    }
}

/// The schemas of a sequence of plans, in order.
pub open spec fn kids_schemas(cs: Seq<PlanV>) -> Seq<SchemaV>
    decreases cs,
{
    if cs.len() == 0 {
        Seq::empty()
    } else {
        seq![plan_schema(cs[0])] + kids_schemas(cs.drop_first())
    }
}

/// The output schema of a plan.
pub open spec fn plan_schema(p: PlanV) -> SchemaV
    decreases p,
{
    op_out_schema(p.op, kids_schemas(p.children))
}

pub proof fn lemma_kids_schemas_len(cs: Seq<PlanV>)
    ensures
        kids_schemas(cs).len() == cs.len(),
    decreases cs,
{
    if cs.len() > 0 {
        lemma_kids_schemas_len(cs.drop_first());
    }
}

pub proof fn lemma_kids_schemas_index(cs: Seq<PlanV>, i: int)
    requires
        0 <= i < cs.len(),
    ensures
        kids_schemas(cs).len() == cs.len(),
        kids_schemas(cs)[i] == plan_schema(cs[i]),
    decreases cs,
{
    lemma_kids_schemas_len(cs);
    if i > 0 {
        lemma_kids_schemas_index(cs.drop_first(), i - 1);
        assert(cs.drop_first()[i - 1] == cs[i]);
    }
}

// ---------------------------------------------------------------------------
// Well-formedness
// ---------------------------------------------------------------------------

/// How many children each kind takes.
pub open spec fn op_arity_ok(op: OpV, n: nat) -> bool {
    match op {
        OpV::Projection { .. } => n == 1,
        OpV::Filter { .. } => n == 1,
        OpV::Aggregate { .. } => n == 1,
        OpV::HashJoin { .. } => n == 2,
        OpV::SymmetricHashJoin { .. } => n == 2,
        OpV::CrossJoin => n == 2,
        OpV::NestedLoopJoin { .. } => n == 2,
        OpV::Sort { .. } => n == 1,
        OpV::SortPreservingMerge { .. } => n == 1,
        OpV::CoalesceBatches { .. } => n == 1,
        OpV::CoalescePartitions { .. } => n == 1,
        OpV::Repartition { .. } => n == 1,
        OpV::GlobalLimit { .. } => n == 1,
        OpV::LocalLimit { .. } => n == 1,
        OpV::Union => n >= 1,
        OpV::Interleave => n >= 1,
        OpV::Empty { .. } => n == 0,
        OpV::PlaceholderRow { .. } => n == 0,
        OpV::Explain { .. } => n == 0,
        OpV::Analyze { .. } => n == 1,
        OpV::Window { .. } => n == 1,
        OpV::Unnest { .. } => n == 1,
        OpV::Cooperative => n == 1,
        OpV::CsvScan { .. } => n == 0,
        OpV::JsonScan { .. } => n == 0,
        OpV::ParquetScan { .. } => n == 0,
        OpV::AvroScan { .. } => n == 0,
        OpV::CsvSink { .. } => n == 1,
        OpV::JsonSink { .. } => n == 1,
        OpV::ParquetSink { .. } => n == 1,
        OpV::Extension { .. } => true,
    }
}

/// Every row of a grouping-set matrix is as wide as the group-by list.
pub open spec fn groups_rows_ok(groups: Seq<Seq<bool>>, w: nat) -> bool {
    forall|r: int| 0 <= r < groups.len() ==> (#[trigger] groups[r]).len() == w
}

/// A bound carried in a signed 64-bit wire slot must fit it.
pub open spec fn fetch_bounded(f: Option<u64>) -> bool {
    f is Some ==> f->Some_0 <= i64::MAX as u64
}

/// Parameter shape: parallel arrays of equal length, flags in range, and a
/// sort that actually orders something.  A violation is a malformed node.
pub open spec fn op_shape_ok(op: OpV) -> bool {
    match op {
        OpV::Projection { exprs, names } => names.len() == exprs.len(),
        OpV::Filter { default_selectivity, .. } => default_selectivity <= 100,
        OpV::Aggregate {
            group_exprs,
            group_names,
            null_exprs,
            groups,
            aggr_exprs,
            filter_exprs,
            ..
        } => {
            &&& group_names.len() == group_exprs.len()
            &&& null_exprs.len() == group_exprs.len()
            &&& filter_exprs.len() == aggr_exprs.len()
            &&& groups_rows_ok(groups, group_exprs.len())
            &&& (group_exprs.len() == 0 ==> groups.len() == 0)
        },
        OpV::Sort { exprs, fetch, .. } => exprs.len() >= 1 && fetch_bounded(fetch),
        OpV::SortPreservingMerge { exprs, fetch } => exprs.len() >= 1 && fetch_bounded(
            fetch,
        ),
        OpV::GlobalLimit { fetch, .. } => fetch_bounded(fetch),
        _ => true,
    }
}

/// Every projection index addresses a column of a schema of `n` fields.
pub open spec fn proj_ok(proj: Seq<u64>, n: nat) -> bool {
    forall|i: int| 0 <= i < proj.len() ==> (#[trigger] proj[i] as nat) < n
}

/// Both sides of every equi-join key resolve against their input.
pub open spec fn on_ok(on: Seq<JoinOnV>, n0: nat, n1: nat) -> bool {
    forall|k: int|
        0 <= k < on.len() ==> expr_ok((#[trigger] on[k]).left, n0) && expr_ok(
            on[k].right,
            n1,
        )
}

pub open spec fn filter_opt_ok(f: Option<JoinFilterV>) -> bool {
    f is Some ==> join_filter_ok(f->Some_0)
}

/// Resolution of the operator's expressions against the child schemas it
/// threads them through.  A violation is a schema mismatch.
pub open spec fn op_ctx_ok(op: OpV, ks: Seq<SchemaV>) -> bool {
    let n0 = ks0(ks).len();
    let n1 = ks1(ks).len();
    match op {
        OpV::Projection { exprs, .. } => exprs_ok(exprs, n0),
        OpV::Filter { predicate, projection, .. } => {
            if projection.len() == 0 {
                expr_ok(predicate, n0)
            } else {
                expr_ok(predicate, projection.len()) && proj_ok(projection, n0)
            }
        },
        OpV::Aggregate { group_exprs, null_exprs, aggr_exprs, filter_exprs, input_schema, .. } => {
            &&& exprs_ok(group_exprs, n0)
            &&& exprs_ok(null_exprs, n0)
            &&& aggs_ok(aggr_exprs, input_schema.len())
            &&& opt_exprs_ok(filter_exprs, input_schema.len())
        },
        OpV::HashJoin { on, join_type, filter, projection, .. } => {
            &&& on_ok(on, n0, n1)
            &&& filter_opt_ok(filter)
            &&& proj_ok(projection, join_base_schema(join_type, ks0(ks), ks1(ks)).len())
        },
        OpV::SymmetricHashJoin { on, filter, left_sort_exprs, right_sort_exprs, .. } => {
            &&& on_ok(on, n0, n1)
            &&& filter_opt_ok(filter)
            &&& sorts_ok(left_sort_exprs, n0)
            &&& sorts_ok(right_sort_exprs, n1)
        },
        OpV::NestedLoopJoin { join_type, filter, projection } => {
            &&& filter_opt_ok(filter)
            &&& proj_ok(projection, join_base_schema(join_type, ks0(ks), ks1(ks)).len())
        },
        OpV::Sort { exprs, .. } => sorts_ok(exprs, n0),
        OpV::SortPreservingMerge { exprs, .. } => sorts_ok(exprs, n0),
        OpV::Repartition { partitioning } => match partitioning {
            PartitioningV::Hash { exprs, .. } => exprs_ok(exprs, n0),
            _ => true,
        },
        OpV::Analyze { schema, .. } => schema == analyze_out_schema(),
        OpV::Window { window_exprs, partition_keys, .. } => windows_ok(window_exprs, n0)
            && exprs_ok(partition_keys, n0),
        OpV::CsvScan { base_conf, .. } => proj_ok(
            base_conf.projection,
            base_conf.file_schema.len(),
        ),
        OpV::JsonScan { base_conf } => proj_ok(
            base_conf.projection,
            base_conf.file_schema.len(),
        ),
        OpV::ParquetScan { base_conf, predicate, .. } => {
            &&& proj_ok(base_conf.projection, base_conf.file_schema.len())
            &&& (predicate is Some ==> expr_ok(predicate->Some_0, scan_schema(base_conf).len()))
        },
        OpV::AvroScan { base_conf } => proj_ok(
            base_conf.projection,
            base_conf.file_schema.len(),
        ),
        OpV::CsvSink { sort_order, .. } => match sort_order {
            Some(xs) => sorts_ok(xs, n0),
            None => true,
        },
        OpV::JsonSink { sort_order, .. } => match sort_order {
            Some(xs) => sorts_ok(xs, n0),
            None => true,
        },
        OpV::ParquetSink { sort_order, .. } => match sort_order {
            Some(xs) => sorts_ok(xs, n0),
            None => true,
        },
        _ => true,
    }
}

/// All plans of a sequence are well formed.
pub open spec fn plans_wf(cs: Seq<PlanV>) -> bool
    decreases cs,
{
    if cs.len() == 0 {
        true
    } else {
        plan_wf(cs[0]) && plans_wf(cs.drop_first())
    }
}

/// A plan is well formed: right child count, well shaped parameters,
/// expressions resolved against the child schemas, and well formed
/// children.
pub open spec fn plan_wf(p: PlanV) -> bool
    decreases p,
{
    &&& op_arity_ok(p.op, p.children.len())
    &&& op_shape_ok(p.op)
    &&& op_ctx_ok(p.op, kids_schemas(p.children))
    &&& plans_wf(p.children)
}

pub proof fn lemma_plans_wf_index(cs: Seq<PlanV>, i: int)
    requires
        plans_wf(cs),
        0 <= i < cs.len(),
    ensures
        plan_wf(cs[i]),
    decreases cs,
{
    if i > 0 {
        lemma_plans_wf_index(cs.drop_first(), i - 1);
        assert(cs.drop_first()[i - 1] == cs[i]);
    }
}

pub proof fn lemma_plans_wf_push(cs: Seq<PlanV>, x: PlanV)
    requires
        plans_wf(cs),
        plan_wf(x),
    ensures
        plans_wf(cs.push(x)),
    decreases cs,
{
    if cs.len() == 0 {
        assert(cs.push(x)[0] == x);
        assert(cs.push(x).drop_first() =~= Seq::<PlanV>::empty());
        assert(plans_wf(Seq::<PlanV>::empty()));
    } else {
        assert(cs.push(x)[0] == cs[0]);
        assert(cs.push(x).drop_first() =~= cs.drop_first().push(x));
        lemma_plans_wf_push(cs.drop_first(), x);
    }
}

} // verus!
