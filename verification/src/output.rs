//! Executable schema derivation, proved against the spec-level rules.

use vstd::prelude::*;
use crate::expr::{expr_field, AggExpr, Expr, WindowExpr};
use crate::plan::{plan_view, plans_view, FileScanConfig, JoinType, OpKind, Plan};
use crate::schema::{copy_field, copy_schema, DataType, Field, Schema};
use crate::views::lemma_deep_view_push;
use crate::wf::{agg_out_fields, analyze_out_schema, force_nullable, join_base_schema, kids_schemas, ks0, ks1, lemma_kids_schemas_index, lemma_kids_schemas_len, maybe_project, op_out_schema, plan_schema, project_fields, projection_out_schema, scan_schema, sink_count_schema, window_out_fields};

verus! {

broadcast use crate::views::lemma_deep_view_len, crate::views::lemma_deep_view_index, crate::views::lemma_bytes_deep_view;

/// An empty schema.
pub fn empty_schema() -> (r: Schema)
    ensures
        r.deep_view() =~= Seq::<crate::schema::FieldV>::empty(),
{
    Schema { fields: Vec::new() }
}

/// The first child schema, copied, or the empty schema for a leaf.
fn child0(ks: &Vec<Schema>) -> (r: Schema)
    ensures
        r.deep_view() == ks0(ks.deep_view()),
{
    if ks.len() >= 1 {
        copy_schema(&ks[0])
    } else {
        empty_schema()
    }
}

fn child1(ks: &Vec<Schema>) -> (r: Schema)
    ensures
        r.deep_view() == ks1(ks.deep_view()),
{
    if ks.len() >= 2 {
        copy_schema(&ks[1])
    } else {
        empty_schema()
    }
}

/// Appends copies of `b`'s fields to `a`.
fn append_schema(a: &mut Schema, b: &Schema)
    ensures
        final(a).deep_view() == old(a).deep_view() + b.deep_view(),
{
    let ghost goal = old(a).deep_view() + b.deep_view();
    let mut k: usize = 0;
    while k < b.fields.len()
        invariant
            k <= b.fields@.len(),
            a.deep_view() == old(a).deep_view() + b.deep_view().subrange(0, k as int),
        decreases b.fields@.len() - k,
    {
        let f = copy_field(&b.fields[k]);
        let ghost pre = a.fields;
        let ghost fx = f;
        a.fields.push(f);
        proof {
            lemma_deep_view_push(a.fields, pre, fx);
            assert(a.deep_view() =~= old(a).deep_view() + b.deep_view().subrange(
                0,
                k + 1 as int,
            ));
        }
        k = k + 1;
    }
    proof {
        assert(a.deep_view() =~= old(a).deep_view() + b.deep_view());
    }
}

/// The slice of `s` selected by a projection index list.
fn project_schema(s: &Schema, proj: &Vec<u64>) -> (r: Schema)
    ensures
        r.deep_view() == project_fields(s.deep_view(), proj.deep_view()),
{
    let mut fields: Vec<Field> = Vec::new();
    let mut k: usize = 0;
    while k < proj.len()
        invariant
            k <= proj@.len(),
            fields.deep_view() =~= project_fields(s.deep_view(), proj.deep_view()).subrange(
                0,
                k as int,
            ),
        decreases proj@.len() - k,
    {
        let f = if proj[k] < s.fields.len() as u64 {
            copy_field(&s.fields[proj[k] as usize])
        } else {
            Field { name: Vec::new(), data_type: DataType::Boolean, nullable: false }
        };
        let ghost pre = fields;
        let ghost fx = f;
        fields.push(f);
        proof {
            lemma_deep_view_push(fields, pre, fx);
            assert(fields.deep_view() =~= project_fields(
                s.deep_view(),
                proj.deep_view(),
            ).subrange(0, k + 1 as int));
        }
        k = k + 1;
    }
    proof {
        assert(fields.deep_view() =~= project_fields(s.deep_view(), proj.deep_view()));
    }
    Schema { fields }
}

/// Applies a projection when the index list is not empty.
fn apply_projection(s: Schema, proj: &Vec<u64>) -> (r: Schema)
    ensures
        r.deep_view() == maybe_project(s.deep_view(), proj.deep_view()),
{
    if proj.len() == 0 {
        s
    } else {
        project_schema(&s, proj)
    }
}

/// Copies a schema with every field forced nullable.
fn nullable_schema(s: &Schema) -> (r: Schema)
    ensures
        r.deep_view() == force_nullable(s.deep_view()),
{
    let mut fields: Vec<Field> = Vec::new();
    let mut k: usize = 0;
    while k < s.fields.len()
        invariant
            k <= s.fields@.len(),
            fields.deep_view() =~= force_nullable(s.deep_view()).subrange(0, k as int),
        decreases s.fields@.len() - k,
    {
        let f = Field {
            name: crate::schema::copy_bytes(&s.fields[k].name),
            data_type: s.fields[k].data_type,
            nullable: true,
        };
        let ghost pre = fields;
        let ghost fx = f;
        fields.push(f);
        proof {
            lemma_deep_view_push(fields, pre, fx);
            assert(fields.deep_view() =~= force_nullable(s.deep_view()).subrange(
                0,
                k + 1 as int,
            ));
        }
        k = k + 1;
    }
    proof {
        assert(fields.deep_view() =~= force_nullable(s.deep_view()));
    }
    Schema { fields }
}

/// The row layout a join produces before any projection.
fn join_base(jt: JoinType, l: &Schema, r: &Schema) -> (out: Schema)
    ensures
        out.deep_view() == join_base_schema(jt, l.deep_view(), r.deep_view()),
{
    match jt {
        JoinType::Inner => {
            let mut s = copy_schema(l);
            append_schema(&mut s, r);
            s
        },
        JoinType::Left => {
            let mut s = copy_schema(l);
            let rn = nullable_schema(r);
            append_schema(&mut s, &rn);
            s
        },
        JoinType::Right => {
            let mut s = nullable_schema(l);
            append_schema(&mut s, r);
            s
        },
        JoinType::Full => {
            let mut s = nullable_schema(l);
            let rn = nullable_schema(r);
            append_schema(&mut s, &rn);
            s
        },
        JoinType::LeftSemi | JoinType::LeftAnti => copy_schema(l),
        JoinType::RightSemi | JoinType::RightAnti => copy_schema(r),
    }
}

/// The output of a projection-style pair of expression and name arrays.
fn projection_out(exprs: &Vec<Expr>, names: &Vec<Vec<u8>>, input: &Schema) -> (r: Schema)
    ensures
        r.deep_view() == projection_out_schema(
            exprs.deep_view(),
            names.deep_view(),
            input.deep_view(),
        ),
{
    let ghost goal = projection_out_schema(
        exprs.deep_view(),
        names.deep_view(),
        input.deep_view(),
    );
    let mut fields: Vec<Field> = Vec::new();
    let mut k: usize = 0;
    while k < names.len()
        invariant
            k <= names@.len(),
            goal == projection_out_schema(
                exprs.deep_view(),
                names.deep_view(),
                input.deep_view(),
            ),
            names@.len() == names.deep_view().len(),
            fields.deep_view() =~= goal.subrange(0, k as int),
        decreases names@.len() - k,
    {
        let (dt, nb) = if k < exprs.len() {
            expr_field(&exprs[k], input)
        } else {
            (DataType::Boolean, false)
        };
        let f = Field { name: crate::schema::copy_bytes(&names[k]), data_type: dt, nullable: nb };
        let ghost pre = fields;
        let ghost fx = f;
        fields.push(f);
        proof {
            lemma_deep_view_push(fields, pre, fx);
            assert(fields.deep_view() =~= goal.subrange(0, k + 1 as int));
        }
        k = k + 1;
    }
    proof {
        assert(fields.deep_view() =~= goal);
    }
    Schema { fields }
}

/// One 64-bit, nullable field per aggregate, named by its alias.
fn agg_out(aggr: &Vec<AggExpr>) -> (r: Schema)
    ensures
        r.deep_view() == agg_out_fields(aggr.deep_view()),
{
    let ghost goal = agg_out_fields(aggr.deep_view());
    let mut fields: Vec<Field> = Vec::new();
    let mut k: usize = 0;
    while k < aggr.len()
        invariant
            k <= aggr@.len(),
            goal == agg_out_fields(aggr.deep_view()),
            fields.deep_view() =~= goal.subrange(0, k as int),
        decreases aggr@.len() - k,
    {
        let f = Field {
            name: crate::schema::copy_bytes(&aggr[k].alias),
            data_type: DataType::Int64,
            nullable: true,
        };
        let ghost pre = fields;
        let ghost fx = f;
        fields.push(f);
        proof {
            lemma_deep_view_push(fields, pre, fx);
            assert(fields.deep_view() =~= goal.subrange(0, k + 1 as int));
        }
        k = k + 1;
    }
    proof {
        assert(fields.deep_view() =~= goal);
    }
    Schema { fields }
}

/// One 64-bit, nullable field per window expression.
fn window_out(ws: &Vec<WindowExpr>) -> (r: Schema)
    ensures
        r.deep_view() == window_out_fields(ws.deep_view()),
{
    let ghost goal = window_out_fields(ws.deep_view());
    let mut fields: Vec<Field> = Vec::new();
    let mut k: usize = 0;
    while k < ws.len()
        invariant
            k <= ws@.len(),
            goal == window_out_fields(ws.deep_view()),
            fields.deep_view() =~= goal.subrange(0, k as int),
        decreases ws@.len() - k,
    {
        let f = Field {
            name: crate::schema::copy_bytes(&ws[k].alias),
            data_type: DataType::Int64,
            nullable: true,
        };
        let ghost pre = fields;
        let ghost fx = f;
        fields.push(f);
        proof {
            lemma_deep_view_push(fields, pre, fx);
            assert(fields.deep_view() =~= goal.subrange(0, k + 1 as int));
        }
        k = k + 1;
    }
    proof {
        assert(fields.deep_view() =~= goal);
    }
    Schema { fields }
}

/// The schema a leaf scan produces.
fn scan_out(c: &FileScanConfig) -> (r: Schema)
    ensures
        r.deep_view() == scan_schema(c.deep_view()),
{
    let s = copy_schema(&c.file_schema);
    apply_projection(s, &c.projection)
}

/// The single-column count row a terminal sink reports.
pub fn sink_schema() -> (r: Schema)
    ensures
        r.deep_view() == sink_count_schema(),
{
    let mut name: Vec<u8> = Vec::new();
    name.push(99);
    name.push(111);
    name.push(117);
    name.push(110);
    name.push(116);
    assert(name@ =~= seq![99u8, 111u8, 117u8, 110u8, 116u8]);
    let mut fields: Vec<Field> = Vec::new();
    fields.push(Field { name, data_type: DataType::UInt64, nullable: false });
    proof {
        assert(fields.deep_view() =~= sink_count_schema());
    }
    Schema { fields }
}

/// The two-column rendering an analyze operator produces.
pub fn analyze_schema() -> (r: Schema)
    ensures
        r.deep_view() == analyze_out_schema(),
{
    let mut n1: Vec<u8> = Vec::new();
    n1.push(112);
    n1.push(108);
    n1.push(97);
    n1.push(110);
    n1.push(95);
    n1.push(116);
    n1.push(121);
    n1.push(112);
    n1.push(101);
    assert(n1@ =~= seq![112u8, 108u8, 97u8, 110u8, 95u8, 116u8, 121u8, 112u8, 101u8]);
    let mut n2: Vec<u8> = Vec::new();
    n2.push(112);
    n2.push(108);
    n2.push(97);
    n2.push(110);
    assert(n2@ =~= seq![112u8, 108u8, 97u8, 110u8]);
    let mut fields: Vec<Field> = Vec::new();
    fields.push(Field { name: n1, data_type: DataType::Utf8, nullable: false });
    fields.push(Field { name: n2, data_type: DataType::Utf8, nullable: false });
    proof {
        assert(fields.deep_view() =~= analyze_out_schema());
    }
    Schema { fields }
}

/// The output schema of an operator, from its kind and the child schemas.
pub fn op_output_schema(op: &OpKind, ks: &Vec<Schema>) -> (r: Schema)
    ensures
        r.deep_view() == op_out_schema(op.deep_view(), ks.deep_view()),
{
    match op {
        OpKind::Projection { exprs, names } => {
            let c0 = child0(ks);
            projection_out(exprs, names, &c0)
        },
        OpKind::Filter { projection, .. } => {
            let c0 = child0(ks);
            apply_projection(c0, projection)
        },
        OpKind::Aggregate { group_exprs, group_names, aggr_exprs, .. } => {
            let c0 = child0(ks);
            let mut s = projection_out(group_exprs, group_names, &c0);
            let a = agg_out(aggr_exprs);
            append_schema(&mut s, &a);
            s
        },
        OpKind::HashJoin { join_type, projection, .. } => {
            let c0 = child0(ks);
            let c1 = child1(ks);
            let base = join_base(*join_type, &c0, &c1);
            apply_projection(base, projection)
        },
        OpKind::SymmetricHashJoin { join_type, .. } => {
            let c0 = child0(ks);
            let c1 = child1(ks);
            join_base(*join_type, &c0, &c1)
        },
        OpKind::CrossJoin => {
            let mut c0 = child0(ks);
            let c1 = child1(ks);
            append_schema(&mut c0, &c1);
            c0
        },
        OpKind::NestedLoopJoin { join_type, projection, .. } => {
            let c0 = child0(ks);
            let c1 = child1(ks);
            let base = join_base(*join_type, &c0, &c1);
            apply_projection(base, projection)
        },
        OpKind::Sort { .. } => child0(ks),
        OpKind::SortPreservingMerge { .. } => child0(ks),
        OpKind::CoalesceBatches { .. } => child0(ks),
        OpKind::CoalescePartitions { .. } => child0(ks),
        OpKind::Repartition { .. } => child0(ks),
        OpKind::GlobalLimit { .. } => child0(ks),
        OpKind::LocalLimit { .. } => child0(ks),
        OpKind::Union => child0(ks),
        OpKind::Interleave => child0(ks),
        OpKind::Empty { schema } => copy_schema(schema),
        OpKind::PlaceholderRow { schema } => copy_schema(schema),
        OpKind::Explain { schema, .. } => copy_schema(schema),
        OpKind::Analyze { schema, .. } => copy_schema(schema),
        OpKind::Window { window_exprs, .. } => {
            let mut c0 = child0(ks);
            let w = window_out(window_exprs);
            append_schema(&mut c0, &w);
            c0
        },
        OpKind::Unnest { schema, .. } => copy_schema(schema),
        OpKind::Cooperative => child0(ks),
        OpKind::CsvScan { base_conf, .. } => scan_out(base_conf),
        OpKind::JsonScan { base_conf } => scan_out(base_conf),
        OpKind::ParquetScan { base_conf, .. } => scan_out(base_conf),
        OpKind::AvroScan { base_conf } => scan_out(base_conf),
        OpKind::CsvSink { .. } => sink_schema(),
        OpKind::JsonSink { .. } => sink_schema(),
        OpKind::ParquetSink { .. } => sink_schema(),
        OpKind::Extension { schema, .. } => copy_schema(schema),
    }
}

/// The output schema of a plan, derived child-first.
pub fn schema_of(p: &Plan) -> (r: Schema)
    ensures
        r.deep_view() == plan_schema(plan_view(*p)),
    decreases *p,
{
    let mut ks: Vec<Schema> = Vec::new();
    let mut k: usize = 0;
    while k < p.children.len()
        invariant
            k <= p.children@.len(),
            ks@.len() == k,
            forall|m: int|
                0 <= m < k ==> #[trigger] ks.deep_view()[m] == plan_schema(
                    plan_view(p.children@[m]),
                ),
        decreases p.children@.len() - k,
    {
        proof {
            crate::plan::lemma_plans_view_index(p.children@, k as int);
        }
        let s = schema_of(&p.children[k]);
        let ghost pre = ks;
        let ghost sx = s;
        ks.push(s);
        proof {
            lemma_deep_view_push(ks, pre, sx);
        }
        k = k + 1;
    }
    proof {
        crate::plan::lemma_plans_view_len(p.children@);
        lemma_kids_schemas_len(plans_view(p.children@));
        assert forall|m: int| 0 <= m < p.children@.len() implies #[trigger] ks.deep_view()[m]
            == kids_schemas(plans_view(p.children@))[m] by {
            lemma_kids_schemas_index(plans_view(p.children@), m);
            crate::plan::lemma_plans_view_index(p.children@, m);
        }
        assert(ks.deep_view() =~= kids_schemas(plans_view(p.children@)));
    }
    op_output_schema(&p.op, &ks)
}

} // verus!
