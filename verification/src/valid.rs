//! Executable well-formedness checks, proved against the spec-level rules.
//! The decoder runs exactly these, so everything it hands back is well
//! formed.

use vstd::prelude::*;
use crate::expr::{check_aggs, check_expr, check_exprs, check_opt_exprs, check_sorts, check_windows, JoinFilter, SortExpr};
use crate::plan::{JoinOn, JoinType, OpKind, Partitioning};
use crate::schema::{schema_eq, Schema};
use crate::wf::{analyze_out_schema, filter_opt_ok, join_base_schema, ks0, ks1, on_ok, op_arity_ok, op_ctx_ok, op_shape_ok, proj_ok};

verus! {

broadcast use crate::views::lemma_deep_view_len, crate::views::lemma_deep_view_index, crate::views::lemma_bytes_deep_view;

/// Checks the child count an operator kind takes.
pub fn check_arity(op: &OpKind, n: usize) -> (r: bool)
    ensures
        r == op_arity_ok(op.deep_view(), n as nat),
{
    match op {
        OpKind::Projection { .. }
        | OpKind::Filter { .. }
        | OpKind::Aggregate { .. }
        | OpKind::Sort { .. }
        | OpKind::SortPreservingMerge { .. }
        | OpKind::CoalesceBatches { .. }
        | OpKind::CoalescePartitions { .. }
        | OpKind::Repartition { .. }
        | OpKind::GlobalLimit { .. }
        | OpKind::LocalLimit { .. }
        | OpKind::Analyze { .. }
        | OpKind::Window { .. }
        | OpKind::Unnest { .. }
        | OpKind::Cooperative
        | OpKind::CsvSink { .. }
        | OpKind::JsonSink { .. }
        | OpKind::ParquetSink { .. } => n == 1,
        OpKind::HashJoin { .. }
        | OpKind::SymmetricHashJoin { .. }
        | OpKind::CrossJoin
        | OpKind::NestedLoopJoin { .. } => n == 2,
        OpKind::Union | OpKind::Interleave => n >= 1,
        OpKind::Empty { .. }
        | OpKind::PlaceholderRow { .. }
        | OpKind::Explain { .. }
        | OpKind::CsvScan { .. }
        | OpKind::JsonScan { .. }
        | OpKind::ParquetScan { .. }
        | OpKind::AvroScan { .. } => n == 0,
        OpKind::Extension { .. } => true,
    }
}

/// Checks parameter shape: parallel array lengths, flag ranges, and the
/// non-empty sort requirement.
#[verifier::loop_isolation(false)]
pub fn check_shape(op: &OpKind) -> (r: bool)
    ensures
        r == op_shape_ok(op.deep_view()),
{
    match op {
        OpKind::Projection { exprs, names } => names.len() == exprs.len(),
        OpKind::Filter { default_selectivity, .. } => *default_selectivity <= 100,
        OpKind::Aggregate {
            group_exprs,
            group_names,
            null_exprs,
            groups,
            aggr_exprs,
            filter_exprs,
            ..
        } => {
            if group_names.len() != group_exprs.len() || null_exprs.len()
                != group_exprs.len() || filter_exprs.len() != aggr_exprs.len() {
                return false;
            }
            if group_exprs.len() == 0 && groups.len() != 0 {
                return false;
            }
            check_groups(groups, group_exprs.len())
        },
        OpKind::Sort { exprs, fetch, .. } => {
            let bounded = match fetch {
                Some(f) => *f <= i64::MAX as u64,
                None => true,
            };
            exprs.len() >= 1 && bounded
        },
        OpKind::SortPreservingMerge { exprs, fetch } => {
            let bounded = match fetch {
                Some(f) => *f <= i64::MAX as u64,
                None => true,
            };
            exprs.len() >= 1 && bounded
        },
        OpKind::GlobalLimit { fetch, .. } => match fetch {
            Some(f) => *f <= i64::MAX as u64,
            None => true,
        },
        _ => true,
    }
}

/// Checks that every grouping-set row is as wide as the group-by list.
fn check_groups(groups: &Vec<Vec<bool>>, w: usize) -> (r: bool)
    ensures
        r == crate::wf::groups_rows_ok(groups.deep_view(), w as nat),
{
    let mut k: usize = 0;
    while k < groups.len()
        invariant
            k <= groups@.len(),
            forall|m: int|
                0 <= m < k ==> (#[trigger] groups.deep_view()[m]).len() == w as nat,
        decreases groups@.len() - k,
    {
        if groups[k].len() != w {
            proof {
                let gs = groups.deep_view();
                assert(gs[k as int].len() != w as nat);
                assert(!crate::wf::groups_rows_ok(gs, w as nat));
            }
            return false;
        }
        k = k + 1;
    }
    true
}

/// Checks that every projection index is below `n`.
fn check_proj(proj: &Vec<u64>, n: u128) -> (r: bool)
    ensures
        r == proj_ok(proj.deep_view(), n as nat),
{
    let mut k: usize = 0;
    while k < proj.len()
        invariant
            k <= proj@.len(),
            forall|m: int| 0 <= m < k ==> (#[trigger] proj.deep_view()[m] as nat) < n as nat,
        decreases proj@.len() - k,
    {
        if proj[k] as u128 >= n {
            proof {
                assert(!((proj.deep_view()[k as int] as nat) < n as nat));
            }
            return false;
        }
        k = k + 1;
    }
    true
}

/// Checks both sides of every equi-join key.
fn check_on(on: &Vec<JoinOn>, n0: usize, n1: usize) -> (r: bool)
    ensures
        r == on_ok(on.deep_view(), n0 as nat, n1 as nat),
{
    let mut k: usize = 0;
    while k < on.len()
        invariant
            k <= on@.len(),
            forall|m: int|
                0 <= m < k ==> crate::expr::expr_ok(
                    (#[trigger] on.deep_view()[m]).left,
                    n0 as nat,
                ) && crate::expr::expr_ok(on.deep_view()[m].right, n1 as nat),
        decreases on@.len() - k,
    {
        if !(check_expr(&on[k].left, n0) && check_expr(&on[k].right, n1)) {
            proof {
                let v = on.deep_view()[k as int];
                assert(!(crate::expr::expr_ok(v.left, n0 as nat) && crate::expr::expr_ok(
                    v.right,
                    n1 as nat,
                )));
            }
            return false;
        }
        k = k + 1;
    }
    true
}

/// Checks a join filter against its own embedded schema.
fn check_filter_opt(f: &Option<JoinFilter>) -> (r: bool)
    ensures
        r == filter_opt_ok(f.deep_view()),
{
    match f {
        None => true,
        Some(jf) => check_expr(&jf.expression, jf.schema.fields.len()),
    }
}

/// Checks an optional sink sort order against the input schema length.
fn check_sort_opt(so: &Option<Vec<SortExpr>>, n: usize) -> (r: bool)
    ensures
        r == match so.deep_view() {
            Some(xs) => crate::expr::sorts_ok(xs, n as nat),
            None => true,
        },
{
    match so {
        None => true,
        Some(xs) => check_sorts(xs, n),
    }
}

/// Checks the operator's expressions against the child schemas.
pub fn check_ctx(op: &OpKind, ks: &Vec<Schema>) -> (r: bool)
    ensures
        r == op_ctx_ok(op.deep_view(), ks.deep_view()),
{
    let n0: usize = if ks.len() >= 1 {
        ks[0].fields.len()
    } else {
        0
    };
    let n1: usize = if ks.len() >= 2 {
        ks[1].fields.len()
    } else {
        0
    };
    proof {
        assert(n0 as nat == ks0(ks.deep_view()).len());
        assert(n1 as nat == ks1(ks.deep_view()).len());
    }
    match op {
        OpKind::Projection { exprs, .. } => check_exprs(exprs, n0),
        OpKind::Filter { predicate, projection, .. } => {
            if projection.len() == 0 {
                check_expr(predicate, n0)
            } else {
                check_expr(predicate, projection.len()) && check_proj(
                    projection,
                    n0 as u128,
                )
            }
        },
        OpKind::Aggregate { group_exprs, null_exprs, aggr_exprs, filter_exprs, input_schema, .. } => {
            let ni = input_schema.fields.len();
            check_exprs(group_exprs, n0) && check_exprs(null_exprs, n0) && check_aggs(
                aggr_exprs,
                ni,
            ) && check_opt_exprs(filter_exprs, ni)
        },
        OpKind::HashJoin { on, join_type, filter, projection, .. } => {
            let base_len: u128 = join_len(*join_type, n0, n1);
            proof {
                assert(base_len as nat == join_base_schema(
                    *join_type,
                    ks0(ks.deep_view()),
                    ks1(ks.deep_view()),
                ).len());
            }
            check_on(on, n0, n1) && check_filter_opt(filter) && check_proj(
                projection,
                base_len,
            )
        },
        OpKind::SymmetricHashJoin { on, filter, left_sort_exprs, right_sort_exprs, .. } => {
            check_on(on, n0, n1) && check_filter_opt(filter) && check_sorts(
                left_sort_exprs,
                n0,
            ) && check_sorts(right_sort_exprs, n1)
        },
        OpKind::NestedLoopJoin { join_type, filter, projection } => {
            let base_len: u128 = join_len(*join_type, n0, n1);
            proof {
                assert(base_len as nat == join_base_schema(
                    *join_type,
                    ks0(ks.deep_view()),
                    ks1(ks.deep_view()),
                ).len());
            }
            check_filter_opt(filter) && check_proj(projection, base_len)
        },
        OpKind::Sort { exprs, .. } => check_sorts(exprs, n0),
        OpKind::SortPreservingMerge { exprs, .. } => check_sorts(exprs, n0),
        OpKind::Repartition { partitioning } => match partitioning {
            Partitioning::Hash { exprs, .. } => check_exprs(exprs, n0),
            _ => true,
        },
        OpKind::Analyze { schema, .. } => {
            let expected = crate::output::analyze_schema();
            schema_eq(schema, &expected)
        },
        OpKind::Window { window_exprs, partition_keys, .. } => check_windows(
            window_exprs,
            n0,
        ) && check_exprs(partition_keys, n0),
        OpKind::CsvScan { base_conf, .. } => check_proj(
            &base_conf.projection,
            base_conf.file_schema.fields.len() as u128,
        ),
        OpKind::JsonScan { base_conf } => check_proj(
            &base_conf.projection,
            base_conf.file_schema.fields.len() as u128,
        ),
        OpKind::ParquetScan { base_conf, predicate, .. } => {
            let scan_len: usize = if base_conf.projection.len() == 0 {
                base_conf.file_schema.fields.len()
            } else {
                base_conf.projection.len()
            };
            let pred_ok = match predicate {
                None => true,
                Some(e) => check_expr(e, scan_len),
            };
            check_proj(&base_conf.projection, base_conf.file_schema.fields.len() as u128)
                && pred_ok
        },
        OpKind::AvroScan { base_conf } => check_proj(
            &base_conf.projection,
            base_conf.file_schema.fields.len() as u128,
        ),
        OpKind::CsvSink { sort_order, .. } => check_sort_opt(sort_order, n0),
        OpKind::JsonSink { sort_order, .. } => check_sort_opt(sort_order, n0),
        OpKind::ParquetSink { sort_order, .. } => check_sort_opt(sort_order, n0),
        _ => true,
    }
}

/// The field count of the row layout a join produces.
fn join_len(jt: JoinType, n0: usize, n1: usize) -> (r: u128)
    ensures
        match jt {
            JoinType::Inner | JoinType::Left | JoinType::Right | JoinType::Full => r == n0
                + n1,
            JoinType::LeftSemi | JoinType::LeftAnti => r == n0,
            JoinType::RightSemi | JoinType::RightAnti => r == n1,
        },
{
    match jt {
        JoinType::Inner | JoinType::Left | JoinType::Right | JoinType::Full => n0 as u128
            + n1 as u128,
        JoinType::LeftSemi | JoinType::LeftAnti => n0 as u128,
        JoinType::RightSemi | JoinType::RightAnti => n1 as u128,
    }
}

} // verus!
