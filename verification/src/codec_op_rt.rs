//! Proof that parsing an operator payload reads the encoder's output
//! back, one lemma per built-in kind.

use vstd::prelude::*;
use crate::codec_groups::{chunk_rows, flatten_rows, lemma_groups_rt};
use crate::codec_op::{lemma_am_rt, lemma_jt_rt, lemma_ne_rt, lemma_opt_sbyte_rt, lemma_pm_rt, lemma_spm_rt, op_fits, op_tag, spec_dec_op_payload, spec_enc_am, spec_enc_jt, spec_enc_ne, spec_enc_op_payload, spec_enc_opt_sbyte, spec_enc_pm, spec_enc_spm};
use crate::error::ErrorKind;
use crate::expr::{AggExpr, Expr, JoinFilter, SortExpr, WindowExpr};
use crate::items::{list_enc, list_rt, opt_enc, opt_rt, WireItem};
use crate::plan::{FileScanConfig, InputOrderMode, JoinOn, ListUnnest, OpV, Partitioning};
use crate::schema::Schema;
use crate::wire::{at, lemma_at_split, lemma_bool_rt, lemma_bytes_rt, lemma_fetch_rt, lemma_single_byte_rt, lemma_varint_rt, spec_enc_bool, spec_enc_bytes, spec_enc_fetch, spec_enc_single_byte, spec_enc_varint};

verus! {

/// Parsing an operator payload at its tag reads the operator back.
pub proof fn lemma_op_rt(s: Seq<u8>, i: int, op: OpV)
    requires
        at(s, i, spec_enc_op_payload(op)),
        op_fits(op),
        crate::wf::op_shape_ok(op),
        !(op is Extension),
    ensures
        spec_dec_op_payload(s, i, op_tag(op)) == Ok::<(OpV, int), ErrorKind>((
            op,
            i + spec_enc_op_payload(op).len(),
        )),
{
    reveal(crate::codec_op::spec_enc_op_payload);
    reveal(crate::codec_op::spec_dec_op_payload);
    match op {
        OpV::Projection { .. } => lemma_op_rt_projection(s, i, op),
        OpV::Filter { .. } => lemma_op_rt_filter(s, i, op),
        OpV::Aggregate { .. } => lemma_op_rt_aggregate(s, i, op),
        OpV::HashJoin { .. } => lemma_op_rt_hashjoin(s, i, op),
        OpV::SymmetricHashJoin { .. } => lemma_op_rt_symmetrichashjoin(s, i, op),
        OpV::CrossJoin { .. } => lemma_op_rt_crossjoin(s, i, op),
        OpV::NestedLoopJoin { .. } => lemma_op_rt_nestedloopjoin(s, i, op),
        OpV::Sort { .. } => lemma_op_rt_sort(s, i, op),
        OpV::SortPreservingMerge { .. } => lemma_op_rt_sortpreservingmerge(s, i, op),
        OpV::CoalesceBatches { .. } => lemma_op_rt_coalescebatches(s, i, op),
        OpV::CoalescePartitions { .. } => lemma_op_rt_coalescepartitions(s, i, op),
        OpV::Repartition { .. } => lemma_op_rt_repartition(s, i, op),
        OpV::GlobalLimit { .. } => lemma_op_rt_globallimit(s, i, op),
        OpV::LocalLimit { .. } => lemma_op_rt_locallimit(s, i, op),
        OpV::Union { .. } => lemma_op_rt_union(s, i, op),
        OpV::Interleave { .. } => lemma_op_rt_interleave(s, i, op),
        OpV::Empty { .. } => lemma_op_rt_empty(s, i, op),
        OpV::PlaceholderRow { .. } => lemma_op_rt_placeholderrow(s, i, op),
        OpV::Explain { .. } => lemma_op_rt_explain(s, i, op),
        OpV::Analyze { .. } => lemma_op_rt_analyze(s, i, op),
        OpV::Window { .. } => lemma_op_rt_window(s, i, op),
        OpV::Unnest { .. } => lemma_op_rt_unnest(s, i, op),
        OpV::Cooperative { .. } => lemma_op_rt_cooperative(s, i, op),
        OpV::CsvScan { .. } => lemma_op_rt_csvscan(s, i, op),
        OpV::JsonScan { .. } => lemma_op_rt_jsonscan(s, i, op),
        OpV::ParquetScan { .. } => lemma_op_rt_parquetscan(s, i, op),
        OpV::AvroScan { .. } => lemma_op_rt_avroscan(s, i, op),
        OpV::CsvSink { .. } => lemma_op_rt_csvsink(s, i, op),
        OpV::JsonSink { .. } => lemma_op_rt_jsonsink(s, i, op),
        OpV::ParquetSink { .. } => lemma_op_rt_parquetsink(s, i, op),
        OpV::Extension { .. } => {
        },
    }
}

#[verifier::rlimit(100)]
#[verifier::spinoff_prover]
proof fn lemma_op_rt_projection(s: Seq<u8>, i: int, op: OpV)
    requires
        at(s, i, spec_enc_op_payload(op)),
        op_fits(op),
        crate::wf::op_shape_ok(op),
        op is Projection,
    ensures
        spec_dec_op_payload(s, i, op_tag(op)) == Ok::<(OpV, int), ErrorKind>((
            op,
            i + spec_enc_op_payload(op).len(),
        )),
{
    reveal(crate::codec_op::spec_enc_op_payload);
    reveal(crate::codec_op::spec_dec_op_payload);
    match op {
        OpV::Projection { exprs, names } => {
            let e0 = list_enc::<Expr>(exprs);
            let e1 = list_enc::<Vec<u8>>(names);
            assert(spec_enc_op_payload(op) == e0 + (e1));
            lemma_at_split(s, i, e0, e1);
            list_rt::<Expr>(s, i, exprs);
            let i1 = i + e0.len();
            list_rt::<Vec<u8>>(s, i1, names);
            assert(spec_dec_op_payload(s, i, op_tag(op)) == Ok::<(OpV, int), ErrorKind>((
                op,
                i + spec_enc_op_payload(op).len(),
            )));
        },
        _ => {
        },
    }
}

#[verifier::rlimit(100)]
#[verifier::spinoff_prover]
proof fn lemma_op_rt_filter(s: Seq<u8>, i: int, op: OpV)
    requires
        at(s, i, spec_enc_op_payload(op)),
        op_fits(op),
        crate::wf::op_shape_ok(op),
        op is Filter,
    ensures
        spec_dec_op_payload(s, i, op_tag(op)) == Ok::<(OpV, int), ErrorKind>((
            op,
            i + spec_enc_op_payload(op).len(),
        )),
{
    reveal(crate::codec_op::spec_enc_op_payload);
    reveal(crate::codec_op::spec_dec_op_payload);
    match op {
        OpV::Filter { predicate, projection, default_selectivity } => {
            let e0 = Expr::spec_enc(predicate);
            let e1 = list_enc::<u64>(projection);
            let e2 = spec_enc_varint(default_selectivity as u64);
            assert(spec_enc_op_payload(op) == e0 + (e1 + (e2)));
            lemma_at_split(s, i, e0, e1 + (e2));
            Expr::rt(s, i, predicate);
            let i1 = i + e0.len();
            lemma_at_split(s, i1, e1, e2);
            list_rt::<u64>(s, i1, projection);
            let i2 = i1 + e1.len();
            lemma_varint_rt(s, i2, default_selectivity as u64);
            assert((default_selectivity as u64) <= 255);
            assert(((default_selectivity as u64) as u8) == default_selectivity);
            assert(spec_dec_op_payload(s, i, op_tag(op)) == Ok::<(OpV, int), ErrorKind>((
                op,
                i + spec_enc_op_payload(op).len(),
            )));
        },
        _ => {
        },
    }
}

#[verifier::rlimit(100)]
#[verifier::spinoff_prover]
proof fn lemma_op_rt_aggregate(s: Seq<u8>, i: int, op: OpV)
    requires
        at(s, i, spec_enc_op_payload(op)),
        op_fits(op),
        crate::wf::op_shape_ok(op),
        op is Aggregate,
    ensures
        spec_dec_op_payload(s, i, op_tag(op)) == Ok::<(OpV, int), ErrorKind>((
            op,
            i + spec_enc_op_payload(op).len(),
        )),
{
    reveal(crate::codec_op::spec_enc_op_payload);
    reveal(crate::codec_op::spec_dec_op_payload);
    match op {
        OpV::Aggregate { mode, group_exprs, group_names, null_exprs, groups, aggr_exprs, filter_exprs, input_schema, limit } => {
            let e0 = spec_enc_am(mode);
            let e1 = list_enc::<Expr>(group_exprs);
            let e2 = list_enc::<Vec<u8>>(group_names);
            let e3 = list_enc::<Expr>(null_exprs);
            let e4 = list_enc::<bool>(flatten_rows(groups));
            let e5 = list_enc::<AggExpr>(aggr_exprs);
            let e6 = list_enc::<Option<Expr>>(filter_exprs);
            let e7 = Schema::spec_enc(input_schema);
            let e8 = opt_enc::<u64>(limit);
            assert(spec_enc_op_payload(op) == e0 + (e1 + (e2 + (e3 + (e4 + (e5 + (e6 + (e7 + (e8)))))))));
            let w = group_exprs.len();
            if w == 0 {
                assert(groups =~= Seq::<Seq<bool>>::empty());
                assert(flatten_rows(groups) =~= Seq::<bool>::empty());
                assert(chunk_rows(flatten_rows(groups), 0) =~= groups);
            } else {
                lemma_groups_rt(groups, w);
            }
            lemma_at_split(s, i, e0, e1 + (e2 + (e3 + (e4 + (e5 + (e6 + (e7 + (e8))))))));
            lemma_am_rt(s, i, mode);
            let i1 = i + e0.len();
            lemma_at_split(s, i1, e1, e2 + (e3 + (e4 + (e5 + (e6 + (e7 + (e8)))))));
            list_rt::<Expr>(s, i1, group_exprs);
            let i2 = i1 + e1.len();
            lemma_at_split(s, i2, e2, e3 + (e4 + (e5 + (e6 + (e7 + (e8))))));
            list_rt::<Vec<u8>>(s, i2, group_names);
            let i3 = i2 + e2.len();
            lemma_at_split(s, i3, e3, e4 + (e5 + (e6 + (e7 + (e8)))));
            list_rt::<Expr>(s, i3, null_exprs);
            let i4 = i3 + e3.len();
            lemma_at_split(s, i4, e4, e5 + (e6 + (e7 + (e8))));
            list_rt::<bool>(s, i4, flatten_rows(groups));
            let i5 = i4 + e4.len();
            lemma_at_split(s, i5, e5, e6 + (e7 + (e8)));
            list_rt::<AggExpr>(s, i5, aggr_exprs);
            let i6 = i5 + e5.len();
            lemma_at_split(s, i6, e6, e7 + (e8));
            list_rt::<Option<Expr>>(s, i6, filter_exprs);
            let i7 = i6 + e6.len();
            lemma_at_split(s, i7, e7, e8);
            Schema::rt(s, i7, input_schema);
            let i8 = i7 + e7.len();
            opt_rt::<u64>(s, i8, limit);
            assert(spec_dec_op_payload(s, i, op_tag(op)) == Ok::<(OpV, int), ErrorKind>((
                op,
                i + spec_enc_op_payload(op).len(),
            )));
        },
        _ => {
        },
    }
}

#[verifier::rlimit(100)]
#[verifier::spinoff_prover]
proof fn lemma_op_rt_hashjoin(s: Seq<u8>, i: int, op: OpV)
    requires
        at(s, i, spec_enc_op_payload(op)),
        op_fits(op),
        crate::wf::op_shape_ok(op),
        op is HashJoin,
    ensures
        spec_dec_op_payload(s, i, op_tag(op)) == Ok::<(OpV, int), ErrorKind>((
            op,
            i + spec_enc_op_payload(op).len(),
        )),
{
    reveal(crate::codec_op::spec_enc_op_payload);
    reveal(crate::codec_op::spec_dec_op_payload);
    match op {
        OpV::HashJoin { on, join_type, partition_mode, null_equality, filter, projection } => {
            let e0 = list_enc::<JoinOn>(on);
            let e1 = spec_enc_jt(join_type);
            let e2 = spec_enc_pm(partition_mode);
            let e3 = spec_enc_ne(null_equality);
            let e4 = opt_enc::<JoinFilter>(filter);
            let e5 = list_enc::<u64>(projection);
            assert(spec_enc_op_payload(op) == e0 + (e1 + (e2 + (e3 + (e4 + (e5))))));
            lemma_at_split(s, i, e0, e1 + (e2 + (e3 + (e4 + (e5)))));
            list_rt::<JoinOn>(s, i, on);
            let i1 = i + e0.len();
            lemma_at_split(s, i1, e1, e2 + (e3 + (e4 + (e5))));
            lemma_jt_rt(s, i1, join_type);
            let i2 = i1 + e1.len();
            lemma_at_split(s, i2, e2, e3 + (e4 + (e5)));
            lemma_pm_rt(s, i2, partition_mode);
            let i3 = i2 + e2.len();
            lemma_at_split(s, i3, e3, e4 + (e5));
            lemma_ne_rt(s, i3, null_equality);
            let i4 = i3 + e3.len();
            lemma_at_split(s, i4, e4, e5);
            opt_rt::<JoinFilter>(s, i4, filter);
            let i5 = i4 + e4.len();
            list_rt::<u64>(s, i5, projection);
            assert(spec_dec_op_payload(s, i, op_tag(op)) == Ok::<(OpV, int), ErrorKind>((
                op,
                i + spec_enc_op_payload(op).len(),
            )));
        },
        _ => {
        },
    }
}

#[verifier::rlimit(100)]
#[verifier::spinoff_prover]
proof fn lemma_op_rt_symmetrichashjoin(s: Seq<u8>, i: int, op: OpV)
    requires
        at(s, i, spec_enc_op_payload(op)),
        op_fits(op),
        crate::wf::op_shape_ok(op),
        op is SymmetricHashJoin,
    ensures
        spec_dec_op_payload(s, i, op_tag(op)) == Ok::<(OpV, int), ErrorKind>((
            op,
            i + spec_enc_op_payload(op).len(),
        )),
{
    reveal(crate::codec_op::spec_enc_op_payload);
    reveal(crate::codec_op::spec_dec_op_payload);
    match op {
        OpV::SymmetricHashJoin { on, join_type, partition_mode, null_equality, filter, left_sort_exprs, right_sort_exprs } => {
            let e0 = list_enc::<JoinOn>(on);
            let e1 = spec_enc_jt(join_type);
            let e2 = spec_enc_spm(partition_mode);
            let e3 = spec_enc_ne(null_equality);
            let e4 = opt_enc::<JoinFilter>(filter);
            let e5 = list_enc::<SortExpr>(left_sort_exprs);
            let e6 = list_enc::<SortExpr>(right_sort_exprs);
            assert(spec_enc_op_payload(op) == e0 + (e1 + (e2 + (e3 + (e4 + (e5 + (e6)))))));
            lemma_at_split(s, i, e0, e1 + (e2 + (e3 + (e4 + (e5 + (e6))))));
            list_rt::<JoinOn>(s, i, on);
            let i1 = i + e0.len();
            lemma_at_split(s, i1, e1, e2 + (e3 + (e4 + (e5 + (e6)))));
            lemma_jt_rt(s, i1, join_type);
            let i2 = i1 + e1.len();
            lemma_at_split(s, i2, e2, e3 + (e4 + (e5 + (e6))));
            lemma_spm_rt(s, i2, partition_mode);
            let i3 = i2 + e2.len();
            lemma_at_split(s, i3, e3, e4 + (e5 + (e6)));
            lemma_ne_rt(s, i3, null_equality);
            let i4 = i3 + e3.len();
            lemma_at_split(s, i4, e4, e5 + (e6));
            opt_rt::<JoinFilter>(s, i4, filter);
            let i5 = i4 + e4.len();
            lemma_at_split(s, i5, e5, e6);
            list_rt::<SortExpr>(s, i5, left_sort_exprs);
            let i6 = i5 + e5.len();
            list_rt::<SortExpr>(s, i6, right_sort_exprs);
            assert(spec_dec_op_payload(s, i, op_tag(op)) == Ok::<(OpV, int), ErrorKind>((
                op,
                i + spec_enc_op_payload(op).len(),
            )));
        },
        _ => {
        },
    }
}

#[verifier::rlimit(100)]
#[verifier::spinoff_prover]
proof fn lemma_op_rt_crossjoin(s: Seq<u8>, i: int, op: OpV)
    requires
        at(s, i, spec_enc_op_payload(op)),
        op_fits(op),
        crate::wf::op_shape_ok(op),
        op is CrossJoin,
    ensures
        spec_dec_op_payload(s, i, op_tag(op)) == Ok::<(OpV, int), ErrorKind>((
            op,
            i + spec_enc_op_payload(op).len(),
        )),
{
    reveal(crate::codec_op::spec_enc_op_payload);
    reveal(crate::codec_op::spec_dec_op_payload);
    match op {
        OpV::CrossJoin => {
            assert(spec_enc_op_payload(op) =~= Seq::<u8>::empty());
            assert(spec_dec_op_payload(s, i, op_tag(op)) == Ok::<(OpV, int), ErrorKind>((
                op,
                i + spec_enc_op_payload(op).len(),
            )));
        },
        _ => {
        },
    }
}

#[verifier::rlimit(100)]
#[verifier::spinoff_prover]
proof fn lemma_op_rt_nestedloopjoin(s: Seq<u8>, i: int, op: OpV)
    requires
        at(s, i, spec_enc_op_payload(op)),
        op_fits(op),
        crate::wf::op_shape_ok(op),
        op is NestedLoopJoin,
    ensures
        spec_dec_op_payload(s, i, op_tag(op)) == Ok::<(OpV, int), ErrorKind>((
            op,
            i + spec_enc_op_payload(op).len(),
        )),
{
    reveal(crate::codec_op::spec_enc_op_payload);
    reveal(crate::codec_op::spec_dec_op_payload);
    match op {
        OpV::NestedLoopJoin { join_type, filter, projection } => {
            let e0 = spec_enc_jt(join_type);
            let e1 = opt_enc::<JoinFilter>(filter);
            let e2 = list_enc::<u64>(projection);
            assert(spec_enc_op_payload(op) == e0 + (e1 + (e2)));
            lemma_at_split(s, i, e0, e1 + (e2));
            lemma_jt_rt(s, i, join_type);
            let i1 = i + e0.len();
            lemma_at_split(s, i1, e1, e2);
            opt_rt::<JoinFilter>(s, i1, filter);
            let i2 = i1 + e1.len();
            list_rt::<u64>(s, i2, projection);
            assert(spec_dec_op_payload(s, i, op_tag(op)) == Ok::<(OpV, int), ErrorKind>((
                op,
                i + spec_enc_op_payload(op).len(),
            )));
        },
        _ => {
        },
    }
}

#[verifier::rlimit(100)]
#[verifier::spinoff_prover]
proof fn lemma_op_rt_sort(s: Seq<u8>, i: int, op: OpV)
    requires
        at(s, i, spec_enc_op_payload(op)),
        op_fits(op),
        crate::wf::op_shape_ok(op),
        op is Sort,
    ensures
        spec_dec_op_payload(s, i, op_tag(op)) == Ok::<(OpV, int), ErrorKind>((
            op,
            i + spec_enc_op_payload(op).len(),
        )),
{
    reveal(crate::codec_op::spec_enc_op_payload);
    reveal(crate::codec_op::spec_dec_op_payload);
    match op {
        OpV::Sort { exprs, fetch, preserve_partitioning } => {
            let e0 = list_enc::<SortExpr>(exprs);
            let e1 = spec_enc_fetch(fetch);
            let e2 = spec_enc_bool(preserve_partitioning);
            assert(spec_enc_op_payload(op) == e0 + (e1 + (e2)));
            lemma_at_split(s, i, e0, e1 + (e2));
            list_rt::<SortExpr>(s, i, exprs);
            let i1 = i + e0.len();
            lemma_at_split(s, i1, e1, e2);
            lemma_fetch_rt(s, i1, fetch);
            let i2 = i1 + e1.len();
            lemma_bool_rt(s, i2, preserve_partitioning);
            assert(spec_dec_op_payload(s, i, op_tag(op)) == Ok::<(OpV, int), ErrorKind>((
                op,
                i + spec_enc_op_payload(op).len(),
            )));
        },
        _ => {
        },
    }
}

#[verifier::rlimit(100)]
#[verifier::spinoff_prover]
proof fn lemma_op_rt_sortpreservingmerge(s: Seq<u8>, i: int, op: OpV)
    requires
        at(s, i, spec_enc_op_payload(op)),
        op_fits(op),
        crate::wf::op_shape_ok(op),
        op is SortPreservingMerge,
    ensures
        spec_dec_op_payload(s, i, op_tag(op)) == Ok::<(OpV, int), ErrorKind>((
            op,
            i + spec_enc_op_payload(op).len(),
        )),
{
    reveal(crate::codec_op::spec_enc_op_payload);
    reveal(crate::codec_op::spec_dec_op_payload);
    match op {
        OpV::SortPreservingMerge { exprs, fetch } => {
            let e0 = list_enc::<SortExpr>(exprs);
            let e1 = spec_enc_fetch(fetch);
            assert(spec_enc_op_payload(op) == e0 + (e1));
            lemma_at_split(s, i, e0, e1);
            list_rt::<SortExpr>(s, i, exprs);
            let i1 = i + e0.len();
            lemma_fetch_rt(s, i1, fetch);
            assert(spec_dec_op_payload(s, i, op_tag(op)) == Ok::<(OpV, int), ErrorKind>((
                op,
                i + spec_enc_op_payload(op).len(),
            )));
        },
        _ => {
        },
    }
}

#[verifier::rlimit(100)]
#[verifier::spinoff_prover]
proof fn lemma_op_rt_coalescebatches(s: Seq<u8>, i: int, op: OpV)
    requires
        at(s, i, spec_enc_op_payload(op)),
        op_fits(op),
        crate::wf::op_shape_ok(op),
        op is CoalesceBatches,
    ensures
        spec_dec_op_payload(s, i, op_tag(op)) == Ok::<(OpV, int), ErrorKind>((
            op,
            i + spec_enc_op_payload(op).len(),
        )),
{
    reveal(crate::codec_op::spec_enc_op_payload);
    reveal(crate::codec_op::spec_dec_op_payload);
    match op {
        OpV::CoalesceBatches { target_batch_size, fetch } => {
            let e0 = spec_enc_varint(target_batch_size);
            let e1 = opt_enc::<u64>(fetch);
            assert(spec_enc_op_payload(op) == e0 + (e1));
            lemma_at_split(s, i, e0, e1);
            lemma_varint_rt(s, i, target_batch_size);
            let i1 = i + e0.len();
            opt_rt::<u64>(s, i1, fetch);
            assert(spec_dec_op_payload(s, i, op_tag(op)) == Ok::<(OpV, int), ErrorKind>((
                op,
                i + spec_enc_op_payload(op).len(),
            )));
        },
        _ => {
        },
    }
}

#[verifier::rlimit(100)]
#[verifier::spinoff_prover]
proof fn lemma_op_rt_coalescepartitions(s: Seq<u8>, i: int, op: OpV)
    requires
        at(s, i, spec_enc_op_payload(op)),
        op_fits(op),
        crate::wf::op_shape_ok(op),
        op is CoalescePartitions,
    ensures
        spec_dec_op_payload(s, i, op_tag(op)) == Ok::<(OpV, int), ErrorKind>((
            op,
            i + spec_enc_op_payload(op).len(),
        )),
{
    reveal(crate::codec_op::spec_enc_op_payload);
    reveal(crate::codec_op::spec_dec_op_payload);
    match op {
        OpV::CoalescePartitions { fetch } => {
            let e0 = opt_enc::<u64>(fetch);
            assert(spec_enc_op_payload(op) == e0);
            opt_rt::<u64>(s, i, fetch);
            assert(spec_dec_op_payload(s, i, op_tag(op)) == Ok::<(OpV, int), ErrorKind>((
                op,
                i + spec_enc_op_payload(op).len(),
            )));
        },
        _ => {
        },
    }
}

#[verifier::rlimit(100)]
#[verifier::spinoff_prover]
proof fn lemma_op_rt_repartition(s: Seq<u8>, i: int, op: OpV)
    requires
        at(s, i, spec_enc_op_payload(op)),
        op_fits(op),
        crate::wf::op_shape_ok(op),
        op is Repartition,
    ensures
        spec_dec_op_payload(s, i, op_tag(op)) == Ok::<(OpV, int), ErrorKind>((
            op,
            i + spec_enc_op_payload(op).len(),
        )),
{
    reveal(crate::codec_op::spec_enc_op_payload);
    reveal(crate::codec_op::spec_dec_op_payload);
    match op {
        OpV::Repartition { partitioning } => {
            let e0 = Partitioning::spec_enc(partitioning);
            assert(spec_enc_op_payload(op) == e0);
            Partitioning::rt(s, i, partitioning);
            assert(spec_dec_op_payload(s, i, op_tag(op)) == Ok::<(OpV, int), ErrorKind>((
                op,
                i + spec_enc_op_payload(op).len(),
            )));
        },
        _ => {
        },
    }
}

#[verifier::rlimit(100)]
#[verifier::spinoff_prover]
proof fn lemma_op_rt_globallimit(s: Seq<u8>, i: int, op: OpV)
    requires
        at(s, i, spec_enc_op_payload(op)),
        op_fits(op),
        crate::wf::op_shape_ok(op),
        op is GlobalLimit,
    ensures
        spec_dec_op_payload(s, i, op_tag(op)) == Ok::<(OpV, int), ErrorKind>((
            op,
            i + spec_enc_op_payload(op).len(),
        )),
{
    reveal(crate::codec_op::spec_enc_op_payload);
    reveal(crate::codec_op::spec_dec_op_payload);
    match op {
        OpV::GlobalLimit { skip, fetch } => {
            let e0 = spec_enc_varint(skip);
            let e1 = spec_enc_fetch(fetch);
            assert(spec_enc_op_payload(op) == e0 + (e1));
            lemma_at_split(s, i, e0, e1);
            lemma_varint_rt(s, i, skip);
            let i1 = i + e0.len();
            lemma_fetch_rt(s, i1, fetch);
            assert(spec_dec_op_payload(s, i, op_tag(op)) == Ok::<(OpV, int), ErrorKind>((
                op,
                i + spec_enc_op_payload(op).len(),
            )));
        },
        _ => {
        },
    }
}

#[verifier::rlimit(100)]
#[verifier::spinoff_prover]
proof fn lemma_op_rt_locallimit(s: Seq<u8>, i: int, op: OpV)
    requires
        at(s, i, spec_enc_op_payload(op)),
        op_fits(op),
        crate::wf::op_shape_ok(op),
        op is LocalLimit,
    ensures
        spec_dec_op_payload(s, i, op_tag(op)) == Ok::<(OpV, int), ErrorKind>((
            op,
            i + spec_enc_op_payload(op).len(),
        )),
{
    reveal(crate::codec_op::spec_enc_op_payload);
    reveal(crate::codec_op::spec_dec_op_payload);
    match op {
        OpV::LocalLimit { fetch } => {
            let e0 = spec_enc_varint(fetch);
            assert(spec_enc_op_payload(op) == e0);
            lemma_varint_rt(s, i, fetch);
            assert(spec_dec_op_payload(s, i, op_tag(op)) == Ok::<(OpV, int), ErrorKind>((
                op,
                i + spec_enc_op_payload(op).len(),
            )));
        },
        _ => {
        },
    }
}

#[verifier::rlimit(100)]
#[verifier::spinoff_prover]
proof fn lemma_op_rt_union(s: Seq<u8>, i: int, op: OpV)
    requires
        at(s, i, spec_enc_op_payload(op)),
        op_fits(op),
        crate::wf::op_shape_ok(op),
        op is Union,
    ensures
        spec_dec_op_payload(s, i, op_tag(op)) == Ok::<(OpV, int), ErrorKind>((
            op,
            i + spec_enc_op_payload(op).len(),
        )),
{
    reveal(crate::codec_op::spec_enc_op_payload);
    reveal(crate::codec_op::spec_dec_op_payload);
    match op {
        OpV::Union => {
            assert(spec_enc_op_payload(op) =~= Seq::<u8>::empty());
            assert(spec_dec_op_payload(s, i, op_tag(op)) == Ok::<(OpV, int), ErrorKind>((
                op,
                i + spec_enc_op_payload(op).len(),
            )));
        },
        _ => {
        },
    }
}

#[verifier::rlimit(100)]
#[verifier::spinoff_prover]
proof fn lemma_op_rt_interleave(s: Seq<u8>, i: int, op: OpV)
    requires
        at(s, i, spec_enc_op_payload(op)),
        op_fits(op),
        crate::wf::op_shape_ok(op),
        op is Interleave,
    ensures
        spec_dec_op_payload(s, i, op_tag(op)) == Ok::<(OpV, int), ErrorKind>((
            op,
            i + spec_enc_op_payload(op).len(),
        )),
{
    reveal(crate::codec_op::spec_enc_op_payload);
    reveal(crate::codec_op::spec_dec_op_payload);
    match op {
        OpV::Interleave => {
            assert(spec_enc_op_payload(op) =~= Seq::<u8>::empty());
            assert(spec_dec_op_payload(s, i, op_tag(op)) == Ok::<(OpV, int), ErrorKind>((
                op,
                i + spec_enc_op_payload(op).len(),
            )));
        },
        _ => {
        },
    }
}

#[verifier::rlimit(100)]
#[verifier::spinoff_prover]
proof fn lemma_op_rt_empty(s: Seq<u8>, i: int, op: OpV)
    requires
        at(s, i, spec_enc_op_payload(op)),
        op_fits(op),
        crate::wf::op_shape_ok(op),
        op is Empty,
    ensures
        spec_dec_op_payload(s, i, op_tag(op)) == Ok::<(OpV, int), ErrorKind>((
            op,
            i + spec_enc_op_payload(op).len(),
        )),
{
    reveal(crate::codec_op::spec_enc_op_payload);
    reveal(crate::codec_op::spec_dec_op_payload);
    match op {
        OpV::Empty { schema } => {
            let e0 = Schema::spec_enc(schema);
            assert(spec_enc_op_payload(op) == e0);
            Schema::rt(s, i, schema);
            assert(spec_dec_op_payload(s, i, op_tag(op)) == Ok::<(OpV, int), ErrorKind>((
                op,
                i + spec_enc_op_payload(op).len(),
            )));
        },
        _ => {
        },
    }
}

#[verifier::rlimit(100)]
#[verifier::spinoff_prover]
proof fn lemma_op_rt_placeholderrow(s: Seq<u8>, i: int, op: OpV)
    requires
        at(s, i, spec_enc_op_payload(op)),
        op_fits(op),
        crate::wf::op_shape_ok(op),
        op is PlaceholderRow,
    ensures
        spec_dec_op_payload(s, i, op_tag(op)) == Ok::<(OpV, int), ErrorKind>((
            op,
            i + spec_enc_op_payload(op).len(),
        )),
{
    reveal(crate::codec_op::spec_enc_op_payload);
    reveal(crate::codec_op::spec_dec_op_payload);
    match op {
        OpV::PlaceholderRow { schema } => {
            let e0 = Schema::spec_enc(schema);
            assert(spec_enc_op_payload(op) == e0);
            Schema::rt(s, i, schema);
            assert(spec_dec_op_payload(s, i, op_tag(op)) == Ok::<(OpV, int), ErrorKind>((
                op,
                i + spec_enc_op_payload(op).len(),
            )));
        },
        _ => {
        },
    }
}

#[verifier::rlimit(100)]
#[verifier::spinoff_prover]
proof fn lemma_op_rt_explain(s: Seq<u8>, i: int, op: OpV)
    requires
        at(s, i, spec_enc_op_payload(op)),
        op_fits(op),
        crate::wf::op_shape_ok(op),
        op is Explain,
    ensures
        spec_dec_op_payload(s, i, op_tag(op)) == Ok::<(OpV, int), ErrorKind>((
            op,
            i + spec_enc_op_payload(op).len(),
        )),
{
    reveal(crate::codec_op::spec_enc_op_payload);
    reveal(crate::codec_op::spec_dec_op_payload);
    match op {
        OpV::Explain { schema, stringified_plans, verbose } => {
            let e0 = Schema::spec_enc(schema);
            let e1 = list_enc::<Vec<u8>>(stringified_plans);
            let e2 = spec_enc_bool(verbose);
            assert(spec_enc_op_payload(op) == e0 + (e1 + (e2)));
            lemma_at_split(s, i, e0, e1 + (e2));
            Schema::rt(s, i, schema);
            let i1 = i + e0.len();
            lemma_at_split(s, i1, e1, e2);
            list_rt::<Vec<u8>>(s, i1, stringified_plans);
            let i2 = i1 + e1.len();
            lemma_bool_rt(s, i2, verbose);
            assert(spec_dec_op_payload(s, i, op_tag(op)) == Ok::<(OpV, int), ErrorKind>((
                op,
                i + spec_enc_op_payload(op).len(),
            )));
        },
        _ => {
        },
    }
}

#[verifier::rlimit(100)]
#[verifier::spinoff_prover]
proof fn lemma_op_rt_analyze(s: Seq<u8>, i: int, op: OpV)
    requires
        at(s, i, spec_enc_op_payload(op)),
        op_fits(op),
        crate::wf::op_shape_ok(op),
        op is Analyze,
    ensures
        spec_dec_op_payload(s, i, op_tag(op)) == Ok::<(OpV, int), ErrorKind>((
            op,
            i + spec_enc_op_payload(op).len(),
        )),
{
    reveal(crate::codec_op::spec_enc_op_payload);
    reveal(crate::codec_op::spec_dec_op_payload);
    match op {
        OpV::Analyze { verbose, show_statistics, schema } => {
            let e0 = spec_enc_bool(verbose);
            let e1 = spec_enc_bool(show_statistics);
            let e2 = Schema::spec_enc(schema);
            assert(spec_enc_op_payload(op) == e0 + (e1 + (e2)));
            lemma_at_split(s, i, e0, e1 + (e2));
            lemma_bool_rt(s, i, verbose);
            let i1 = i + e0.len();
            lemma_at_split(s, i1, e1, e2);
            lemma_bool_rt(s, i1, show_statistics);
            let i2 = i1 + e1.len();
            Schema::rt(s, i2, schema);
            assert(spec_dec_op_payload(s, i, op_tag(op)) == Ok::<(OpV, int), ErrorKind>((
                op,
                i + spec_enc_op_payload(op).len(),
            )));
        },
        _ => {
        },
    }
}

#[verifier::rlimit(100)]
#[verifier::spinoff_prover]
proof fn lemma_op_rt_window(s: Seq<u8>, i: int, op: OpV)
    requires
        at(s, i, spec_enc_op_payload(op)),
        op_fits(op),
        crate::wf::op_shape_ok(op),
        op is Window,
    ensures
        spec_dec_op_payload(s, i, op_tag(op)) == Ok::<(OpV, int), ErrorKind>((
            op,
            i + spec_enc_op_payload(op).len(),
        )),
{
    reveal(crate::codec_op::spec_enc_op_payload);
    reveal(crate::codec_op::spec_dec_op_payload);
    match op {
        OpV::Window { window_exprs, partition_keys, input_order_mode } => {
            let e0 = list_enc::<WindowExpr>(window_exprs);
            let e1 = list_enc::<Expr>(partition_keys);
            let e2 = opt_enc::<InputOrderMode>(input_order_mode);
            assert(spec_enc_op_payload(op) == e0 + (e1 + (e2)));
            lemma_at_split(s, i, e0, e1 + (e2));
            list_rt::<WindowExpr>(s, i, window_exprs);
            let i1 = i + e0.len();
            lemma_at_split(s, i1, e1, e2);
            list_rt::<Expr>(s, i1, partition_keys);
            let i2 = i1 + e1.len();
            opt_rt::<InputOrderMode>(s, i2, input_order_mode);
            assert(spec_dec_op_payload(s, i, op_tag(op)) == Ok::<(OpV, int), ErrorKind>((
                op,
                i + spec_enc_op_payload(op).len(),
            )));
        },
        _ => {
        },
    }
}

#[verifier::rlimit(100)]
#[verifier::spinoff_prover]
proof fn lemma_op_rt_unnest(s: Seq<u8>, i: int, op: OpV)
    requires
        at(s, i, spec_enc_op_payload(op)),
        op_fits(op),
        crate::wf::op_shape_ok(op),
        op is Unnest,
    ensures
        spec_dec_op_payload(s, i, op_tag(op)) == Ok::<(OpV, int), ErrorKind>((
            op,
            i + spec_enc_op_payload(op).len(),
        )),
{
    reveal(crate::codec_op::spec_enc_op_payload);
    reveal(crate::codec_op::spec_dec_op_payload);
    match op {
        OpV::Unnest { list_type_columns, struct_type_columns, schema, preserve_nulls } => {
            let e0 = list_enc::<ListUnnest>(list_type_columns);
            let e1 = list_enc::<u64>(struct_type_columns);
            let e2 = Schema::spec_enc(schema);
            let e3 = spec_enc_bool(preserve_nulls);
            assert(spec_enc_op_payload(op) == e0 + (e1 + (e2 + (e3))));
            lemma_at_split(s, i, e0, e1 + (e2 + (e3)));
            list_rt::<ListUnnest>(s, i, list_type_columns);
            let i1 = i + e0.len();
            lemma_at_split(s, i1, e1, e2 + (e3));
            list_rt::<u64>(s, i1, struct_type_columns);
            let i2 = i1 + e1.len();
            lemma_at_split(s, i2, e2, e3);
            Schema::rt(s, i2, schema);
            let i3 = i2 + e2.len();
            lemma_bool_rt(s, i3, preserve_nulls);
            assert(spec_dec_op_payload(s, i, op_tag(op)) == Ok::<(OpV, int), ErrorKind>((
                op,
                i + spec_enc_op_payload(op).len(),
            )));
        },
        _ => {
        },
    }
}

#[verifier::rlimit(100)]
#[verifier::spinoff_prover]
proof fn lemma_op_rt_cooperative(s: Seq<u8>, i: int, op: OpV)
    requires
        at(s, i, spec_enc_op_payload(op)),
        op_fits(op),
        crate::wf::op_shape_ok(op),
        op is Cooperative,
    ensures
        spec_dec_op_payload(s, i, op_tag(op)) == Ok::<(OpV, int), ErrorKind>((
            op,
            i + spec_enc_op_payload(op).len(),
        )),
{
    reveal(crate::codec_op::spec_enc_op_payload);
    reveal(crate::codec_op::spec_dec_op_payload);
    match op {
        OpV::Cooperative => {
            assert(spec_enc_op_payload(op) =~= Seq::<u8>::empty());
            assert(spec_dec_op_payload(s, i, op_tag(op)) == Ok::<(OpV, int), ErrorKind>((
                op,
                i + spec_enc_op_payload(op).len(),
            )));
        },
        _ => {
        },
    }
}

#[verifier::rlimit(100)]
#[verifier::spinoff_prover]
proof fn lemma_op_rt_csvscan(s: Seq<u8>, i: int, op: OpV)
    requires
        at(s, i, spec_enc_op_payload(op)),
        op_fits(op),
        crate::wf::op_shape_ok(op),
        op is CsvScan,
    ensures
        spec_dec_op_payload(s, i, op_tag(op)) == Ok::<(OpV, int), ErrorKind>((
            op,
            i + spec_enc_op_payload(op).len(),
        )),
{
    reveal(crate::codec_op::spec_enc_op_payload);
    reveal(crate::codec_op::spec_dec_op_payload);
    match op {
        OpV::CsvScan { base_conf, has_header, delimiter, quote, escape, comment, newlines_in_values } => {
            let e0 = FileScanConfig::spec_enc(base_conf);
            let e1 = spec_enc_bool(has_header);
            let e2 = spec_enc_single_byte(delimiter);
            let e3 = spec_enc_single_byte(quote);
            let e4 = spec_enc_opt_sbyte(escape);
            let e5 = spec_enc_opt_sbyte(comment);
            let e6 = spec_enc_bool(newlines_in_values);
            assert(spec_enc_op_payload(op) == e0 + (e1 + (e2 + (e3 + (e4 + (e5 + (e6)))))));
            lemma_at_split(s, i, e0, e1 + (e2 + (e3 + (e4 + (e5 + (e6))))));
            FileScanConfig::rt(s, i, base_conf);
            let i1 = i + e0.len();
            lemma_at_split(s, i1, e1, e2 + (e3 + (e4 + (e5 + (e6)))));
            lemma_bool_rt(s, i1, has_header);
            let i2 = i1 + e1.len();
            lemma_at_split(s, i2, e2, e3 + (e4 + (e5 + (e6))));
            lemma_single_byte_rt(s, i2, delimiter);
            let i3 = i2 + e2.len();
            lemma_at_split(s, i3, e3, e4 + (e5 + (e6)));
            lemma_single_byte_rt(s, i3, quote);
            let i4 = i3 + e3.len();
            lemma_at_split(s, i4, e4, e5 + (e6));
            lemma_opt_sbyte_rt(s, i4, escape);
            let i5 = i4 + e4.len();
            lemma_at_split(s, i5, e5, e6);
            lemma_opt_sbyte_rt(s, i5, comment);
            let i6 = i5 + e5.len();
            lemma_bool_rt(s, i6, newlines_in_values);
            assert(spec_dec_op_payload(s, i, op_tag(op)) == Ok::<(OpV, int), ErrorKind>((
                op,
                i + spec_enc_op_payload(op).len(),
            )));
        },
        _ => {
        },
    }
}

#[verifier::rlimit(100)]
#[verifier::spinoff_prover]
proof fn lemma_op_rt_jsonscan(s: Seq<u8>, i: int, op: OpV)
    requires
        at(s, i, spec_enc_op_payload(op)),
        op_fits(op),
        crate::wf::op_shape_ok(op),
        op is JsonScan,
    ensures
        spec_dec_op_payload(s, i, op_tag(op)) == Ok::<(OpV, int), ErrorKind>((
            op,
            i + spec_enc_op_payload(op).len(),
        )),
{
    reveal(crate::codec_op::spec_enc_op_payload);
    reveal(crate::codec_op::spec_dec_op_payload);
    match op {
        OpV::JsonScan { base_conf } => {
            let e0 = FileScanConfig::spec_enc(base_conf);
            assert(spec_enc_op_payload(op) == e0);
            FileScanConfig::rt(s, i, base_conf);
            assert(spec_dec_op_payload(s, i, op_tag(op)) == Ok::<(OpV, int), ErrorKind>((
                op,
                i + spec_enc_op_payload(op).len(),
            )));
        },
        _ => {
        },
    }
}

#[verifier::rlimit(100)]
#[verifier::spinoff_prover]
proof fn lemma_op_rt_parquetscan(s: Seq<u8>, i: int, op: OpV)
    requires
        at(s, i, spec_enc_op_payload(op)),
        op_fits(op),
        crate::wf::op_shape_ok(op),
        op is ParquetScan,
    ensures
        spec_dec_op_payload(s, i, op_tag(op)) == Ok::<(OpV, int), ErrorKind>((
            op,
            i + spec_enc_op_payload(op).len(),
        )),
{
    reveal(crate::codec_op::spec_enc_op_payload);
    reveal(crate::codec_op::spec_dec_op_payload);
    match op {
        OpV::ParquetScan { base_conf, predicate, parquet_options } => {
            let e0 = FileScanConfig::spec_enc(base_conf);
            let e1 = opt_enc::<Expr>(predicate);
            let e2 = spec_enc_bytes(parquet_options);
            assert(spec_enc_op_payload(op) == e0 + (e1 + (e2)));
            lemma_at_split(s, i, e0, e1 + (e2));
            FileScanConfig::rt(s, i, base_conf);
            let i1 = i + e0.len();
            lemma_at_split(s, i1, e1, e2);
            opt_rt::<Expr>(s, i1, predicate);
            let i2 = i1 + e1.len();
            lemma_bytes_rt(s, i2, parquet_options);
            assert(spec_dec_op_payload(s, i, op_tag(op)) == Ok::<(OpV, int), ErrorKind>((
                op,
                i + spec_enc_op_payload(op).len(),
            )));
        },
        _ => {
        },
    }
}

#[verifier::rlimit(100)]
#[verifier::spinoff_prover]
proof fn lemma_op_rt_avroscan(s: Seq<u8>, i: int, op: OpV)
    requires
        at(s, i, spec_enc_op_payload(op)),
        op_fits(op),
        crate::wf::op_shape_ok(op),
        op is AvroScan,
    ensures
        spec_dec_op_payload(s, i, op_tag(op)) == Ok::<(OpV, int), ErrorKind>((
            op,
            i + spec_enc_op_payload(op).len(),
        )),
{
    reveal(crate::codec_op::spec_enc_op_payload);
    reveal(crate::codec_op::spec_dec_op_payload);
    match op {
        OpV::AvroScan { base_conf } => {
            let e0 = FileScanConfig::spec_enc(base_conf);
            assert(spec_enc_op_payload(op) == e0);
            FileScanConfig::rt(s, i, base_conf);
            assert(spec_dec_op_payload(s, i, op_tag(op)) == Ok::<(OpV, int), ErrorKind>((
                op,
                i + spec_enc_op_payload(op).len(),
            )));
        },
        _ => {
        },
    }
}

#[verifier::rlimit(100)]
#[verifier::spinoff_prover]
proof fn lemma_op_rt_csvsink(s: Seq<u8>, i: int, op: OpV)
    requires
        at(s, i, spec_enc_op_payload(op)),
        op_fits(op),
        crate::wf::op_shape_ok(op),
        op is CsvSink,
    ensures
        spec_dec_op_payload(s, i, op_tag(op)) == Ok::<(OpV, int), ErrorKind>((
            op,
            i + spec_enc_op_payload(op).len(),
        )),
{
    reveal(crate::codec_op::spec_enc_op_payload);
    reveal(crate::codec_op::spec_dec_op_payload);
    match op {
        OpV::CsvSink { sink, sink_schema, sort_order } => {
            let e0 = spec_enc_bytes(sink);
            let e1 = Schema::spec_enc(sink_schema);
            let e2 = opt_enc::<Vec<SortExpr>>(sort_order);
            assert(spec_enc_op_payload(op) == e0 + (e1 + (e2)));
            lemma_at_split(s, i, e0, e1 + (e2));
            lemma_bytes_rt(s, i, sink);
            let i1 = i + e0.len();
            lemma_at_split(s, i1, e1, e2);
            Schema::rt(s, i1, sink_schema);
            let i2 = i1 + e1.len();
            opt_rt::<Vec<SortExpr>>(s, i2, sort_order);
            assert(spec_dec_op_payload(s, i, op_tag(op)) == Ok::<(OpV, int), ErrorKind>((
                op,
                i + spec_enc_op_payload(op).len(),
            )));
        },
        _ => {
        },
    }
}

#[verifier::rlimit(100)]
#[verifier::spinoff_prover]
proof fn lemma_op_rt_jsonsink(s: Seq<u8>, i: int, op: OpV)
    requires
        at(s, i, spec_enc_op_payload(op)),
        op_fits(op),
        crate::wf::op_shape_ok(op),
        op is JsonSink,
    ensures
        spec_dec_op_payload(s, i, op_tag(op)) == Ok::<(OpV, int), ErrorKind>((
            op,
            i + spec_enc_op_payload(op).len(),
        )),
{
    reveal(crate::codec_op::spec_enc_op_payload);
    reveal(crate::codec_op::spec_dec_op_payload);
    match op {
        OpV::JsonSink { sink, sink_schema, sort_order } => {
            let e0 = spec_enc_bytes(sink);
            let e1 = Schema::spec_enc(sink_schema);
            let e2 = opt_enc::<Vec<SortExpr>>(sort_order);
            assert(spec_enc_op_payload(op) == e0 + (e1 + (e2)));
            lemma_at_split(s, i, e0, e1 + (e2));
            lemma_bytes_rt(s, i, sink);
            let i1 = i + e0.len();
            lemma_at_split(s, i1, e1, e2);
            Schema::rt(s, i1, sink_schema);
            let i2 = i1 + e1.len();
            opt_rt::<Vec<SortExpr>>(s, i2, sort_order);
            assert(spec_dec_op_payload(s, i, op_tag(op)) == Ok::<(OpV, int), ErrorKind>((
                op,
                i + spec_enc_op_payload(op).len(),
            )));
        },
        _ => {
        },
    }
}

#[verifier::rlimit(100)]
#[verifier::spinoff_prover]
proof fn lemma_op_rt_parquetsink(s: Seq<u8>, i: int, op: OpV)
    requires
        at(s, i, spec_enc_op_payload(op)),
        op_fits(op),
        crate::wf::op_shape_ok(op),
        op is ParquetSink,
    ensures
        spec_dec_op_payload(s, i, op_tag(op)) == Ok::<(OpV, int), ErrorKind>((
            op,
            i + spec_enc_op_payload(op).len(),
        )),
{
    reveal(crate::codec_op::spec_enc_op_payload);
    reveal(crate::codec_op::spec_dec_op_payload);
    match op {
        OpV::ParquetSink { sink, sink_schema, sort_order } => {
            let e0 = spec_enc_bytes(sink);
            let e1 = Schema::spec_enc(sink_schema);
            let e2 = opt_enc::<Vec<SortExpr>>(sort_order);
            assert(spec_enc_op_payload(op) == e0 + (e1 + (e2)));
            lemma_at_split(s, i, e0, e1 + (e2));
            lemma_bytes_rt(s, i, sink);
            let i1 = i + e0.len();
            lemma_at_split(s, i1, e1, e2);
            Schema::rt(s, i1, sink_schema);
            let i2 = i1 + e1.len();
            opt_rt::<Vec<SortExpr>>(s, i2, sort_order);
            assert(spec_dec_op_payload(s, i, op_tag(op)) == Ok::<(OpV, int), ErrorKind>((
                op,
                i + spec_enc_op_payload(op).len(),
            )));
        },
        _ => {
        },
    }
}

} // verus!
