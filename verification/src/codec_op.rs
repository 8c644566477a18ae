//! Wire form of the operator envelope payloads: one tag per built-in
//! kind, then the kind-specific fields in a fixed order.  Children are
//! carried after the payload, by the plan codec.

use vstd::prelude::*;
use crate::codec_base::{lemma_binop_rt, lemma_dt_rt, spec_dec_binop, spec_dec_dt, spec_enc_binop, spec_enc_dt, dec_dt, enc_dt};
use crate::codec_groups::{chunk_rows, flatten_groups, flatten_rows, lemma_groups_rt, unflatten_groups};
use crate::error::{CodecError, ErrorKind};
use crate::expr::{AggExpr, ColumnIndex, Expr, JoinFilter, SortExpr, WindowExpr};
use crate::items::{dec_list_of, dec_opt_of, enc_list_of, enc_opt_of, list_dec, list_enc, list_fits, list_rt, opt_dec, opt_enc, opt_fits, opt_rt, WireItem};
use crate::plan::{AggregateMode, FileScanConfig, InputOrderMode, JoinOn, JoinType, ListUnnest, NullEquality, OpKind, OpV, Partitioning, PartitionMode, StreamPartitionMode};
use crate::schema::Schema;
use crate::wire::{at, dec_bool, dec_bytes, dec_fetch, dec_single_byte, dec_varint, enc_bool, enc_bytes, enc_fetch, enc_single_byte, enc_varint, lemma_at_split, lemma_bool_rt, lemma_bytes_rt, lemma_fetch_rt, lemma_single_byte_rt, lemma_varint_rt, parses_to, spec_dec_bool, spec_dec_bytes, spec_dec_fetch, spec_dec_single_byte, spec_dec_varint, spec_enc_bool, spec_enc_bytes, spec_enc_fetch, spec_enc_single_byte, spec_enc_varint, SpecParse};

verus! {

broadcast use crate::views::lemma_deep_view_len, crate::views::lemma_deep_view_index, crate::views::lemma_bytes_deep_view, crate::views::lemma_bools_deep_view, crate::views::lemma_u64s_deep_view;

// ---------------------------------------------------------------------------
// Enum tags
// ---------------------------------------------------------------------------

pub open spec fn jt_tag(v: JoinType) -> u64 {
    match v {
        JoinType::Inner => 1,
        JoinType::Left => 2,
        JoinType::Right => 3,
        JoinType::Full => 4,
        JoinType::LeftSemi => 5,
        JoinType::LeftAnti => 6,
        JoinType::RightSemi => 7,
        JoinType::RightAnti => 8,
    }
}

pub open spec fn spec_enc_jt(v: JoinType) -> Seq<u8> {
    spec_enc_varint(jt_tag(v))
}

pub open spec fn spec_dec_jt(s: Seq<u8>, i: int) -> SpecParse<JoinType> {
    match spec_dec_varint(s, i) {
        Err(k) => Err(k),
        Ok((t, j)) => {
            if t == 1 {
                Ok((JoinType::Inner, j))
            } else if t == 2 {
                Ok((JoinType::Left, j))
            } else if t == 3 {
                Ok((JoinType::Right, j))
            } else if t == 4 {
                Ok((JoinType::Full, j))
            } else if t == 5 {
                Ok((JoinType::LeftSemi, j))
            } else if t == 6 {
                Ok((JoinType::LeftAnti, j))
            } else if t == 7 {
                Ok((JoinType::RightSemi, j))
            } else if t == 8 {
                Ok((JoinType::RightAnti, j))
            } else {
                Err(ErrorKind::Malformed)
            }
        },
    }
}

pub proof fn lemma_jt_rt(s: Seq<u8>, i: int, v: JoinType)
    requires
        at(s, i, spec_enc_jt(v)),
    ensures
        spec_dec_jt(s, i) == Ok::<(JoinType, int), ErrorKind>((v, i + spec_enc_jt(v).len())),
{
    lemma_varint_rt(s, i, jt_tag(v));
}

pub fn enc_jt(out: &mut Vec<u8>, v: JoinType)
    ensures
        final(out)@ == old(out)@ + spec_enc_jt(v),
{
    let t: u64 = match v {
        JoinType::Inner => 1,
        JoinType::Left => 2,
        JoinType::Right => 3,
        JoinType::Full => 4,
        JoinType::LeftSemi => 5,
        JoinType::LeftAnti => 6,
        JoinType::RightSemi => 7,
        JoinType::RightAnti => 8,
    };
    enc_varint(out, t);
}

pub fn dec_jt(s: &[u8], i: usize) -> (r: Result<(JoinType, usize), CodecError>)
    ensures
        parses_to(r, spec_dec_jt(s@, i as int)),
        r is Ok ==> i < r->Ok_0.1 <= s@.len(),
{
    match dec_varint(s, i) {
        Err(e) => Err(e),
        Ok((t, j)) => {
            if t == 1 {
                Ok((JoinType::Inner, j))
            } else if t == 2 {
                Ok((JoinType::Left, j))
            } else if t == 3 {
                Ok((JoinType::Right, j))
            } else if t == 4 {
                Ok((JoinType::Full, j))
            } else if t == 5 {
                Ok((JoinType::LeftSemi, j))
            } else if t == 6 {
                Ok((JoinType::LeftAnti, j))
            } else if t == 7 {
                Ok((JoinType::RightSemi, j))
            } else if t == 8 {
                Ok((JoinType::RightAnti, j))
            } else {
                Err(CodecError::malformed("join type tag out of range"))
            }
        },
    }
}

pub open spec fn pm_tag(v: PartitionMode) -> u64 {
    match v {
        PartitionMode::CollectLeft => 1,
        PartitionMode::Partitioned => 2,
        PartitionMode::Auto => 3,
    }
}

pub open spec fn spec_enc_pm(v: PartitionMode) -> Seq<u8> {
    spec_enc_varint(pm_tag(v))
}

pub open spec fn spec_dec_pm(s: Seq<u8>, i: int) -> SpecParse<PartitionMode> {
    match spec_dec_varint(s, i) {
        Err(k) => Err(k),
        Ok((t, j)) => {
            if t == 1 {
                Ok((PartitionMode::CollectLeft, j))
            } else if t == 2 {
                Ok((PartitionMode::Partitioned, j))
            } else if t == 3 {
                Ok((PartitionMode::Auto, j))
            } else {
                Err(ErrorKind::Malformed)
            }
        },
    }
}

pub proof fn lemma_pm_rt(s: Seq<u8>, i: int, v: PartitionMode)
    requires
        at(s, i, spec_enc_pm(v)),
    ensures
        spec_dec_pm(s, i) == Ok::<(PartitionMode, int), ErrorKind>((
            v,
            i + spec_enc_pm(v).len(),
        )),
{
    lemma_varint_rt(s, i, pm_tag(v));
}

pub fn enc_pm(out: &mut Vec<u8>, v: PartitionMode)
    ensures
        final(out)@ == old(out)@ + spec_enc_pm(v),
{
    let t: u64 = match v {
        PartitionMode::CollectLeft => 1,
        PartitionMode::Partitioned => 2,
        PartitionMode::Auto => 3,
    };
    enc_varint(out, t);
}

pub fn dec_pm(s: &[u8], i: usize) -> (r: Result<(PartitionMode, usize), CodecError>)
    ensures
        parses_to(r, spec_dec_pm(s@, i as int)),
        r is Ok ==> i < r->Ok_0.1 <= s@.len(),
{
    match dec_varint(s, i) {
        Err(e) => Err(e),
        Ok((t, j)) => {
            if t == 1 {
                Ok((PartitionMode::CollectLeft, j))
            } else if t == 2 {
                Ok((PartitionMode::Partitioned, j))
            } else if t == 3 {
                Ok((PartitionMode::Auto, j))
            } else {
                Err(CodecError::malformed("partition mode tag out of range"))
            }
        },
    }
}

pub open spec fn spm_tag(v: StreamPartitionMode) -> u64 {
    match v {
        StreamPartitionMode::SinglePartition => 1,
        StreamPartitionMode::PartitionedExec => 2,
    }
}

pub open spec fn spec_enc_spm(v: StreamPartitionMode) -> Seq<u8> {
    spec_enc_varint(spm_tag(v))
}

pub open spec fn spec_dec_spm(s: Seq<u8>, i: int) -> SpecParse<StreamPartitionMode> {
    match spec_dec_varint(s, i) {
        Err(k) => Err(k),
        Ok((t, j)) => {
            if t == 1 {
                Ok((StreamPartitionMode::SinglePartition, j))
            } else if t == 2 {
                Ok((StreamPartitionMode::PartitionedExec, j))
            } else {
                Err(ErrorKind::Malformed)
            }
        },
    }
}

pub proof fn lemma_spm_rt(s: Seq<u8>, i: int, v: StreamPartitionMode)
    requires
        at(s, i, spec_enc_spm(v)),
    ensures
        spec_dec_spm(s, i) == Ok::<(StreamPartitionMode, int), ErrorKind>((
            v,
            i + spec_enc_spm(v).len(),
        )),
{
    lemma_varint_rt(s, i, spm_tag(v));
}

pub fn enc_spm(out: &mut Vec<u8>, v: StreamPartitionMode)
    ensures
        final(out)@ == old(out)@ + spec_enc_spm(v),
{
    let t: u64 = match v {
        StreamPartitionMode::SinglePartition => 1,
        StreamPartitionMode::PartitionedExec => 2,
    };
    enc_varint(out, t);
}

pub fn dec_spm(s: &[u8], i: usize) -> (r: Result<(StreamPartitionMode, usize), CodecError>)
    ensures
        parses_to(r, spec_dec_spm(s@, i as int)),
        r is Ok ==> i < r->Ok_0.1 <= s@.len(),
{
    match dec_varint(s, i) {
        Err(e) => Err(e),
        Ok((t, j)) => {
            if t == 1 {
                Ok((StreamPartitionMode::SinglePartition, j))
            } else if t == 2 {
                Ok((StreamPartitionMode::PartitionedExec, j))
            } else {
                Err(CodecError::malformed("stream partition mode tag out of range"))
            }
        },
    }
}

pub open spec fn ne_tag(v: NullEquality) -> u64 {
    match v {
        NullEquality::NullEqualsNothing => 1,
        NullEquality::NullEqualsNull => 2,
    }
}

pub open spec fn spec_enc_ne(v: NullEquality) -> Seq<u8> {
    spec_enc_varint(ne_tag(v))
}

pub open spec fn spec_dec_ne(s: Seq<u8>, i: int) -> SpecParse<NullEquality> {
    match spec_dec_varint(s, i) {
        Err(k) => Err(k),
        Ok((t, j)) => {
            if t == 1 {
                Ok((NullEquality::NullEqualsNothing, j))
            } else if t == 2 {
                Ok((NullEquality::NullEqualsNull, j))
            } else {
                Err(ErrorKind::Malformed)
            }
        },
    }
}

pub proof fn lemma_ne_rt(s: Seq<u8>, i: int, v: NullEquality)
    requires
        at(s, i, spec_enc_ne(v)),
    ensures
        spec_dec_ne(s, i) == Ok::<(NullEquality, int), ErrorKind>((
            v,
            i + spec_enc_ne(v).len(),
        )),
{
    lemma_varint_rt(s, i, ne_tag(v));
}

pub fn enc_ne(out: &mut Vec<u8>, v: NullEquality)
    ensures
        final(out)@ == old(out)@ + spec_enc_ne(v),
{
    let t: u64 = match v {
        NullEquality::NullEqualsNothing => 1,
        NullEquality::NullEqualsNull => 2,
    };
    enc_varint(out, t);
}

pub fn dec_ne(s: &[u8], i: usize) -> (r: Result<(NullEquality, usize), CodecError>)
    ensures
        parses_to(r, spec_dec_ne(s@, i as int)),
        r is Ok ==> i < r->Ok_0.1 <= s@.len(),
{
    match dec_varint(s, i) {
        Err(e) => Err(e),
        Ok((t, j)) => {
            if t == 1 {
                Ok((NullEquality::NullEqualsNothing, j))
            } else if t == 2 {
                Ok((NullEquality::NullEqualsNull, j))
            } else {
                Err(CodecError::malformed("null equality tag out of range"))
            }
        },
    }
}

pub open spec fn am_tag(v: AggregateMode) -> u64 {
    match v {
        AggregateMode::Partial => 1,
        AggregateMode::Final => 2,
        AggregateMode::FinalPartitioned => 3,
        AggregateMode::Single => 4,
        AggregateMode::SinglePartitioned => 5,
    }
}

pub open spec fn spec_enc_am(v: AggregateMode) -> Seq<u8> {
    spec_enc_varint(am_tag(v))
}

pub open spec fn spec_dec_am(s: Seq<u8>, i: int) -> SpecParse<AggregateMode> {
    match spec_dec_varint(s, i) {
        Err(k) => Err(k),
        Ok((t, j)) => {
            if t == 1 {
                Ok((AggregateMode::Partial, j))
            } else if t == 2 {
                Ok((AggregateMode::Final, j))
            } else if t == 3 {
                Ok((AggregateMode::FinalPartitioned, j))
            } else if t == 4 {
                Ok((AggregateMode::Single, j))
            } else if t == 5 {
                Ok((AggregateMode::SinglePartitioned, j))
            } else {
                Err(ErrorKind::Malformed)
            }
        },
    }
}

pub proof fn lemma_am_rt(s: Seq<u8>, i: int, v: AggregateMode)
    requires
        at(s, i, spec_enc_am(v)),
    ensures
        spec_dec_am(s, i) == Ok::<(AggregateMode, int), ErrorKind>((
            v,
            i + spec_enc_am(v).len(),
        )),
{
    lemma_varint_rt(s, i, am_tag(v));
}

pub fn enc_am(out: &mut Vec<u8>, v: AggregateMode)
    ensures
        final(out)@ == old(out)@ + spec_enc_am(v),
{
    let t: u64 = match v {
        AggregateMode::Partial => 1,
        AggregateMode::Final => 2,
        AggregateMode::FinalPartitioned => 3,
        AggregateMode::Single => 4,
        AggregateMode::SinglePartitioned => 5,
    };
    enc_varint(out, t);
}

pub fn dec_am(s: &[u8], i: usize) -> (r: Result<(AggregateMode, usize), CodecError>)
    ensures
        parses_to(r, spec_dec_am(s@, i as int)),
        r is Ok ==> i < r->Ok_0.1 <= s@.len(),
{
    match dec_varint(s, i) {
        Err(e) => Err(e),
        Ok((t, j)) => {
            if t == 1 {
                Ok((AggregateMode::Partial, j))
            } else if t == 2 {
                Ok((AggregateMode::Final, j))
            } else if t == 3 {
                Ok((AggregateMode::FinalPartitioned, j))
            } else if t == 4 {
                Ok((AggregateMode::Single, j))
            } else if t == 5 {
                Ok((AggregateMode::SinglePartitioned, j))
            } else {
                Err(CodecError::malformed("aggregate mode tag out of range"))
            }
        },
    }
}

// ---------------------------------------------------------------------------
// Optional single-byte fields
// ---------------------------------------------------------------------------

pub open spec fn spec_enc_opt_sbyte(v: Option<u8>) -> Seq<u8> {
    match v {
        None => seq![0u8],
        Some(b) => seq![1u8] + spec_enc_single_byte(b),
    }
}

pub open spec fn spec_dec_opt_sbyte(s: Seq<u8>, i: int) -> SpecParse<Option<u8>> {
    match spec_dec_bool(s, i) {
        Err(k) => Err(k),
        Ok((present, j)) => {
            if present {
                match spec_dec_single_byte(s, j) {
                    Err(k) => Err(k),
                    Ok((b, j2)) => Ok((Some(b), j2)),
                }
            } else {
                Ok((None, j))
            }
        },
    }
}

pub proof fn lemma_opt_sbyte_rt(s: Seq<u8>, i: int, v: Option<u8>)
    requires
        at(s, i, spec_enc_opt_sbyte(v)),
    ensures
        spec_dec_opt_sbyte(s, i) == Ok::<(Option<u8>, int), ErrorKind>((
            v,
            i + spec_enc_opt_sbyte(v).len(),
        )),
{
    match v {
        None => {
            lemma_bool_rt(s, i, false);
        },
        Some(b) => {
            lemma_at_split(s, i, seq![1u8], spec_enc_single_byte(b));
            lemma_bool_rt(s, i, true);
            lemma_single_byte_rt(s, i + 1, b);
        },
    }
}

pub fn enc_opt_sbyte(out: &mut Vec<u8>, v: &Option<u8>)
    ensures
        final(out)@ == old(out)@ + spec_enc_opt_sbyte(*v),
{
    match v {
        None => {
            out.push(0u8);
            assert(out@ =~= old(out)@ + spec_enc_opt_sbyte(*v));
        },
        Some(b) => {
            let ghost pre = out@;
            out.push(1u8);
            enc_single_byte(out, *b);
            assert(out@ =~= pre + spec_enc_opt_sbyte(*v));
        },
    }
}

pub fn dec_opt_sbyte(s: &[u8], i: usize) -> (r: Result<(Option<u8>, usize), CodecError>)
    ensures
        parses_to(r, spec_dec_opt_sbyte(s@, i as int)),
        r is Ok ==> i < r->Ok_0.1 <= s@.len(),
{
    match dec_bool(s, i) {
        Err(e) => Err(e),
        Ok((present, j)) => {
            if present {
                match dec_single_byte(s, j) {
                    Err(e) => Err(e),
                    Ok((b, j2)) => Ok((Some(b), j2)),
                }
            } else {
                Ok((None, j))
            }
        },
    }
}

// ---------------------------------------------------------------------------
// Operator payloads
// ---------------------------------------------------------------------------

/// The envelope tag of each operator kind.
pub open spec fn op_tag(op: OpV) -> u64 {
    match op {
        OpV::Projection { .. } => 1,
        OpV::Filter { .. } => 2,
        OpV::Aggregate { .. } => 3,
        OpV::HashJoin { .. } => 4,
        OpV::SymmetricHashJoin { .. } => 5,
        OpV::CrossJoin => 6,
        OpV::NestedLoopJoin { .. } => 7,
        OpV::Sort { .. } => 8,
        OpV::SortPreservingMerge { .. } => 9,
        OpV::CoalesceBatches { .. } => 10,
        OpV::CoalescePartitions { .. } => 11,
        OpV::Repartition { .. } => 12,
        OpV::GlobalLimit { .. } => 13,
        OpV::LocalLimit { .. } => 14,
        OpV::Union => 15,
        OpV::Interleave => 16,
        OpV::Empty { .. } => 17,
        OpV::PlaceholderRow { .. } => 18,
        OpV::Explain { .. } => 19,
        OpV::Analyze { .. } => 20,
        OpV::Window { .. } => 21,
        OpV::Unnest { .. } => 22,
        OpV::Cooperative => 23,
        OpV::CsvScan { .. } => 24,
        OpV::JsonScan { .. } => 25,
        OpV::ParquetScan { .. } => 26,
        OpV::AvroScan { .. } => 27,
        OpV::CsvSink { .. } => 28,
        OpV::JsonSink { .. } => 29,
        OpV::ParquetSink { .. } => 30,
        OpV::Extension { .. } => 31,
    }
}

/// The kind-specific fields of an operator, in wire order.  The extension
/// kind has no payload here: its blob comes from the extension stack.
#[verifier::opaque]
pub open spec fn spec_enc_op_payload(op: OpV) -> Seq<u8> {
    match op {
        OpV::Projection { .. } => spec_enc_op_projection(op),
        OpV::Filter { .. } => spec_enc_op_filter(op),
        OpV::Aggregate { .. } => spec_enc_op_aggregate(op),
        OpV::HashJoin { .. } => spec_enc_op_hashjoin(op),
        OpV::SymmetricHashJoin { .. } => spec_enc_op_symmetrichashjoin(op),
        OpV::CrossJoin => spec_enc_op_crossjoin(op),
        OpV::NestedLoopJoin { .. } => spec_enc_op_nestedloopjoin(op),
        OpV::Sort { .. } => spec_enc_op_sort(op),
        OpV::SortPreservingMerge { .. } => spec_enc_op_sortpreservingmerge(op),
        OpV::CoalesceBatches { .. } => spec_enc_op_coalescebatches(op),
        OpV::CoalescePartitions { .. } => spec_enc_op_coalescepartitions(op),
        OpV::Repartition { .. } => spec_enc_op_repartition(op),
        OpV::GlobalLimit { .. } => spec_enc_op_globallimit(op),
        OpV::LocalLimit { .. } => spec_enc_op_locallimit(op),
        OpV::Union => spec_enc_op_union(op),
        OpV::Interleave => spec_enc_op_interleave(op),
        OpV::Empty { .. } => spec_enc_op_empty(op),
        OpV::PlaceholderRow { .. } => spec_enc_op_placeholderrow(op),
        OpV::Explain { .. } => spec_enc_op_explain(op),
        OpV::Analyze { .. } => spec_enc_op_analyze(op),
        OpV::Window { .. } => spec_enc_op_window(op),
        OpV::Unnest { .. } => spec_enc_op_unnest(op),
        OpV::Cooperative => spec_enc_op_cooperative(op),
        OpV::CsvScan { .. } => spec_enc_op_csvscan(op),
        OpV::JsonScan { .. } => spec_enc_op_jsonscan(op),
        OpV::ParquetScan { .. } => spec_enc_op_parquetscan(op),
        OpV::AvroScan { .. } => spec_enc_op_avroscan(op),
        OpV::CsvSink { .. } => spec_enc_op_csvsink(op),
        OpV::JsonSink { .. } => spec_enc_op_jsonsink(op),
        OpV::ParquetSink { .. } => spec_enc_op_parquetsink(op),
        OpV::Extension { .. } => spec_enc_op_extension(op),
    }
}

pub open spec fn spec_enc_op_projection(op: OpV) -> Seq<u8> {
    match op {
        OpV::Projection { exprs, names } => list_enc::<Expr>(exprs) + list_enc::<Vec<u8>>(names),
        _ => Seq::empty(),
    }
}

pub open spec fn spec_enc_op_filter(op: OpV) -> Seq<u8> {
    match op {
        OpV::Filter { predicate, projection, default_selectivity } => Expr::spec_enc(predicate)
            + (list_enc::<u64>(projection) + spec_enc_varint(default_selectivity as u64)),
        _ => Seq::empty(),
    }
}

pub open spec fn spec_enc_op_aggregate(op: OpV) -> Seq<u8> {
    match op {
        OpV::Aggregate {
            mode,
            group_exprs,
            group_names,
            null_exprs,
            groups,
            aggr_exprs,
            filter_exprs,
            input_schema,
            limit,
        } => spec_enc_am(mode) + (list_enc::<Expr>(group_exprs) + (list_enc::<Vec<u8>>(group_names)
            + (list_enc::<Expr>(null_exprs) + (list_enc::<bool>(flatten_rows(groups))
            + (list_enc::<AggExpr>(aggr_exprs) + (list_enc::<Option<Expr>>(filter_exprs)
            + (Schema::spec_enc(input_schema) + opt_enc::<u64>(limit)))))))),
        _ => Seq::empty(),
    }
}

pub open spec fn spec_enc_op_hashjoin(op: OpV) -> Seq<u8> {
    match op {
        OpV::HashJoin { on, join_type, partition_mode, null_equality, filter, projection } =>
            list_enc::<JoinOn>(on) + (spec_enc_jt(join_type) + (spec_enc_pm(partition_mode)
            + (spec_enc_ne(null_equality) + (opt_enc::<JoinFilter>(filter)
            + list_enc::<u64>(projection))))),
        _ => Seq::empty(),
    }
}

pub open spec fn spec_enc_op_symmetrichashjoin(op: OpV) -> Seq<u8> {
    match op {
        OpV::SymmetricHashJoin {
            on,
            join_type,
            partition_mode,
            null_equality,
            filter,
            left_sort_exprs,
            right_sort_exprs,
        } => list_enc::<JoinOn>(on) + (spec_enc_jt(join_type) + (spec_enc_spm(partition_mode)
            + (spec_enc_ne(null_equality) + (opt_enc::<JoinFilter>(filter)
            + (list_enc::<SortExpr>(left_sort_exprs) + list_enc::<SortExpr>(right_sort_exprs)))))),
        _ => Seq::empty(),
    }
}

pub open spec fn spec_enc_op_crossjoin(op: OpV) -> Seq<u8> {
    match op {
        OpV::CrossJoin => Seq::empty(),
        _ => Seq::empty(),
    }
}

pub open spec fn spec_enc_op_nestedloopjoin(op: OpV) -> Seq<u8> {
    match op {
        OpV::NestedLoopJoin { join_type, filter, projection } => spec_enc_jt(join_type)
            + (opt_enc::<JoinFilter>(filter) + list_enc::<u64>(projection)),
        _ => Seq::empty(),
    }
}

pub open spec fn spec_enc_op_sort(op: OpV) -> Seq<u8> {
    match op {
        OpV::Sort { exprs, fetch, preserve_partitioning } => list_enc::<SortExpr>(exprs)
            + (spec_enc_fetch(fetch) + spec_enc_bool(preserve_partitioning)),
        _ => Seq::empty(),
    }
}

pub open spec fn spec_enc_op_sortpreservingmerge(op: OpV) -> Seq<u8> {
    match op {
        OpV::SortPreservingMerge { exprs, fetch } => list_enc::<SortExpr>(exprs)
            + spec_enc_fetch(fetch),
        _ => Seq::empty(),
    }
}

pub open spec fn spec_enc_op_coalescebatches(op: OpV) -> Seq<u8> {
    match op {
        OpV::CoalesceBatches { target_batch_size, fetch } => spec_enc_varint(target_batch_size)
            + opt_enc::<u64>(fetch),
        _ => Seq::empty(),
    }
}

pub open spec fn spec_enc_op_coalescepartitions(op: OpV) -> Seq<u8> {
    match op {
        OpV::CoalescePartitions { fetch } => opt_enc::<u64>(fetch),
        _ => Seq::empty(),
    }
}

pub open spec fn spec_enc_op_repartition(op: OpV) -> Seq<u8> {
    match op {
        OpV::Repartition { partitioning } => Partitioning::spec_enc(partitioning),
        _ => Seq::empty(),
    }
}

pub open spec fn spec_enc_op_globallimit(op: OpV) -> Seq<u8> {
    match op {
        OpV::GlobalLimit { skip, fetch } => spec_enc_varint(skip) + spec_enc_fetch(fetch),
        _ => Seq::empty(),
    }
}

pub open spec fn spec_enc_op_locallimit(op: OpV) -> Seq<u8> {
    match op {
        OpV::LocalLimit { fetch } => spec_enc_varint(fetch),
        _ => Seq::empty(),
    }
}

pub open spec fn spec_enc_op_union(op: OpV) -> Seq<u8> {
    match op {
        OpV::Union => Seq::empty(),
        _ => Seq::empty(),
    }
}

pub open spec fn spec_enc_op_interleave(op: OpV) -> Seq<u8> {
    match op {
        OpV::Interleave => Seq::empty(),
        _ => Seq::empty(),
    }
}

pub open spec fn spec_enc_op_empty(op: OpV) -> Seq<u8> {
    match op {
        OpV::Empty { schema } => Schema::spec_enc(schema),
        _ => Seq::empty(),
    }
}

pub open spec fn spec_enc_op_placeholderrow(op: OpV) -> Seq<u8> {
    match op {
        OpV::PlaceholderRow { schema } => Schema::spec_enc(schema),
        _ => Seq::empty(),
    }
}

pub open spec fn spec_enc_op_explain(op: OpV) -> Seq<u8> {
    match op {
        OpV::Explain { schema, stringified_plans, verbose } => Schema::spec_enc(schema)
            + (list_enc::<Vec<u8>>(stringified_plans) + spec_enc_bool(verbose)),
        _ => Seq::empty(),
    }
}

pub open spec fn spec_enc_op_analyze(op: OpV) -> Seq<u8> {
    match op {
        OpV::Analyze { verbose, show_statistics, schema } => spec_enc_bool(verbose)
            + (spec_enc_bool(show_statistics) + Schema::spec_enc(schema)),
        _ => Seq::empty(),
    }
}

pub open spec fn spec_enc_op_window(op: OpV) -> Seq<u8> {
    match op {
        OpV::Window { window_exprs, partition_keys, input_order_mode } =>
            list_enc::<WindowExpr>(window_exprs) + (list_enc::<Expr>(partition_keys)
            + opt_enc::<InputOrderMode>(input_order_mode)),
        _ => Seq::empty(),
    }
}

pub open spec fn spec_enc_op_unnest(op: OpV) -> Seq<u8> {
    match op {
        OpV::Unnest { list_type_columns, struct_type_columns, schema, preserve_nulls } =>
            list_enc::<ListUnnest>(list_type_columns) + (list_enc::<u64>(struct_type_columns)
            + (Schema::spec_enc(schema) + spec_enc_bool(preserve_nulls))),
        _ => Seq::empty(),
    }
}

pub open spec fn spec_enc_op_cooperative(op: OpV) -> Seq<u8> {
    match op {
        OpV::Cooperative => Seq::empty(),
        _ => Seq::empty(),
    }
}

pub open spec fn spec_enc_op_csvscan(op: OpV) -> Seq<u8> {
    match op {
        OpV::CsvScan {
            base_conf,
            has_header,
            delimiter,
            quote,
            escape,
            comment,
            newlines_in_values,
        } => FileScanConfig::spec_enc(base_conf) + (spec_enc_bool(has_header)
            + (spec_enc_single_byte(delimiter) + (spec_enc_single_byte(quote)
            + (spec_enc_opt_sbyte(escape) + (spec_enc_opt_sbyte(comment)
            + spec_enc_bool(newlines_in_values)))))),
        _ => Seq::empty(),
    }
}

pub open spec fn spec_enc_op_jsonscan(op: OpV) -> Seq<u8> {
    match op {
        OpV::JsonScan { base_conf } => FileScanConfig::spec_enc(base_conf),
        _ => Seq::empty(),
    }
}

pub open spec fn spec_enc_op_parquetscan(op: OpV) -> Seq<u8> {
    match op {
        OpV::ParquetScan { base_conf, predicate, parquet_options } =>
            FileScanConfig::spec_enc(base_conf) + (opt_enc::<Expr>(predicate)
            + spec_enc_bytes(parquet_options)),
        _ => Seq::empty(),
    }
}

pub open spec fn spec_enc_op_avroscan(op: OpV) -> Seq<u8> {
    match op {
        OpV::AvroScan { base_conf } => FileScanConfig::spec_enc(base_conf),
        _ => Seq::empty(),
    }
}

pub open spec fn spec_enc_op_csvsink(op: OpV) -> Seq<u8> {
    match op {
        OpV::CsvSink { sink, sink_schema, sort_order } => spec_enc_bytes(sink)
            + (Schema::spec_enc(sink_schema) + opt_enc::<Vec<SortExpr>>(sort_order)),
        _ => Seq::empty(),
    }
}

pub open spec fn spec_enc_op_jsonsink(op: OpV) -> Seq<u8> {
    match op {
        OpV::JsonSink { sink, sink_schema, sort_order } => spec_enc_bytes(sink)
            + (Schema::spec_enc(sink_schema) + opt_enc::<Vec<SortExpr>>(sort_order)),
        _ => Seq::empty(),
    }
}

pub open spec fn spec_enc_op_parquetsink(op: OpV) -> Seq<u8> {
    match op {
        OpV::ParquetSink { sink, sink_schema, sort_order } => spec_enc_bytes(sink)
            + (Schema::spec_enc(sink_schema) + opt_enc::<Vec<SortExpr>>(sort_order)),
        _ => Seq::empty(),
    }
}

pub open spec fn spec_enc_op_extension(op: OpV) -> Seq<u8> {
    match op {
        OpV::Extension { .. } => Seq::empty(),
        _ => Seq::empty(),
    }
}

/// Machine bounds under which an operator's encoding is faithful.
pub open spec fn op_fits(op: OpV) -> bool {
    match op {
        OpV::Projection { exprs, names } => list_fits::<Expr>(exprs) && list_fits::<Vec<u8>>(names),
        OpV::Filter { projection, .. } => projection.len() <= u64::MAX,
        OpV::Aggregate {
            group_exprs,
            group_names,
            null_exprs,
            groups,
            aggr_exprs,
            filter_exprs,
            input_schema,
            ..
        } => {
            &&& list_fits::<Expr>(group_exprs)
            &&& list_fits::<Vec<u8>>(group_names)
            &&& list_fits::<Expr>(null_exprs)
            &&& flatten_rows(groups).len() <= u64::MAX
            &&& list_fits::<AggExpr>(aggr_exprs)
            &&& list_fits::<Option<Expr>>(filter_exprs)
            &&& Schema::fits(input_schema)
        },
        OpV::HashJoin { on, filter, projection, .. } => {
            &&& list_fits::<JoinOn>(on)
            &&& opt_fits::<JoinFilter>(filter)
            &&& projection.len() <= u64::MAX
        },
        OpV::SymmetricHashJoin { on, filter, left_sort_exprs, right_sort_exprs, .. } => {
            &&& list_fits::<JoinOn>(on)
            &&& opt_fits::<JoinFilter>(filter)
            &&& list_fits::<SortExpr>(left_sort_exprs)
            &&& list_fits::<SortExpr>(right_sort_exprs)
        },
        OpV::NestedLoopJoin { filter, projection, .. } => opt_fits::<JoinFilter>(filter)
            && projection.len() <= u64::MAX,
        OpV::Sort { exprs, .. } => list_fits::<SortExpr>(exprs),
        OpV::SortPreservingMerge { exprs, .. } => list_fits::<SortExpr>(exprs),
        OpV::Repartition { partitioning } => Partitioning::fits(partitioning),
        OpV::Empty { schema } => Schema::fits(schema),
        OpV::PlaceholderRow { schema } => Schema::fits(schema),
        OpV::Explain { schema, stringified_plans, .. } => Schema::fits(schema)
            && list_fits::<Vec<u8>>(stringified_plans),
        OpV::Analyze { schema, .. } => Schema::fits(schema),
        OpV::Window { window_exprs, partition_keys, input_order_mode } => {
            &&& list_fits::<WindowExpr>(window_exprs)
            &&& list_fits::<Expr>(partition_keys)
            &&& opt_fits::<InputOrderMode>(input_order_mode)
        },
        OpV::Unnest { list_type_columns, struct_type_columns, schema, .. } => {
            &&& list_type_columns.len() <= u64::MAX
            &&& struct_type_columns.len() <= u64::MAX
            &&& Schema::fits(schema)
        },
        OpV::CsvScan { base_conf, .. } => FileScanConfig::fits(base_conf),
        OpV::JsonScan { base_conf } => FileScanConfig::fits(base_conf),
        OpV::ParquetScan { base_conf, parquet_options, .. } => FileScanConfig::fits(base_conf)
            && parquet_options.len() <= u64::MAX,
        OpV::AvroScan { base_conf } => FileScanConfig::fits(base_conf),
        OpV::CsvSink { sink, sink_schema, sort_order } => sink.len() <= u64::MAX && Schema::fits(
            sink_schema,
        ) && opt_fits::<Vec<SortExpr>>(sort_order),
        OpV::JsonSink { sink, sink_schema, sort_order } => sink.len() <= u64::MAX && Schema::fits(
            sink_schema,
        ) && opt_fits::<Vec<SortExpr>>(sort_order),
        OpV::ParquetSink { sink, sink_schema, sort_order } => sink.len() <= u64::MAX
            && Schema::fits(sink_schema) && opt_fits::<Vec<SortExpr>>(sort_order),
        _ => true,
    }
}

/// Parses the kind-specific fields selected by tag `t`.
#[verifier::opaque]
pub open spec fn spec_dec_op_payload(s: Seq<u8>, i: int, t: u64) -> SpecParse<OpV> {
    if t == 1 {
        spec_dec_op_projection(s, i)
    } else if t == 2 {
        spec_dec_op_filter(s, i)
    } else if t == 3 {
        spec_dec_op_aggregate(s, i)
    } else if t == 4 {
        spec_dec_op_hashjoin(s, i)
    } else if t == 5 {
        spec_dec_op_symmetrichashjoin(s, i)
    } else if t == 6 {
        spec_dec_op_crossjoin(s, i)
    } else if t == 7 {
        spec_dec_op_nestedloopjoin(s, i)
    } else if t == 8 {
        spec_dec_op_sort(s, i)
    } else if t == 9 {
        spec_dec_op_sortpreservingmerge(s, i)
    } else if t == 10 {
        spec_dec_op_coalescebatches(s, i)
    } else if t == 11 {
        spec_dec_op_coalescepartitions(s, i)
    } else if t == 12 {
        spec_dec_op_repartition(s, i)
    } else if t == 13 {
        spec_dec_op_globallimit(s, i)
    } else if t == 14 {
        spec_dec_op_locallimit(s, i)
    } else if t == 15 {
        spec_dec_op_union(s, i)
    } else if t == 16 {
        spec_dec_op_interleave(s, i)
    } else if t == 17 {
        spec_dec_op_empty(s, i)
    } else if t == 18 {
        spec_dec_op_placeholderrow(s, i)
    } else if t == 19 {
        spec_dec_op_explain(s, i)
    } else if t == 20 {
        spec_dec_op_analyze(s, i)
    } else if t == 21 {
        spec_dec_op_window(s, i)
    } else if t == 22 {
        spec_dec_op_unnest(s, i)
    } else if t == 23 {
        spec_dec_op_cooperative(s, i)
    } else if t == 24 {
        spec_dec_op_csvscan(s, i)
    } else if t == 25 {
        spec_dec_op_jsonscan(s, i)
    } else if t == 26 {
        spec_dec_op_parquetscan(s, i)
    } else if t == 27 {
        spec_dec_op_avroscan(s, i)
    } else if t == 28 {
        spec_dec_op_csvsink(s, i)
    } else if t == 29 {
        spec_dec_op_jsonsink(s, i)
    } else if t == 30 {
        spec_dec_op_parquetsink(s, i)
    } else {
        Err(ErrorKind::Malformed)
    }
}

pub open spec fn spec_dec_op_projection(s: Seq<u8>, i: int) -> SpecParse<OpV> {
        match list_dec::<Expr>(s, i) {
            Err(k) => Err(k),
            Ok((exprs, i1)) => match list_dec::<Vec<u8>>(s, i1) {
                Err(k) => Err(k),
                Ok((names, i2)) => Ok((OpV::Projection { exprs, names }, i2)),
            },
        }
}

pub open spec fn spec_dec_op_filter(s: Seq<u8>, i: int) -> SpecParse<OpV> {

        match Expr::spec_dec(s, i) {
            Err(k) => Err(k),
            Ok((predicate, i1)) => match list_dec::<u64>(s, i1) {
                Err(k) => Err(k),
                Ok((projection, i2)) => match spec_dec_varint(s, i2) {
                    Err(k) => Err(k),
                    Ok((raw, i3)) => {
                        if raw > 255 {
                            Err(ErrorKind::Malformed)
                        } else {
                            Ok(
                                (
                                    OpV::Filter {
                                        predicate,
                                        projection,
                                        default_selectivity: raw as u8,
                                    },
                                    i3,
                                ),
                            )
                        }
                    },
                },
            },
        }
}

pub open spec fn spec_dec_op_aggregate(s: Seq<u8>, i: int) -> SpecParse<OpV> {

        match spec_dec_am(s, i) {
            Err(k) => Err(k),
            Ok((mode, i1)) => match list_dec::<Expr>(s, i1) {
                Err(k) => Err(k),
                Ok((group_exprs, i2)) => match list_dec::<Vec<u8>>(s, i2) {
                    Err(k) => Err(k),
                    Ok((group_names, i3)) => match list_dec::<Expr>(s, i3) {
                        Err(k) => Err(k),
                        Ok((null_exprs, i4)) => match list_dec::<bool>(s, i4) {
                            Err(k) => Err(k),
                            Ok((flat, i5)) => {
                                let w = group_exprs.len();
                                if (w == 0 && flat.len() != 0) || (w > 0 && flat.len() % (
                                w as nat) != 0) {
                                    Err(ErrorKind::Malformed)
                                } else {
                                    match list_dec::<AggExpr>(s, i5) {
                                        Err(k) => Err(k),
                                        Ok((aggr_exprs, i6)) => match list_dec::<
                                            Option<Expr>,
                                        >(s, i6) {
                                            Err(k) => Err(k),
                                            Ok((filter_exprs, i7)) => match Schema::spec_dec(
                                                s,
                                                i7,
                                            ) {
                                                Err(k) => Err(k),
                                                Ok((input_schema, i8)) => match opt_dec::<
                                                    u64,
                                                >(s, i8) {
                                                    Err(k) => Err(k),
                                                    Ok((limit, i9)) => Ok(
                                                        (
                                                            OpV::Aggregate {
                                                                mode,
                                                                group_exprs,
                                                                group_names,
                                                                null_exprs,
                                                                groups: chunk_rows(flat, w),
                                                                aggr_exprs,
                                                                filter_exprs,
                                                                input_schema,
                                                                limit,
                                                            },
                                                            i9,
                                                        ),
                                                    ),
                                                },
                                            },
                                        },
                                    }
                                }
                            },
                        },
                    },
                },
            },
        }
}

pub open spec fn spec_dec_op_hashjoin(s: Seq<u8>, i: int) -> SpecParse<OpV> {

        match list_dec::<JoinOn>(s, i) {
            Err(k) => Err(k),
            Ok((on, i1)) => match spec_dec_jt(s, i1) {
                Err(k) => Err(k),
                Ok((join_type, i2)) => match spec_dec_pm(s, i2) {
                    Err(k) => Err(k),
                    Ok((partition_mode, i3)) => match spec_dec_ne(s, i3) {
                        Err(k) => Err(k),
                        Ok((null_equality, i4)) => match opt_dec::<JoinFilter>(s, i4) {
                            Err(k) => Err(k),
                            Ok((filter, i5)) => match list_dec::<u64>(s, i5) {
                                Err(k) => Err(k),
                                Ok((projection, i6)) => Ok(
                                    (
                                        OpV::HashJoin {
                                            on,
                                            join_type,
                                            partition_mode,
                                            null_equality,
                                            filter,
                                            projection,
                                        },
                                        i6,
                                    ),
                                ),
                            },
                        },
                    },
                },
            },
        }
}

pub open spec fn spec_dec_op_symmetrichashjoin(s: Seq<u8>, i: int) -> SpecParse<OpV> {

        match list_dec::<JoinOn>(s, i) {
            Err(k) => Err(k),
            Ok((on, i1)) => match spec_dec_jt(s, i1) {
                Err(k) => Err(k),
                Ok((join_type, i2)) => match spec_dec_spm(s, i2) {
                    Err(k) => Err(k),
                    Ok((partition_mode, i3)) => match spec_dec_ne(s, i3) {
                        Err(k) => Err(k),
                        Ok((null_equality, i4)) => match opt_dec::<JoinFilter>(s, i4) {
                            Err(k) => Err(k),
                            Ok((filter, i5)) => match list_dec::<SortExpr>(s, i5) {
                                Err(k) => Err(k),
                                Ok((left_sort_exprs, i6)) => match list_dec::<SortExpr>(
                                    s,
                                    i6,
                                ) {
                                    Err(k) => Err(k),
                                    Ok((right_sort_exprs, i7)) => Ok(
                                        (
                                            OpV::SymmetricHashJoin {
                                                on,
                                                join_type,
                                                partition_mode,
                                                null_equality,
                                                filter,
                                                left_sort_exprs,
                                                right_sort_exprs,
                                            },
                                            i7,
                                        ),
                                    ),
                                },
                            },
                        },
                    },
                },
            },
        }
}

pub open spec fn spec_dec_op_crossjoin(s: Seq<u8>, i: int) -> SpecParse<OpV> {

        Ok((OpV::CrossJoin, i))
}

pub open spec fn spec_dec_op_nestedloopjoin(s: Seq<u8>, i: int) -> SpecParse<OpV> {

        match spec_dec_jt(s, i) {
            Err(k) => Err(k),
            Ok((join_type, i1)) => match opt_dec::<JoinFilter>(s, i1) {
                Err(k) => Err(k),
                Ok((filter, i2)) => match list_dec::<u64>(s, i2) {
                    Err(k) => Err(k),
                    Ok((projection, i3)) => Ok(
                        (OpV::NestedLoopJoin { join_type, filter, projection }, i3),
                    ),
                },
            },
        }
}

pub open spec fn spec_dec_op_sort(s: Seq<u8>, i: int) -> SpecParse<OpV> {

        match list_dec::<SortExpr>(s, i) {
            Err(k) => Err(k),
            Ok((exprs, i1)) => match spec_dec_fetch(s, i1) {
                Err(k) => Err(k),
                Ok((fetch, i2)) => match spec_dec_bool(s, i2) {
                    Err(k) => Err(k),
                    Ok((preserve_partitioning, i3)) => Ok(
                        (OpV::Sort { exprs, fetch, preserve_partitioning }, i3),
                    ),
                },
            },
        }
}

pub open spec fn spec_dec_op_sortpreservingmerge(s: Seq<u8>, i: int) -> SpecParse<OpV> {

        match list_dec::<SortExpr>(s, i) {
            Err(k) => Err(k),
            Ok((exprs, i1)) => match spec_dec_fetch(s, i1) {
                Err(k) => Err(k),
                Ok((fetch, i2)) => Ok((OpV::SortPreservingMerge { exprs, fetch }, i2)),
            },
        }
}

pub open spec fn spec_dec_op_coalescebatches(s: Seq<u8>, i: int) -> SpecParse<OpV> {

        match spec_dec_varint(s, i) {
            Err(k) => Err(k),
            Ok((target_batch_size, i1)) => match opt_dec::<u64>(s, i1) {
                Err(k) => Err(k),
                Ok((fetch, i2)) => Ok(
                    (OpV::CoalesceBatches { target_batch_size, fetch }, i2),
                ),
            },
        }
}

pub open spec fn spec_dec_op_coalescepartitions(s: Seq<u8>, i: int) -> SpecParse<OpV> {

        match opt_dec::<u64>(s, i) {
            Err(k) => Err(k),
            Ok((fetch, i1)) => Ok((OpV::CoalescePartitions { fetch }, i1)),
        }
}

pub open spec fn spec_dec_op_repartition(s: Seq<u8>, i: int) -> SpecParse<OpV> {

        match Partitioning::spec_dec(s, i) {
            Err(k) => Err(k),
            Ok((partitioning, i1)) => Ok((OpV::Repartition { partitioning }, i1)),
        }
}

pub open spec fn spec_dec_op_globallimit(s: Seq<u8>, i: int) -> SpecParse<OpV> {

        match spec_dec_varint(s, i) {
            Err(k) => Err(k),
            Ok((skip, i1)) => match spec_dec_fetch(s, i1) {
                Err(k) => Err(k),
                Ok((fetch, i2)) => Ok((OpV::GlobalLimit { skip, fetch }, i2)),
            },
        }
}

pub open spec fn spec_dec_op_locallimit(s: Seq<u8>, i: int) -> SpecParse<OpV> {

        match spec_dec_varint(s, i) {
            Err(k) => Err(k),
            Ok((fetch, i1)) => Ok((OpV::LocalLimit { fetch }, i1)),
        }
}

pub open spec fn spec_dec_op_union(s: Seq<u8>, i: int) -> SpecParse<OpV> {

        Ok((OpV::Union, i))
}

pub open spec fn spec_dec_op_interleave(s: Seq<u8>, i: int) -> SpecParse<OpV> {

        Ok((OpV::Interleave, i))
}

pub open spec fn spec_dec_op_empty(s: Seq<u8>, i: int) -> SpecParse<OpV> {

        match Schema::spec_dec(s, i) {
            Err(k) => Err(k),
            Ok((schema, i1)) => Ok((OpV::Empty { schema }, i1)),
        }
}

pub open spec fn spec_dec_op_placeholderrow(s: Seq<u8>, i: int) -> SpecParse<OpV> {

        match Schema::spec_dec(s, i) {
            Err(k) => Err(k),
            Ok((schema, i1)) => Ok((OpV::PlaceholderRow { schema }, i1)),
        }
}

pub open spec fn spec_dec_op_explain(s: Seq<u8>, i: int) -> SpecParse<OpV> {

        match Schema::spec_dec(s, i) {
            Err(k) => Err(k),
            Ok((schema, i1)) => match list_dec::<Vec<u8>>(s, i1) {
                Err(k) => Err(k),
                Ok((stringified_plans, i2)) => match spec_dec_bool(s, i2) {
                    Err(k) => Err(k),
                    Ok((verbose, i3)) => Ok(
                        (OpV::Explain { schema, stringified_plans, verbose }, i3),
                    ),
                },
            },
        }
}

pub open spec fn spec_dec_op_analyze(s: Seq<u8>, i: int) -> SpecParse<OpV> {

        match spec_dec_bool(s, i) {
            Err(k) => Err(k),
            Ok((verbose, i1)) => match spec_dec_bool(s, i1) {
                Err(k) => Err(k),
                Ok((show_statistics, i2)) => match Schema::spec_dec(s, i2) {
                    Err(k) => Err(k),
                    Ok((schema, i3)) => Ok(
                        (OpV::Analyze { verbose, show_statistics, schema }, i3),
                    ),
                },
            },
        }
}

pub open spec fn spec_dec_op_window(s: Seq<u8>, i: int) -> SpecParse<OpV> {

        match list_dec::<WindowExpr>(s, i) {
            Err(k) => Err(k),
            Ok((window_exprs, i1)) => match list_dec::<Expr>(s, i1) {
                Err(k) => Err(k),
                Ok((partition_keys, i2)) => match opt_dec::<InputOrderMode>(s, i2) {
                    Err(k) => Err(k),
                    Ok((input_order_mode, i3)) => Ok(
                        (
                            OpV::Window {
                                window_exprs,
                                partition_keys,
                                input_order_mode,
                            },
                            i3,
                        ),
                    ),
                },
            },
        }
}

pub open spec fn spec_dec_op_unnest(s: Seq<u8>, i: int) -> SpecParse<OpV> {

        match list_dec::<ListUnnest>(s, i) {
            Err(k) => Err(k),
            Ok((list_type_columns, i1)) => match list_dec::<u64>(s, i1) {
                Err(k) => Err(k),
                Ok((struct_type_columns, i2)) => match Schema::spec_dec(s, i2) {
                    Err(k) => Err(k),
                    Ok((schema, i3)) => match spec_dec_bool(s, i3) {
                        Err(k) => Err(k),
                        Ok((preserve_nulls, i4)) => Ok(
                            (
                                OpV::Unnest {
                                    list_type_columns,
                                    struct_type_columns,
                                    schema,
                                    preserve_nulls,
                                },
                                i4,
                            ),
                        ),
                    },
                },
            },
        }
}

pub open spec fn spec_dec_op_cooperative(s: Seq<u8>, i: int) -> SpecParse<OpV> {

        Ok((OpV::Cooperative, i))
}

pub open spec fn spec_dec_op_csvscan(s: Seq<u8>, i: int) -> SpecParse<OpV> {

        match FileScanConfig::spec_dec(s, i) {
            Err(k) => Err(k),
            Ok((base_conf, i1)) => match spec_dec_bool(s, i1) {
                Err(k) => Err(k),
                Ok((has_header, i2)) => match spec_dec_single_byte(s, i2) {
                    Err(k) => Err(k),
                    Ok((delimiter, i3)) => match spec_dec_single_byte(s, i3) {
                        Err(k) => Err(k),
                        Ok((quote, i4)) => match spec_dec_opt_sbyte(s, i4) {
                            Err(k) => Err(k),
                            Ok((escape, i5)) => match spec_dec_opt_sbyte(s, i5) {
                                Err(k) => Err(k),
                                Ok((comment, i6)) => match spec_dec_bool(s, i6) {
                                    Err(k) => Err(k),
                                    Ok((newlines_in_values, i7)) => Ok(
                                        (
                                            OpV::CsvScan {
                                                base_conf,
                                                has_header,
                                                delimiter,
                                                quote,
                                                escape,
                                                comment,
                                                newlines_in_values,
                                            },
                                            i7,
                                        ),
                                    ),
                                },
                            },
                        },
                    },
                },
            },
        }
}

pub open spec fn spec_dec_op_jsonscan(s: Seq<u8>, i: int) -> SpecParse<OpV> {

        match FileScanConfig::spec_dec(s, i) {
            Err(k) => Err(k),
            Ok((base_conf, i1)) => Ok((OpV::JsonScan { base_conf }, i1)),
        }
}

pub open spec fn spec_dec_op_parquetscan(s: Seq<u8>, i: int) -> SpecParse<OpV> {

        match FileScanConfig::spec_dec(s, i) {
            Err(k) => Err(k),
            Ok((base_conf, i1)) => match opt_dec::<Expr>(s, i1) {
                Err(k) => Err(k),
                Ok((predicate, i2)) => match spec_dec_bytes(s, i2) {
                    Err(k) => Err(k),
                    Ok((parquet_options, i3)) => Ok(
                        (OpV::ParquetScan { base_conf, predicate, parquet_options }, i3),
                    ),
                },
            },
        }
}

pub open spec fn spec_dec_op_avroscan(s: Seq<u8>, i: int) -> SpecParse<OpV> {

        match FileScanConfig::spec_dec(s, i) {
            Err(k) => Err(k),
            Ok((base_conf, i1)) => Ok((OpV::AvroScan { base_conf }, i1)),
        }
}

pub open spec fn spec_dec_op_csvsink(s: Seq<u8>, i: int) -> SpecParse<OpV> {

        match spec_dec_bytes(s, i) {
            Err(k) => Err(k),
            Ok((sink, i1)) => match Schema::spec_dec(s, i1) {
                Err(k) => Err(k),
                Ok((sink_schema, i2)) => match opt_dec::<Vec<SortExpr>>(s, i2) {
                    Err(k) => Err(k),
                    Ok((sort_order, i3)) => Ok(
                        (OpV::CsvSink { sink, sink_schema, sort_order }, i3),
                    ),
                },
            },
        }
}

pub open spec fn spec_dec_op_jsonsink(s: Seq<u8>, i: int) -> SpecParse<OpV> {

        match spec_dec_bytes(s, i) {
            Err(k) => Err(k),
            Ok((sink, i1)) => match Schema::spec_dec(s, i1) {
                Err(k) => Err(k),
                Ok((sink_schema, i2)) => match opt_dec::<Vec<SortExpr>>(s, i2) {
                    Err(k) => Err(k),
                    Ok((sort_order, i3)) => Ok(
                        (OpV::JsonSink { sink, sink_schema, sort_order }, i3),
                    ),
                },
            },
        }
}

pub open spec fn spec_dec_op_parquetsink(s: Seq<u8>, i: int) -> SpecParse<OpV> {

        match spec_dec_bytes(s, i) {
            Err(k) => Err(k),
            Ok((sink, i1)) => match Schema::spec_dec(s, i1) {
                Err(k) => Err(k),
                Ok((sink_schema, i2)) => match opt_dec::<Vec<SortExpr>>(s, i2) {
                    Err(k) => Err(k),
                    Ok((sort_order, i3)) => Ok(
                        (OpV::ParquetSink { sink, sink_schema, sort_order }, i3),
                    ),
                },
            },
        }
}

/// Appends the kind-specific fields of `op`.
pub fn enc_op_payload(out: &mut Vec<u8>, op: &OpKind)
    ensures
        final(out)@ == old(out)@ + spec_enc_op_payload(op.deep_view()),
{
    match op {
        OpKind::Projection { .. } => enc_op_group0(out, op),
        OpKind::Filter { .. } => enc_op_group0(out, op),
        OpKind::Aggregate { .. } => enc_op_group0(out, op),
        OpKind::HashJoin { .. } => enc_op_group0(out, op),
        OpKind::SymmetricHashJoin { .. } => enc_op_group0(out, op),
        OpKind::CrossJoin { .. } => enc_op_group1(out, op),
        OpKind::NestedLoopJoin { .. } => enc_op_group1(out, op),
        OpKind::Sort { .. } => enc_op_group1(out, op),
        OpKind::SortPreservingMerge { .. } => enc_op_group1(out, op),
        OpKind::CoalesceBatches { .. } => enc_op_group1(out, op),
        OpKind::CoalescePartitions { .. } => enc_op_group2(out, op),
        OpKind::Repartition { .. } => enc_op_group2(out, op),
        OpKind::GlobalLimit { .. } => enc_op_group2(out, op),
        OpKind::LocalLimit { .. } => enc_op_group2(out, op),
        OpKind::Union { .. } => enc_op_group2(out, op),
        OpKind::Interleave { .. } => enc_op_group3(out, op),
        OpKind::Empty { .. } => enc_op_group3(out, op),
        OpKind::PlaceholderRow { .. } => enc_op_group3(out, op),
        OpKind::Explain { .. } => enc_op_group3(out, op),
        OpKind::Analyze { .. } => enc_op_group3(out, op),
        OpKind::Window { .. } => enc_op_group4(out, op),
        OpKind::Unnest { .. } => enc_op_group4(out, op),
        OpKind::Cooperative { .. } => enc_op_group4(out, op),
        OpKind::CsvScan { .. } => enc_op_group4(out, op),
        OpKind::JsonScan { .. } => enc_op_group4(out, op),
        OpKind::ParquetScan { .. } => enc_op_group5(out, op),
        OpKind::AvroScan { .. } => enc_op_group5(out, op),
        OpKind::CsvSink { .. } => enc_op_group5(out, op),
        OpKind::JsonSink { .. } => enc_op_group5(out, op),
        OpKind::ParquetSink { .. } => enc_op_group5(out, op),
        OpKind::Extension { .. } => enc_op_group6(out, op),
    }
}

fn enc_op_group0(out: &mut Vec<u8>, op: &OpKind)
    requires
        op is Projection || op is Filter || op is Aggregate || op is HashJoin || op is SymmetricHashJoin,
    ensures
        final(out)@ == old(out)@ + spec_enc_op_payload(op.deep_view()),
{
    match op {
        OpKind::Projection { .. } => enc_op_projection(out, op),
        OpKind::Filter { .. } => enc_op_filter(out, op),
        OpKind::Aggregate { .. } => enc_op_aggregate(out, op),
        OpKind::HashJoin { .. } => enc_op_hashjoin(out, op),
        OpKind::SymmetricHashJoin { .. } => enc_op_symmetrichashjoin(out, op),
        _ => {
        },
    }
}

#[verifier::rlimit(100)]
#[verifier::spinoff_prover]
fn enc_op_projection(out: &mut Vec<u8>, op: &OpKind)
    requires
        op is Projection,
    ensures
        final(out)@ == old(out)@ + spec_enc_op_payload(op.deep_view()),
{
    proof {
        reveal(spec_enc_op_payload);
    }
    let ghost pre = out@;
    match op {
        OpKind::Projection { exprs, names } => {
            enc_list_of::<Expr>(out, exprs);
            enc_list_of::<Vec<u8>>(out, names);
            proof {
                assert(out@ =~= pre + spec_enc_op_payload(op.deep_view()));
            }
        },
        _ => {
        },
    }
}

#[verifier::rlimit(100)]
#[verifier::spinoff_prover]
fn enc_op_filter(out: &mut Vec<u8>, op: &OpKind)
    requires
        op is Filter,
    ensures
        final(out)@ == old(out)@ + spec_enc_op_payload(op.deep_view()),
{
    proof {
        reveal(spec_enc_op_payload);
    }
    let ghost pre = out@;
    match op {
        OpKind::Filter { predicate, projection, default_selectivity } => {
            predicate.enc(out);
            enc_list_of::<u64>(out, projection);
            enc_varint(out, *default_selectivity as u64);
            proof {
                assert(out@ =~= pre + spec_enc_op_payload(op.deep_view()));
            }
        },
        _ => {
        },
    }
}

#[verifier::rlimit(100)]
#[verifier::spinoff_prover]
fn enc_op_aggregate(out: &mut Vec<u8>, op: &OpKind)
    requires
        op is Aggregate,
    ensures
        final(out)@ == old(out)@ + spec_enc_op_payload(op.deep_view()),
{
    proof {
        reveal(spec_enc_op_payload);
    }
    let ghost pre = out@;
    match op {
        OpKind::Aggregate {
            mode,
            group_exprs,
            group_names,
            null_exprs,
            groups,
            aggr_exprs,
            filter_exprs,
            input_schema,
            limit,
        } => {
            enc_am(out, *mode);
            enc_list_of::<Expr>(out, group_exprs);
            enc_list_of::<Vec<u8>>(out, group_names);
            enc_list_of::<Expr>(out, null_exprs);
            let flat = flatten_groups(groups);
            enc_list_of::<bool>(out, &flat);
            enc_list_of::<AggExpr>(out, aggr_exprs);
            enc_list_of::<Option<Expr>>(out, filter_exprs);
            input_schema.enc(out);
            enc_opt_of::<u64>(out, limit);
            proof {
                assert(out@ =~= pre + spec_enc_op_payload(op.deep_view()));
            }
        },
        _ => {
        },
    }
}

#[verifier::rlimit(100)]
#[verifier::spinoff_prover]
fn enc_op_hashjoin(out: &mut Vec<u8>, op: &OpKind)
    requires
        op is HashJoin,
    ensures
        final(out)@ == old(out)@ + spec_enc_op_payload(op.deep_view()),
{
    proof {
        reveal(spec_enc_op_payload);
    }
    let ghost pre = out@;
    match op {
        OpKind::HashJoin { on, join_type, partition_mode, null_equality, filter, projection } => {
            enc_list_of::<JoinOn>(out, on);
            enc_jt(out, *join_type);
            enc_pm(out, *partition_mode);
            enc_ne(out, *null_equality);
            enc_opt_of::<JoinFilter>(out, filter);
            enc_list_of::<u64>(out, projection);
            proof {
                assert(out@ =~= pre + spec_enc_op_payload(op.deep_view()));
            }
        },
        _ => {
        },
    }
}

#[verifier::rlimit(100)]
#[verifier::spinoff_prover]
fn enc_op_symmetrichashjoin(out: &mut Vec<u8>, op: &OpKind)
    requires
        op is SymmetricHashJoin,
    ensures
        final(out)@ == old(out)@ + spec_enc_op_payload(op.deep_view()),
{
    proof {
        reveal(spec_enc_op_payload);
    }
    let ghost pre = out@;
    match op {
        OpKind::SymmetricHashJoin {
            on,
            join_type,
            partition_mode,
            null_equality,
            filter,
            left_sort_exprs,
            right_sort_exprs,
        } => {
            enc_list_of::<JoinOn>(out, on);
            enc_jt(out, *join_type);
            enc_spm(out, *partition_mode);
            enc_ne(out, *null_equality);
            enc_opt_of::<JoinFilter>(out, filter);
            enc_list_of::<SortExpr>(out, left_sort_exprs);
            enc_list_of::<SortExpr>(out, right_sort_exprs);
            proof {
                assert(out@ =~= pre + spec_enc_op_payload(op.deep_view()));
            }
        },
        _ => {
        },
    }
}
#[verifier::rlimit(100)]
#[verifier::spinoff_prover]
fn enc_op_group1(out: &mut Vec<u8>, op: &OpKind)
    requires
        op is CrossJoin || op is NestedLoopJoin || op is Sort || op is SortPreservingMerge || op is CoalesceBatches,
    ensures
        final(out)@ == old(out)@ + spec_enc_op_payload(op.deep_view()),
{
    proof {
        reveal(spec_enc_op_payload);
    }
    let ghost pre = out@;
    match op {
        OpKind::CrossJoin => {
            proof {
                assert(out@ =~= pre + spec_enc_op_payload(op.deep_view()));
            }
        },
        OpKind::NestedLoopJoin { join_type, filter, projection } => {
            enc_jt(out, *join_type);
            enc_opt_of::<JoinFilter>(out, filter);
            enc_list_of::<u64>(out, projection);
            proof {
                assert(out@ =~= pre + spec_enc_op_payload(op.deep_view()));
            }
        },
        OpKind::Sort { exprs, fetch, preserve_partitioning } => {
            enc_list_of::<SortExpr>(out, exprs);
            enc_fetch(out, fetch);
            enc_bool(out, *preserve_partitioning);
            proof {
                assert(out@ =~= pre + spec_enc_op_payload(op.deep_view()));
            }
        },
        OpKind::SortPreservingMerge { exprs, fetch } => {
            enc_list_of::<SortExpr>(out, exprs);
            enc_fetch(out, fetch);
            proof {
                assert(out@ =~= pre + spec_enc_op_payload(op.deep_view()));
            }
        },
        OpKind::CoalesceBatches { target_batch_size, fetch } => {
            enc_varint(out, *target_batch_size);
            enc_opt_of::<u64>(out, fetch);
            proof {
                assert(out@ =~= pre + spec_enc_op_payload(op.deep_view()));
            }
        },
        _ => {
        },
    }
}

#[verifier::rlimit(100)]
#[verifier::spinoff_prover]
fn enc_op_group2(out: &mut Vec<u8>, op: &OpKind)
    requires
        op is CoalescePartitions || op is Repartition || op is GlobalLimit || op is LocalLimit || op is Union,
    ensures
        final(out)@ == old(out)@ + spec_enc_op_payload(op.deep_view()),
{
    proof {
        reveal(spec_enc_op_payload);
    }
    let ghost pre = out@;
    match op {
        OpKind::CoalescePartitions { fetch } => {
            enc_opt_of::<u64>(out, fetch);
            proof {
                assert(out@ =~= pre + spec_enc_op_payload(op.deep_view()));
            }
        },
        OpKind::Repartition { partitioning } => {
            partitioning.enc(out);
            proof {
                assert(out@ =~= pre + spec_enc_op_payload(op.deep_view()));
            }
        },
        OpKind::GlobalLimit { skip, fetch } => {
            enc_varint(out, *skip);
            enc_fetch(out, fetch);
            proof {
                assert(out@ =~= pre + spec_enc_op_payload(op.deep_view()));
            }
        },
        OpKind::LocalLimit { fetch } => {
            enc_varint(out, *fetch);
            proof {
                assert(out@ =~= pre + spec_enc_op_payload(op.deep_view()));
            }
        },
        OpKind::Union => {
            proof {
                assert(out@ =~= pre + spec_enc_op_payload(op.deep_view()));
            }
        },
        _ => {
        },
    }
}

#[verifier::rlimit(100)]
#[verifier::spinoff_prover]
fn enc_op_group3(out: &mut Vec<u8>, op: &OpKind)
    requires
        op is Interleave || op is Empty || op is PlaceholderRow || op is Explain || op is Analyze,
    ensures
        final(out)@ == old(out)@ + spec_enc_op_payload(op.deep_view()),
{
    proof {
        reveal(spec_enc_op_payload);
    }
    let ghost pre = out@;
    match op {
        OpKind::Interleave => {
            proof {
                assert(out@ =~= pre + spec_enc_op_payload(op.deep_view()));
            }
        },
        OpKind::Empty { schema } => {
            schema.enc(out);
            proof {
                assert(out@ =~= pre + spec_enc_op_payload(op.deep_view()));
            }
        },
        OpKind::PlaceholderRow { schema } => {
            schema.enc(out);
            proof {
                assert(out@ =~= pre + spec_enc_op_payload(op.deep_view()));
            }
        },
        OpKind::Explain { schema, stringified_plans, verbose } => {
            schema.enc(out);
            enc_list_of::<Vec<u8>>(out, stringified_plans);
            enc_bool(out, *verbose);
            proof {
                assert(out@ =~= pre + spec_enc_op_payload(op.deep_view()));
            }
        },
        OpKind::Analyze { verbose, show_statistics, schema } => {
            enc_bool(out, *verbose);
            enc_bool(out, *show_statistics);
            schema.enc(out);
            proof {
                assert(out@ =~= pre + spec_enc_op_payload(op.deep_view()));
            }
        },
        _ => {
        },
    }
}

#[verifier::rlimit(100)]
#[verifier::spinoff_prover]
fn enc_op_group4(out: &mut Vec<u8>, op: &OpKind)
    requires
        op is Window || op is Unnest || op is Cooperative || op is CsvScan || op is JsonScan,
    ensures
        final(out)@ == old(out)@ + spec_enc_op_payload(op.deep_view()),
{
    proof {
        reveal(spec_enc_op_payload);
    }
    let ghost pre = out@;
    match op {
        OpKind::Window { window_exprs, partition_keys, input_order_mode } => {
            enc_list_of::<WindowExpr>(out, window_exprs);
            enc_list_of::<Expr>(out, partition_keys);
            enc_opt_of::<InputOrderMode>(out, input_order_mode);
            proof {
                assert(out@ =~= pre + spec_enc_op_payload(op.deep_view()));
            }
        },
        OpKind::Unnest { list_type_columns, struct_type_columns, schema, preserve_nulls } => {
            enc_list_of::<ListUnnest>(out, list_type_columns);
            enc_list_of::<u64>(out, struct_type_columns);
            schema.enc(out);
            enc_bool(out, *preserve_nulls);
            proof {
                assert(out@ =~= pre + spec_enc_op_payload(op.deep_view()));
            }
        },
        OpKind::Cooperative => {
            proof {
                assert(out@ =~= pre + spec_enc_op_payload(op.deep_view()));
            }
        },
        OpKind::CsvScan {
            base_conf,
            has_header,
            delimiter,
            quote,
            escape,
            comment,
            newlines_in_values,
        } => {
            base_conf.enc(out);
            enc_bool(out, *has_header);
            enc_single_byte(out, *delimiter);
            enc_single_byte(out, *quote);
            enc_opt_sbyte(out, escape);
            enc_opt_sbyte(out, comment);
            enc_bool(out, *newlines_in_values);
            proof {
                assert(out@ =~= pre + spec_enc_op_payload(op.deep_view()));
            }
        },
        OpKind::JsonScan { base_conf } => {
            base_conf.enc(out);
            proof {
                assert(out@ =~= pre + spec_enc_op_payload(op.deep_view()));
            }
        },
        _ => {
        },
    }
}

#[verifier::rlimit(100)]
#[verifier::spinoff_prover]
fn enc_op_group5(out: &mut Vec<u8>, op: &OpKind)
    requires
        op is ParquetScan || op is AvroScan || op is CsvSink || op is JsonSink || op is ParquetSink,
    ensures
        final(out)@ == old(out)@ + spec_enc_op_payload(op.deep_view()),
{
    proof {
        reveal(spec_enc_op_payload);
    }
    let ghost pre = out@;
    match op {
        OpKind::ParquetScan { base_conf, predicate, parquet_options } => {
            base_conf.enc(out);
            enc_opt_of::<Expr>(out, predicate);
            enc_bytes(out, parquet_options.as_slice());
            proof {
                assert(out@ =~= pre + spec_enc_op_payload(op.deep_view()));
            }
        },
        OpKind::AvroScan { base_conf } => {
            base_conf.enc(out);
            proof {
                assert(out@ =~= pre + spec_enc_op_payload(op.deep_view()));
            }
        },
        OpKind::CsvSink { sink, sink_schema, sort_order } => {
            enc_bytes(out, sink.as_slice());
            sink_schema.enc(out);
            enc_opt_of::<Vec<SortExpr>>(out, sort_order);
            proof {
                assert(out@ =~= pre + spec_enc_op_payload(op.deep_view()));
            }
        },
        OpKind::JsonSink { sink, sink_schema, sort_order } => {
            enc_bytes(out, sink.as_slice());
            sink_schema.enc(out);
            enc_opt_of::<Vec<SortExpr>>(out, sort_order);
            proof {
                assert(out@ =~= pre + spec_enc_op_payload(op.deep_view()));
            }
        },
        OpKind::ParquetSink { sink, sink_schema, sort_order } => {
            enc_bytes(out, sink.as_slice());
            sink_schema.enc(out);
            enc_opt_of::<Vec<SortExpr>>(out, sort_order);
            proof {
                assert(out@ =~= pre + spec_enc_op_payload(op.deep_view()));
            }
        },
        _ => {
        },
    }
}

#[verifier::rlimit(100)]
#[verifier::spinoff_prover]
fn enc_op_group6(out: &mut Vec<u8>, op: &OpKind)
    requires
        op is Extension,
    ensures
        final(out)@ == old(out)@ + spec_enc_op_payload(op.deep_view()),
{
    proof {
        reveal(spec_enc_op_payload);
    }
    let ghost pre = out@;
    match op {
        OpKind::Extension { .. } => {
            proof {
                assert(out@ =~= pre + spec_enc_op_payload(op.deep_view()));
            }
        },
        _ => {
        },
    }
}

/// Parses the kind-specific fields selected by tag `t`.
pub fn dec_op_payload(s: &[u8], i: usize, t: u64) -> (r: Result<(OpKind, usize), CodecError>)
    requires
        i <= s@.len(),
        1 <= t <= 30,
    ensures
        ({
            let m = spec_dec_op_payload(s@, i as int, t);
            match r {
                Ok((op, j)) => m == Ok::<(OpV, int), ErrorKind>((op.deep_view(), j as int)),
                Err(e) => m is Err && m->Err_0 == e.kind,
            }
        }),
        r is Ok ==> i <= r->Ok_0.1 <= s@.len(),
{
    if 1 <= t && t <= 5 {
        dec_op_group0(s, i, t)
    } else if 6 <= t && t <= 10 {
        dec_op_group1(s, i, t)
    } else if 11 <= t && t <= 15 {
        dec_op_group2(s, i, t)
    } else if 16 <= t && t <= 20 {
        dec_op_group3(s, i, t)
    } else if 21 <= t && t <= 25 {
        dec_op_group4(s, i, t)
    } else if 26 <= t && t <= 30 {
        dec_op_group5(s, i, t)
    } else {
        Err(CodecError::malformed("operator tag out of range"))
    }
}

#[verifier::rlimit(100)]
#[verifier::spinoff_prover]
fn dec_op_group0(s: &[u8], i: usize, t: u64) -> (r: Result<(OpKind, usize), CodecError>)
    requires
        i <= s@.len(),
        1 <= t <= 5,
    ensures
        ({
            let m = spec_dec_op_payload(s@, i as int, t);
            match r {
                Ok((op, j)) => m == Ok::<(OpV, int), ErrorKind>((op.deep_view(), j as int)),
                Err(e) => m is Err && m->Err_0 == e.kind,
            }
        }),
        r is Ok ==> i <= r->Ok_0.1 <= s@.len(),
{
    proof {
        reveal(spec_dec_op_payload);
    }
    if t == 1 {
        let (exprs, i1) = dec_list_of::<Expr>(s, i)?;
        let (names, i2) = dec_list_of::<Vec<u8>>(s, i1)?;
        Ok((OpKind::Projection { exprs, names }, i2))
    } else if t == 2 {

        let (predicate, i1) = Expr::dec(s, i)?;
        let (projection, i2) = dec_list_of::<u64>(s, i1)?;
        let (raw, i3) = dec_varint(s, i2)?;
        if raw > 255 {
            return Err(CodecError::malformed("selectivity does not fit one byte"));
        }
        Ok((OpKind::Filter { predicate, projection, default_selectivity: raw as u8 }, i3))
    } else if t == 3 {

        let (mode, i1) = dec_am(s, i)?;
        let (group_exprs, i2) = dec_list_of::<Expr>(s, i1)?;
        let (group_names, i3) = dec_list_of::<Vec<u8>>(s, i2)?;
        let (null_exprs, i4) = dec_list_of::<Expr>(s, i3)?;
        let (flat, i5) = dec_list_of::<bool>(s, i4)?;
        let groups = unflatten_groups(&flat, group_exprs.len())?;
        let (aggr_exprs, i6) = dec_list_of::<AggExpr>(s, i5)?;
        let (filter_exprs, i7) = dec_list_of::<Option<Expr>>(s, i6)?;
        let (input_schema, i8) = Schema::dec(s, i7)?;
        let (limit, i9) = dec_opt_of::<u64>(s, i8)?;
        Ok(
            (
                OpKind::Aggregate {
                    mode,
                    group_exprs,
                    group_names,
                    null_exprs,
                    groups,
                    aggr_exprs,
                    filter_exprs,
                    input_schema,
                    limit,
                },
                i9,
            ),
        )
    } else if t == 4 {

        let (on, i1) = dec_list_of::<JoinOn>(s, i)?;
        let (join_type, i2) = dec_jt(s, i1)?;
        let (partition_mode, i3) = dec_pm(s, i2)?;
        let (null_equality, i4) = dec_ne(s, i3)?;
        let (filter, i5) = dec_opt_of::<JoinFilter>(s, i4)?;
        let (projection, i6) = dec_list_of::<u64>(s, i5)?;
        Ok(
            (
                OpKind::HashJoin {
                    on,
                    join_type,
                    partition_mode,
                    null_equality,
                    filter,
                    projection,
                },
                i6,
            ),
        )
    } else if t == 5 {

        let (on, i1) = dec_list_of::<JoinOn>(s, i)?;
        let (join_type, i2) = dec_jt(s, i1)?;
        let (partition_mode, i3) = dec_spm(s, i2)?;
        let (null_equality, i4) = dec_ne(s, i3)?;
        let (filter, i5) = dec_opt_of::<JoinFilter>(s, i4)?;
        let (left_sort_exprs, i6) = dec_list_of::<SortExpr>(s, i5)?;
        let (right_sort_exprs, i7) = dec_list_of::<SortExpr>(s, i6)?;
        Ok(
            (
                OpKind::SymmetricHashJoin {
                    on,
                    join_type,
                    partition_mode,
                    null_equality,
                    filter,
                    left_sort_exprs,
                    right_sort_exprs,
                },
                i7,
            ),
        )
    } else {
        Err(CodecError::malformed("operator tag out of range"))
    }
}

#[verifier::rlimit(100)]
#[verifier::spinoff_prover]
fn dec_op_group1(s: &[u8], i: usize, t: u64) -> (r: Result<(OpKind, usize), CodecError>)
    requires
        i <= s@.len(),
        6 <= t <= 10,
    ensures
        ({
            let m = spec_dec_op_payload(s@, i as int, t);
            match r {
                Ok((op, j)) => m == Ok::<(OpV, int), ErrorKind>((op.deep_view(), j as int)),
                Err(e) => m is Err && m->Err_0 == e.kind,
            }
        }),
        r is Ok ==> i <= r->Ok_0.1 <= s@.len(),
{
    proof {
        reveal(spec_dec_op_payload);
    }
    if t == 6 {

        Ok((OpKind::CrossJoin, i))
    } else if t == 7 {

        let (join_type, i1) = dec_jt(s, i)?;
        let (filter, i2) = dec_opt_of::<JoinFilter>(s, i1)?;
        let (projection, i3) = dec_list_of::<u64>(s, i2)?;
        Ok((OpKind::NestedLoopJoin { join_type, filter, projection }, i3))
    } else if t == 8 {

        let (exprs, i1) = dec_list_of::<SortExpr>(s, i)?;
        let (fetch, i2) = dec_fetch(s, i1)?;
        let (preserve_partitioning, i3) = dec_bool(s, i2)?;
        Ok((OpKind::Sort { exprs, fetch, preserve_partitioning }, i3))
    } else if t == 9 {

        let (exprs, i1) = dec_list_of::<SortExpr>(s, i)?;
        let (fetch, i2) = dec_fetch(s, i1)?;
        Ok((OpKind::SortPreservingMerge { exprs, fetch }, i2))
    } else if t == 10 {

        let (target_batch_size, i1) = dec_varint(s, i)?;
        let (fetch, i2) = dec_opt_of::<u64>(s, i1)?;
        Ok((OpKind::CoalesceBatches { target_batch_size, fetch }, i2))
    } else {
        Err(CodecError::malformed("operator tag out of range"))
    }
}

#[verifier::rlimit(100)]
#[verifier::spinoff_prover]
fn dec_op_group2(s: &[u8], i: usize, t: u64) -> (r: Result<(OpKind, usize), CodecError>)
    requires
        i <= s@.len(),
        11 <= t <= 15,
    ensures
        ({
            let m = spec_dec_op_payload(s@, i as int, t);
            match r {
                Ok((op, j)) => m == Ok::<(OpV, int), ErrorKind>((op.deep_view(), j as int)),
                Err(e) => m is Err && m->Err_0 == e.kind,
            }
        }),
        r is Ok ==> i <= r->Ok_0.1 <= s@.len(),
{
    proof {
        reveal(spec_dec_op_payload);
    }
    if t == 11 {

        let (fetch, i1) = dec_opt_of::<u64>(s, i)?;
        Ok((OpKind::CoalescePartitions { fetch }, i1))
    } else if t == 12 {

        let (partitioning, i1) = Partitioning::dec(s, i)?;
        Ok((OpKind::Repartition { partitioning }, i1))
    } else if t == 13 {

        let (skip, i1) = dec_varint(s, i)?;
        let (fetch, i2) = dec_fetch(s, i1)?;
        Ok((OpKind::GlobalLimit { skip, fetch }, i2))
    } else if t == 14 {

        let (fetch, i1) = dec_varint(s, i)?;
        Ok((OpKind::LocalLimit { fetch }, i1))
    } else if t == 15 {

        Ok((OpKind::Union, i))
    } else {
        Err(CodecError::malformed("operator tag out of range"))
    }
}

#[verifier::rlimit(100)]
#[verifier::spinoff_prover]
fn dec_op_group3(s: &[u8], i: usize, t: u64) -> (r: Result<(OpKind, usize), CodecError>)
    requires
        i <= s@.len(),
        16 <= t <= 20,
    ensures
        ({
            let m = spec_dec_op_payload(s@, i as int, t);
            match r {
                Ok((op, j)) => m == Ok::<(OpV, int), ErrorKind>((op.deep_view(), j as int)),
                Err(e) => m is Err && m->Err_0 == e.kind,
            }
        }),
        r is Ok ==> i <= r->Ok_0.1 <= s@.len(),
{
    proof {
        reveal(spec_dec_op_payload);
    }
    if t == 16 {
        Ok((OpKind::Interleave, i))
    } else if t == 17 {

        let (schema, i1) = Schema::dec(s, i)?;
        Ok((OpKind::Empty { schema }, i1))
    } else if t == 18 {

        let (schema, i1) = Schema::dec(s, i)?;
        Ok((OpKind::PlaceholderRow { schema }, i1))
    } else if t == 19 {

        let (schema, i1) = Schema::dec(s, i)?;
        let (stringified_plans, i2) = dec_list_of::<Vec<u8>>(s, i1)?;
        let (verbose, i3) = dec_bool(s, i2)?;
        Ok((OpKind::Explain { schema, stringified_plans, verbose }, i3))
    } else if t == 20 {

        let (verbose, i1) = dec_bool(s, i)?;
        let (show_statistics, i2) = dec_bool(s, i1)?;
        let (schema, i3) = Schema::dec(s, i2)?;
        Ok((OpKind::Analyze { verbose, show_statistics, schema }, i3))
    } else {
        Err(CodecError::malformed("operator tag out of range"))
    }
}

#[verifier::rlimit(100)]
#[verifier::spinoff_prover]
fn dec_op_group4(s: &[u8], i: usize, t: u64) -> (r: Result<(OpKind, usize), CodecError>)
    requires
        i <= s@.len(),
        21 <= t <= 25,
    ensures
        ({
            let m = spec_dec_op_payload(s@, i as int, t);
            match r {
                Ok((op, j)) => m == Ok::<(OpV, int), ErrorKind>((op.deep_view(), j as int)),
                Err(e) => m is Err && m->Err_0 == e.kind,
            }
        }),
        r is Ok ==> i <= r->Ok_0.1 <= s@.len(),
{
    proof {
        reveal(spec_dec_op_payload);
    }
    if t == 21 {

        let (window_exprs, i1) = dec_list_of::<WindowExpr>(s, i)?;
        let (partition_keys, i2) = dec_list_of::<Expr>(s, i1)?;
        let (input_order_mode, i3) = dec_opt_of::<InputOrderMode>(s, i2)?;
        Ok((OpKind::Window { window_exprs, partition_keys, input_order_mode }, i3))
    } else if t == 22 {

        let (list_type_columns, i1) = dec_list_of::<ListUnnest>(s, i)?;
        let (struct_type_columns, i2) = dec_list_of::<u64>(s, i1)?;
        let (schema, i3) = Schema::dec(s, i2)?;
        let (preserve_nulls, i4) = dec_bool(s, i3)?;
        Ok(
            (
                OpKind::Unnest {
                    list_type_columns,
                    struct_type_columns,
                    schema,
                    preserve_nulls,
                },
                i4,
            ),
        )
    } else if t == 23 {

        Ok((OpKind::Cooperative, i))
    } else if t == 24 {

        let (base_conf, i1) = FileScanConfig::dec(s, i)?;
        let (has_header, i2) = dec_bool(s, i1)?;
        let (delimiter, i3) = dec_single_byte(s, i2)?;
        let (quote, i4) = dec_single_byte(s, i3)?;
        let (escape, i5) = dec_opt_sbyte(s, i4)?;
        let (comment, i6) = dec_opt_sbyte(s, i5)?;
        let (newlines_in_values, i7) = dec_bool(s, i6)?;
        Ok(
            (
                OpKind::CsvScan {
                    base_conf,
                    has_header,
                    delimiter,
                    quote,
                    escape,
                    comment,
                    newlines_in_values,
                },
                i7,
            ),
        )
    } else if t == 25 {

        let (base_conf, i1) = FileScanConfig::dec(s, i)?;
        Ok((OpKind::JsonScan { base_conf }, i1))
    } else {
        Err(CodecError::malformed("operator tag out of range"))
    }
}

#[verifier::rlimit(100)]
#[verifier::spinoff_prover]
fn dec_op_group5(s: &[u8], i: usize, t: u64) -> (r: Result<(OpKind, usize), CodecError>)
    requires
        i <= s@.len(),
        26 <= t <= 30,
    ensures
        ({
            let m = spec_dec_op_payload(s@, i as int, t);
            match r {
                Ok((op, j)) => m == Ok::<(OpV, int), ErrorKind>((op.deep_view(), j as int)),
                Err(e) => m is Err && m->Err_0 == e.kind,
            }
        }),
        r is Ok ==> i <= r->Ok_0.1 <= s@.len(),
{
    proof {
        reveal(spec_dec_op_payload);
    }
    if t == 26 {

        let (base_conf, i1) = FileScanConfig::dec(s, i)?;
        let (predicate, i2) = dec_opt_of::<Expr>(s, i1)?;
        let (parquet_options, i3) = dec_bytes(s, i2)?;
        Ok((OpKind::ParquetScan { base_conf, predicate, parquet_options }, i3))
    } else if t == 27 {

        let (base_conf, i1) = FileScanConfig::dec(s, i)?;
        Ok((OpKind::AvroScan { base_conf }, i1))
    } else if t == 28 {

        let (sink, i1) = dec_bytes(s, i)?;
        let (sink_schema, i2) = Schema::dec(s, i1)?;
        let (sort_order, i3) = dec_opt_of::<Vec<SortExpr>>(s, i2)?;
        Ok((OpKind::CsvSink { sink, sink_schema, sort_order }, i3))
    } else if t == 29 {

        let (sink, i1) = dec_bytes(s, i)?;
        let (sink_schema, i2) = Schema::dec(s, i1)?;
        let (sort_order, i3) = dec_opt_of::<Vec<SortExpr>>(s, i2)?;
        Ok((OpKind::JsonSink { sink, sink_schema, sort_order }, i3))
    } else if t == 30 {

        let (sink, i1) = dec_bytes(s, i)?;
        let (sink_schema, i2) = Schema::dec(s, i1)?;
        let (sort_order, i3) = dec_opt_of::<Vec<SortExpr>>(s, i2)?;
        Ok((OpKind::ParquetSink { sink, sink_schema, sort_order }, i3))
    } else {
        Err(CodecError::malformed("operator tag out of range"))
    }
}

} // verus!
