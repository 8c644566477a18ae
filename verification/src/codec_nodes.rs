//! Wire forms of the descriptor-level vocabulary: aggregate and window
//! function applications, input order modes, partitioning descriptors and
//! the shared file-scan configuration.

use vstd::prelude::*;
use crate::error::{CodecError, ErrorKind};
use crate::expr::{AggExpr, AggExprV, Expr, SortExpr, WindowExpr, WindowExprV};
use crate::items::{dec_list_of, dec_opt_of, enc_list_of, enc_opt_of, list_dec, list_enc, list_fits, list_rt, opt_dec, opt_enc, opt_fits, opt_rt, WireItem};
use crate::plan::{FileScanConfig, FileScanConfigV, InputOrderMode, InputOrderModeV, Partitioning, PartitioningV};
use crate::schema::Schema;
use crate::wire::{at, dec_bool, dec_bytes, dec_varint, enc_bool, enc_bytes, enc_varint, lemma_at_split, lemma_bool_rt, lemma_bytes_rt, lemma_varint_len, lemma_varint_rt, spec_dec_bool, spec_dec_bytes, spec_dec_varint, spec_enc_bool, spec_enc_bytes, spec_enc_varint, SpecParse};

verus! {

broadcast use crate::views::lemma_deep_view_len, crate::views::lemma_deep_view_index, crate::views::lemma_bytes_deep_view;

impl WireItem for AggExpr {
    open spec fn spec_enc(v: AggExprV) -> Seq<u8> {
        spec_enc_bytes(v.alias) + (spec_enc_bytes(v.udaf_name) + (opt_enc::<Vec<u8>>(
            v.fun_definition,
        ) + (list_enc::<Expr>(v.args) + (list_enc::<SortExpr>(v.order_by) + (spec_enc_bool(
            v.distinct,
        ) + spec_enc_bool(v.ignore_nulls))))))
    }

    open spec fn spec_dec(s: Seq<u8>, i: int) -> SpecParse<AggExprV> {
        match spec_dec_bytes(s, i) {
            Err(k) => Err(k),
            Ok((alias, i1)) => match spec_dec_bytes(s, i1) {
                Err(k) => Err(k),
                Ok((udaf_name, i2)) => match opt_dec::<Vec<u8>>(s, i2) {
                    Err(k) => Err(k),
                    Ok((fun_definition, i3)) => match list_dec::<Expr>(s, i3) {
                        Err(k) => Err(k),
                        Ok((args, i4)) => match list_dec::<SortExpr>(s, i4) {
                            Err(k) => Err(k),
                            Ok((order_by, i5)) => match spec_dec_bool(s, i5) {
                                Err(k) => Err(k),
                                Ok((distinct, i6)) => match spec_dec_bool(s, i6) {
                                    Err(k) => Err(k),
                                    Ok((ignore_nulls, i7)) => Ok(
                                        (
                                            AggExprV {
                                                alias,
                                                udaf_name,
                                                fun_definition,
                                                args,
                                                order_by,
                                                distinct,
                                                ignore_nulls,
                                            },
                                            i7,
                                        ),
                                    ),
                                },
                            },
                        },
                    },
                },
            },
        }
    }

    open spec fn fits(v: AggExprV) -> bool {
        &&& v.alias.len() <= u64::MAX
        &&& v.udaf_name.len() <= u64::MAX
        &&& (v.fun_definition is Some ==> v.fun_definition->Some_0.len() <= u64::MAX)
        &&& v.args.len() <= u64::MAX
        &&& v.order_by.len() <= u64::MAX
    }

    fn enc(&self, out: &mut Vec<u8>) {
        let ghost pre = out@;
        enc_bytes(out, self.alias.as_slice());
        enc_bytes(out, self.udaf_name.as_slice());
        enc_opt_of::<Vec<u8>>(out, &self.fun_definition);
        enc_list_of::<Expr>(out, &self.args);
        enc_list_of::<SortExpr>(out, &self.order_by);
        enc_bool(out, self.distinct);
        enc_bool(out, self.ignore_nulls);
        proof {
            assert(out@ =~= pre + Self::spec_enc(self.deep_view()));
        }
    }

    fn dec(s: &[u8], i: usize) -> (r: Result<(AggExpr, usize), CodecError>) {
        match dec_bytes(s, i) {
            Err(e) => Err(e),
            Ok((alias, i1)) => match dec_bytes(s, i1) {
                Err(e) => Err(e),
                Ok((udaf_name, i2)) => match dec_opt_of::<Vec<u8>>(s, i2) {
                    Err(e) => Err(e),
                    Ok((fun_definition, i3)) => match dec_list_of::<Expr>(s, i3) {
                        Err(e) => Err(e),
                        Ok((args, i4)) => match dec_list_of::<SortExpr>(s, i4) {
                            Err(e) => Err(e),
                            Ok((order_by, i5)) => match dec_bool(s, i5) {
                                Err(e) => Err(e),
                                Ok((distinct, i6)) => match dec_bool(s, i6) {
                                    Err(e) => Err(e),
                                    Ok((ignore_nulls, i7)) => Ok(
                                        (
                                            AggExpr {
                                                alias,
                                                udaf_name,
                                                fun_definition,
                                                args,
                                                order_by,
                                                distinct,
                                                ignore_nulls,
                                            },
                                            i7,
                                        ),
                                    ),
                                },
                            },
                        },
                    },
                },
            },
        }
    }

    proof fn rt(s: Seq<u8>, i: int, v: AggExprV) {
        let e1 = spec_enc_bytes(v.alias);
        let e2 = spec_enc_bytes(v.udaf_name);
        let e3 = opt_enc::<Vec<u8>>(v.fun_definition);
        let e4 = list_enc::<Expr>(v.args);
        let e5 = list_enc::<SortExpr>(v.order_by);
        let e6 = spec_enc_bool(v.distinct);
        let e7 = spec_enc_bool(v.ignore_nulls);
        lemma_at_split(s, i, e1, e2 + (e3 + (e4 + (e5 + (e6 + e7)))));
        lemma_bytes_rt(s, i, v.alias);
        let i1 = i + e1.len();
        lemma_at_split(s, i1, e2, e3 + (e4 + (e5 + (e6 + e7))));
        lemma_bytes_rt(s, i1, v.udaf_name);
        let i2 = i1 + e2.len();
        lemma_at_split(s, i2, e3, e4 + (e5 + (e6 + e7)));
        opt_rt::<Vec<u8>>(s, i2, v.fun_definition);
        let i3 = i2 + e3.len();
        lemma_at_split(s, i3, e4, e5 + (e6 + e7));
        list_rt::<Expr>(s, i3, v.args);
        let i4 = i3 + e4.len();
        lemma_at_split(s, i4, e5, e6 + e7);
        list_rt::<SortExpr>(s, i4, v.order_by);
        let i5 = i4 + e5.len();
        lemma_at_split(s, i5, e6, e7);
        lemma_bool_rt(s, i5, v.distinct);
        lemma_bool_rt(s, i5 + 1, v.ignore_nulls);
    }
}

impl WireItem for WindowExpr {
    open spec fn spec_enc(v: WindowExprV) -> Seq<u8> {
        spec_enc_bytes(v.alias) + (spec_enc_bytes(v.udwf_name) + (opt_enc::<Vec<u8>>(
            v.fun_definition,
        ) + (list_enc::<Expr>(v.args) + list_enc::<SortExpr>(v.order_by))))
    }

    open spec fn spec_dec(s: Seq<u8>, i: int) -> SpecParse<WindowExprV> {
        match spec_dec_bytes(s, i) {
            Err(k) => Err(k),
            Ok((alias, i1)) => match spec_dec_bytes(s, i1) {
                Err(k) => Err(k),
                Ok((udwf_name, i2)) => match opt_dec::<Vec<u8>>(s, i2) {
                    Err(k) => Err(k),
                    Ok((fun_definition, i3)) => match list_dec::<Expr>(s, i3) {
                        Err(k) => Err(k),
                        Ok((args, i4)) => match list_dec::<SortExpr>(s, i4) {
                            Err(k) => Err(k),
                            Ok((order_by, i5)) => Ok(
                                (
                                    WindowExprV {
                                        alias,
                                        udwf_name,
                                        fun_definition,
                                        args,
                                        order_by,
                                    },
                                    i5,
                                ),
                            ),
                        },
                    },
                },
            },
        }
    }

    open spec fn fits(v: WindowExprV) -> bool {
        &&& v.alias.len() <= u64::MAX
        &&& v.udwf_name.len() <= u64::MAX
        &&& (v.fun_definition is Some ==> v.fun_definition->Some_0.len() <= u64::MAX)
        &&& v.args.len() <= u64::MAX
        &&& v.order_by.len() <= u64::MAX
    }

    fn enc(&self, out: &mut Vec<u8>) {
        let ghost pre = out@;
        enc_bytes(out, self.alias.as_slice());
        enc_bytes(out, self.udwf_name.as_slice());
        enc_opt_of::<Vec<u8>>(out, &self.fun_definition);
        enc_list_of::<Expr>(out, &self.args);
        enc_list_of::<SortExpr>(out, &self.order_by);
        proof {
            assert(out@ =~= pre + Self::spec_enc(self.deep_view()));
        }
    }

    fn dec(s: &[u8], i: usize) -> (r: Result<(WindowExpr, usize), CodecError>) {
        match dec_bytes(s, i) {
            Err(e) => Err(e),
            Ok((alias, i1)) => match dec_bytes(s, i1) {
                Err(e) => Err(e),
                Ok((udwf_name, i2)) => match dec_opt_of::<Vec<u8>>(s, i2) {
                    Err(e) => Err(e),
                    Ok((fun_definition, i3)) => match dec_list_of::<Expr>(s, i3) {
                        Err(e) => Err(e),
                        Ok((args, i4)) => match dec_list_of::<SortExpr>(s, i4) {
                            Err(e) => Err(e),
                            Ok((order_by, i5)) => Ok(
                                (
                                    WindowExpr {
                                        alias,
                                        udwf_name,
                                        fun_definition,
                                        args,
                                        order_by,
                                    },
                                    i5,
                                ),
                            ),
                        },
                    },
                },
            },
        }
    }

    proof fn rt(s: Seq<u8>, i: int, v: WindowExprV) {
        let e1 = spec_enc_bytes(v.alias);
        let e2 = spec_enc_bytes(v.udwf_name);
        let e3 = opt_enc::<Vec<u8>>(v.fun_definition);
        let e4 = list_enc::<Expr>(v.args);
        let e5 = list_enc::<SortExpr>(v.order_by);
        lemma_at_split(s, i, e1, e2 + (e3 + (e4 + e5)));
        lemma_bytes_rt(s, i, v.alias);
        let i1 = i + e1.len();
        lemma_at_split(s, i1, e2, e3 + (e4 + e5));
        lemma_bytes_rt(s, i1, v.udwf_name);
        let i2 = i1 + e2.len();
        lemma_at_split(s, i2, e3, e4 + e5);
        opt_rt::<Vec<u8>>(s, i2, v.fun_definition);
        let i3 = i2 + e3.len();
        lemma_at_split(s, i3, e4, e5);
        list_rt::<Expr>(s, i3, v.args);
        list_rt::<SortExpr>(s, i3 + e4.len(), v.order_by);
    }
}

impl WireItem for InputOrderMode {
    open spec fn spec_enc(v: InputOrderModeV) -> Seq<u8> {
        match v {
            InputOrderModeV::Linear => spec_enc_varint(1),
            InputOrderModeV::PartiallySorted { columns } => spec_enc_varint(2) + list_enc::<
                u64,
            >(columns),
            InputOrderModeV::Sorted => spec_enc_varint(3),
        }
    }

    open spec fn spec_dec(s: Seq<u8>, i: int) -> SpecParse<InputOrderModeV> {
        match spec_dec_varint(s, i) {
            Err(k) => Err(k),
            Ok((t, i1)) => {
                if t == 1 {
                    Ok((InputOrderModeV::Linear, i1))
                } else if t == 2 {
                    match list_dec::<u64>(s, i1) {
                        Err(k) => Err(k),
                        Ok((columns, i2)) => Ok(
                            (InputOrderModeV::PartiallySorted { columns }, i2),
                        ),
                    }
                } else if t == 3 {
                    Ok((InputOrderModeV::Sorted, i1))
                } else {
                    Err(ErrorKind::Malformed)
                }
            },
        }
    }

    open spec fn fits(v: InputOrderModeV) -> bool {
        match v {
            InputOrderModeV::PartiallySorted { columns } => columns.len() <= u64::MAX,
            _ => true,
        }
    }

    fn enc(&self, out: &mut Vec<u8>) {
        let ghost pre = out@;
        match self {
            InputOrderMode::Linear => {
                enc_varint(out, 1u64);
            },
            InputOrderMode::PartiallySorted { columns } => {
                enc_varint(out, 2u64);
                enc_list_of::<u64>(out, columns);
            },
            InputOrderMode::Sorted => {
                enc_varint(out, 3u64);
            },
        }
        proof {
            assert(out@ =~= pre + Self::spec_enc(self.deep_view()));
        }
    }

    fn dec(s: &[u8], i: usize) -> (r: Result<(InputOrderMode, usize), CodecError>) {
        match dec_varint(s, i) {
            Err(e) => Err(e),
            Ok((t, i1)) => {
                if t == 1 {
                    Ok((InputOrderMode::Linear, i1))
                } else if t == 2 {
                    match dec_list_of::<u64>(s, i1) {
                        Err(e) => Err(e),
                        Ok((columns, i2)) => Ok(
                            (InputOrderMode::PartiallySorted { columns }, i2),
                        ),
                    }
                } else if t == 3 {
                    Ok((InputOrderMode::Sorted, i1))
                } else {
                    Err(CodecError::malformed("input order mode tag out of range"))
                }
            },
        }
    }

    proof fn rt(s: Seq<u8>, i: int, v: InputOrderModeV) {
        match v {
            InputOrderModeV::Linear => {
                lemma_varint_rt(s, i, 1);
            },
            InputOrderModeV::PartiallySorted { columns } => {
                assert(Self::spec_enc(v) == spec_enc_varint(2) + list_enc::<u64>(columns));
                lemma_at_split(s, i, spec_enc_varint(2), list_enc::<u64>(columns));
                lemma_varint_rt(s, i, 2);
                list_rt::<u64>(s, i + spec_enc_varint(2u64).len(), columns);
            },
            InputOrderModeV::Sorted => {
                lemma_varint_rt(s, i, 3);
            },
        }
    }
}

impl WireItem for Partitioning {
    open spec fn spec_enc(v: PartitioningV) -> Seq<u8> {
        match v {
            PartitioningV::RoundRobinBatch { partition_count } => spec_enc_varint(1)
                + spec_enc_varint(partition_count),
            PartitioningV::Hash { exprs, partition_count } => spec_enc_varint(2) + (list_enc::<
                Expr,
            >(exprs) + spec_enc_varint(partition_count)),
            PartitioningV::UnknownPartitioning { partition_count } => spec_enc_varint(3)
                + spec_enc_varint(partition_count),
        }
    }

    open spec fn spec_dec(s: Seq<u8>, i: int) -> SpecParse<PartitioningV> {
        match spec_dec_varint(s, i) {
            Err(k) => Err(k),
            Ok((t, i1)) => {
                if t == 1 {
                    match spec_dec_varint(s, i1) {
                        Err(k) => Err(k),
                        Ok((partition_count, i2)) => Ok(
                            (PartitioningV::RoundRobinBatch { partition_count }, i2),
                        ),
                    }
                } else if t == 2 {
                    match list_dec::<Expr>(s, i1) {
                        Err(k) => Err(k),
                        Ok((exprs, i2)) => match spec_dec_varint(s, i2) {
                            Err(k) => Err(k),
                            Ok((partition_count, i3)) => Ok(
                                (PartitioningV::Hash { exprs, partition_count }, i3),
                            ),
                        },
                    }
                } else if t == 3 {
                    match spec_dec_varint(s, i1) {
                        Err(k) => Err(k),
                        Ok((partition_count, i2)) => Ok(
                            (PartitioningV::UnknownPartitioning { partition_count }, i2),
                        ),
                    }
                } else {
                    Err(ErrorKind::Malformed)
                }
            },
        }
    }

    open spec fn fits(v: PartitioningV) -> bool {
        match v {
            PartitioningV::Hash { exprs, .. } => exprs.len() <= u64::MAX,
            _ => true,
        }
    }

    fn enc(&self, out: &mut Vec<u8>) {
        let ghost pre = out@;
        match self {
            Partitioning::RoundRobinBatch { partition_count } => {
                enc_varint(out, 1u64);
                enc_varint(out, *partition_count);
            },
            Partitioning::Hash { exprs, partition_count } => {
                enc_varint(out, 2u64);
                enc_list_of::<Expr>(out, exprs);
                enc_varint(out, *partition_count);
            },
            Partitioning::UnknownPartitioning { partition_count } => {
                enc_varint(out, 3u64);
                enc_varint(out, *partition_count);
            },
        }
        proof {
            assert(out@ =~= pre + Self::spec_enc(self.deep_view()));
        }
    }

    fn dec(s: &[u8], i: usize) -> (r: Result<(Partitioning, usize), CodecError>) {
        match dec_varint(s, i) {
            Err(e) => Err(e),
            Ok((t, i1)) => {
                if t == 1 {
                    match dec_varint(s, i1) {
                        Err(e) => Err(e),
                        Ok((partition_count, i2)) => Ok(
                            (Partitioning::RoundRobinBatch { partition_count }, i2),
                        ),
                    }
                } else if t == 2 {
                    match dec_list_of::<Expr>(s, i1) {
                        Err(e) => Err(e),
                        Ok((exprs, i2)) => match dec_varint(s, i2) {
                            Err(e) => Err(e),
                            Ok((partition_count, i3)) => Ok(
                                (Partitioning::Hash { exprs, partition_count }, i3),
                            ),
                        },
                    }
                } else if t == 3 {
                    match dec_varint(s, i1) {
                        Err(e) => Err(e),
                        Ok((partition_count, i2)) => Ok(
                            (Partitioning::UnknownPartitioning { partition_count }, i2),
                        ),
                    }
                } else {
                    Err(CodecError::malformed("partitioning tag out of range"))
                }
            },
        }
    }

    proof fn rt(s: Seq<u8>, i: int, v: PartitioningV) {
        match v {
            PartitioningV::RoundRobinBatch { partition_count } => {
                lemma_at_split(s, i, spec_enc_varint(1), spec_enc_varint(partition_count));
                lemma_varint_rt(s, i, 1);
                lemma_varint_rt(s, i + spec_enc_varint(1u64).len(), partition_count);
            },
            PartitioningV::Hash { exprs, partition_count } => {
                assert(Self::spec_enc(v) == spec_enc_varint(2) + (list_enc::<Expr>(exprs)
                    + spec_enc_varint(partition_count)));
                lemma_at_split(s, i, spec_enc_varint(2), list_enc::<Expr>(exprs)
                    + spec_enc_varint(partition_count));
                lemma_varint_rt(s, i, 2);
                let i1 = i + spec_enc_varint(2u64).len();
                lemma_at_split(s, i1, list_enc::<Expr>(exprs), spec_enc_varint(
                    partition_count,
                ));
                list_rt::<Expr>(s, i1, exprs);
                lemma_varint_rt(s, i1 + list_enc::<Expr>(exprs).len(), partition_count);
            },
            PartitioningV::UnknownPartitioning { partition_count } => {
                lemma_at_split(s, i, spec_enc_varint(3), spec_enc_varint(partition_count));
                lemma_varint_rt(s, i, 3);
                lemma_varint_rt(s, i + spec_enc_varint(3u64).len(), partition_count);
            },
        }
    }
}

impl WireItem for FileScanConfig {
    open spec fn spec_enc(v: FileScanConfigV) -> Seq<u8> {
        Schema::spec_enc(v.file_schema) + (list_enc::<u64>(v.projection) + opt_enc::<u64>(
            v.limit,
        ))
    }

    open spec fn spec_dec(s: Seq<u8>, i: int) -> SpecParse<FileScanConfigV> {
        match Schema::spec_dec(s, i) {
            Err(k) => Err(k),
            Ok((file_schema, i1)) => match list_dec::<u64>(s, i1) {
                Err(k) => Err(k),
                Ok((projection, i2)) => match opt_dec::<u64>(s, i2) {
                    Err(k) => Err(k),
                    Ok((limit, i3)) => Ok(
                        (FileScanConfigV { file_schema, projection, limit }, i3),
                    ),
                },
            },
        }
    }

    open spec fn fits(v: FileScanConfigV) -> bool {
        Schema::fits(v.file_schema) && v.projection.len() <= u64::MAX
    }

    fn enc(&self, out: &mut Vec<u8>) {
        let ghost pre = out@;
        self.file_schema.enc(out);
        enc_list_of::<u64>(out, &self.projection);
        enc_opt_of::<u64>(out, &self.limit);
        proof {
            assert(out@ =~= pre + Self::spec_enc(self.deep_view()));
        }
    }

    fn dec(s: &[u8], i: usize) -> (r: Result<(FileScanConfig, usize), CodecError>) {
        match Schema::dec(s, i) {
            Err(e) => Err(e),
            Ok((file_schema, i1)) => match dec_list_of::<u64>(s, i1) {
                Err(e) => Err(e),
                Ok((projection, i2)) => match dec_opt_of::<u64>(s, i2) {
                    Err(e) => Err(e),
                    Ok((limit, i3)) => Ok(
                        (FileScanConfig { file_schema, projection, limit }, i3),
                    ),
                },
            },
        }
    }

    proof fn rt(s: Seq<u8>, i: int, v: FileScanConfigV) {
        let e1 = Schema::spec_enc(v.file_schema);
        let e2 = list_enc::<u64>(v.projection);
        let e3 = opt_enc::<u64>(v.limit);
        lemma_at_split(s, i, e1, e2 + e3);
        Schema::rt(s, i, v.file_schema);
        let i1 = i + e1.len();
        lemma_at_split(s, i1, e2, e3);
        list_rt::<u64>(s, i1, v.projection);
        opt_rt::<u64>(s, i1 + e2.len(), v.limit);
    }
}

} // verus!
