//! Wire forms of the expression-level vocabulary: logical types, fields,
//! schemas, expressions, sort keys, join keys and join filters.
//!
//! Enums travel as integers with a sentinel of zero for unset; an unknown
//! integer is a malformed node.

use vstd::prelude::*;
use crate::error::{CodecError, ErrorKind};
use crate::expr::{BinOp, ColumnIndex, Expr, ExprV, JoinFilter, JoinFilterV, JoinSide, SortExpr, SortExprV};
use crate::items::{dec_list_of, enc_list_of, list_dec, list_enc, list_fits, list_rt, WireItem};
use crate::plan::{JoinOn, JoinOnV, ListUnnest};
use crate::schema::{DataType, Field, FieldV, Schema};
use crate::wire::{at, dec_bool, dec_bytes, dec_varint, enc_bool, enc_bytes, enc_varint, lemma_at_split, lemma_bool_rt, lemma_bytes_rt, lemma_varint_rt, parses_to, spec_dec_bool, spec_dec_bytes, spec_dec_varint, spec_enc_bool, spec_enc_bytes, spec_enc_varint, SpecParse};

verus! {

broadcast use crate::views::lemma_deep_view_len, crate::views::lemma_deep_view_index, crate::views::lemma_bytes_deep_view;

// ---------------------------------------------------------------------------
// Primitive wire items
// ---------------------------------------------------------------------------

impl WireItem for u64 {
    open spec fn spec_enc(v: u64) -> Seq<u8> {
        spec_enc_varint(v)
    }

    open spec fn spec_dec(s: Seq<u8>, i: int) -> SpecParse<u64> {
        spec_dec_varint(s, i)
    }

    open spec fn fits(v: u64) -> bool {
        true
    }

    fn enc(&self, out: &mut Vec<u8>) {
        enc_varint(out, *self);
    }

    fn dec(s: &[u8], i: usize) -> (r: Result<(u64, usize), CodecError>) {
        dec_varint(s, i)
    }

    proof fn rt(s: Seq<u8>, i: int, v: u64) {
        lemma_varint_rt(s, i, v);
    }
}

impl WireItem for bool {
    open spec fn spec_enc(v: bool) -> Seq<u8> {
        spec_enc_bool(v)
    }

    open spec fn spec_dec(s: Seq<u8>, i: int) -> SpecParse<bool> {
        spec_dec_bool(s, i)
    }

    open spec fn fits(v: bool) -> bool {
        true
    }

    fn enc(&self, out: &mut Vec<u8>) {
        enc_bool(out, *self);
    }

    fn dec(s: &[u8], i: usize) -> (r: Result<(bool, usize), CodecError>) {
        dec_bool(s, i)
    }

    proof fn rt(s: Seq<u8>, i: int, v: bool) {
        lemma_bool_rt(s, i, v);
    }
}

impl WireItem for Vec<u8> {
    open spec fn spec_enc(v: Seq<u8>) -> Seq<u8> {
        spec_enc_bytes(v)
    }

    open spec fn spec_dec(s: Seq<u8>, i: int) -> SpecParse<Seq<u8>> {
        spec_dec_bytes(s, i)
    }

    open spec fn fits(v: Seq<u8>) -> bool {
        v.len() <= u64::MAX
    }

    fn enc(&self, out: &mut Vec<u8>) {
        enc_bytes(out, self.as_slice());
    }

    fn dec(s: &[u8], i: usize) -> (r: Result<(Vec<u8>, usize), CodecError>) {
        dec_bytes(s, i)
    }

    proof fn rt(s: Seq<u8>, i: int, v: Seq<u8>) {
        lemma_bytes_rt(s, i, v);
    }
}

// ---------------------------------------------------------------------------
// Logical types
// ---------------------------------------------------------------------------

pub open spec fn dt_tag(d: DataType) -> u64 {
    match d {
        DataType::Boolean => 1,
        DataType::Int32 => 2,
        DataType::Int64 => 3,
        DataType::UInt32 => 4,
        DataType::UInt64 => 5,
        DataType::Utf8 => 6,
    }
}

pub open spec fn spec_enc_dt(d: DataType) -> Seq<u8> {
    spec_enc_varint(dt_tag(d))
}

pub open spec fn spec_dec_dt(s: Seq<u8>, i: int) -> SpecParse<DataType> {
    match spec_dec_varint(s, i) {
        Err(k) => Err(k),
        Ok((t, j)) => {
            if t == 1 {
                Ok((DataType::Boolean, j))
            } else if t == 2 {
                Ok((DataType::Int32, j))
            } else if t == 3 {
                Ok((DataType::Int64, j))
            } else if t == 4 {
                Ok((DataType::UInt32, j))
            } else if t == 5 {
                Ok((DataType::UInt64, j))
            } else if t == 6 {
                Ok((DataType::Utf8, j))
            } else {
                Err(ErrorKind::Malformed)
            }
        },
    }
}

pub proof fn lemma_dt_rt(s: Seq<u8>, i: int, d: DataType)
    requires
        at(s, i, spec_enc_dt(d)),
    ensures
        spec_dec_dt(s, i) == Ok::<(DataType, int), ErrorKind>((
            d,
            i + spec_enc_dt(d).len(),
        )),
{
    lemma_varint_rt(s, i, dt_tag(d));
}

pub fn enc_dt(out: &mut Vec<u8>, d: DataType)
    ensures
        final(out)@ == old(out)@ + spec_enc_dt(d),
{
    let t: u64 = match d {
        DataType::Boolean => 1,
        DataType::Int32 => 2,
        DataType::Int64 => 3,
        DataType::UInt32 => 4,
        DataType::UInt64 => 5,
        DataType::Utf8 => 6,
    };
    enc_varint(out, t);
}

pub fn dec_dt(s: &[u8], i: usize) -> (r: Result<(DataType, usize), CodecError>)
    ensures
        parses_to(r, spec_dec_dt(s@, i as int)),
        r is Ok ==> i < r->Ok_0.1 <= s@.len(),
{
    match dec_varint(s, i) {
        Err(e) => Err(e),
        Ok((t, j)) => {
            if t == 1 {
                Ok((DataType::Boolean, j))
            } else if t == 2 {
                Ok((DataType::Int32, j))
            } else if t == 3 {
                Ok((DataType::Int64, j))
            } else if t == 4 {
                Ok((DataType::UInt32, j))
            } else if t == 5 {
                Ok((DataType::UInt64, j))
            } else if t == 6 {
                Ok((DataType::Utf8, j))
            } else {
                Err(CodecError::malformed("logical type tag out of range"))
            }
        },
    }
}

// ---------------------------------------------------------------------------
// Binary operators
// ---------------------------------------------------------------------------

pub open spec fn binop_tag(op: BinOp) -> u64 {
    match op {
        BinOp::Plus => 1,
        BinOp::Minus => 2,
        BinOp::Multiply => 3,
        BinOp::Eq => 4,
        BinOp::NotEq => 5,
        BinOp::Lt => 6,
        BinOp::LtEq => 7,
        BinOp::Gt => 8,
        BinOp::GtEq => 9,
        BinOp::And => 10,
        BinOp::Or => 11,
    }
}

pub open spec fn spec_enc_binop(op: BinOp) -> Seq<u8> {
    spec_enc_varint(binop_tag(op))
}

pub open spec fn spec_dec_binop(s: Seq<u8>, i: int) -> SpecParse<BinOp> {
    match spec_dec_varint(s, i) {
        Err(k) => Err(k),
        Ok((t, j)) => {
            if t == 1 {
                Ok((BinOp::Plus, j))
            } else if t == 2 {
                Ok((BinOp::Minus, j))
            } else if t == 3 {
                Ok((BinOp::Multiply, j))
            } else if t == 4 {
                Ok((BinOp::Eq, j))
            } else if t == 5 {
                Ok((BinOp::NotEq, j))
            } else if t == 6 {
                Ok((BinOp::Lt, j))
            } else if t == 7 {
                Ok((BinOp::LtEq, j))
            } else if t == 8 {
                Ok((BinOp::Gt, j))
            } else if t == 9 {
                Ok((BinOp::GtEq, j))
            } else if t == 10 {
                Ok((BinOp::And, j))
            } else if t == 11 {
                Ok((BinOp::Or, j))
            } else {
                Err(ErrorKind::Malformed)
            }
        },
    }
}

pub proof fn lemma_binop_rt(s: Seq<u8>, i: int, op: BinOp)
    requires
        at(s, i, spec_enc_binop(op)),
    ensures
        spec_dec_binop(s, i) == Ok::<(BinOp, int), ErrorKind>((
            op,
            i + spec_enc_binop(op).len(),
        )),
{
    lemma_varint_rt(s, i, binop_tag(op));
}

pub fn enc_binop(out: &mut Vec<u8>, op: BinOp)
    ensures
        final(out)@ == old(out)@ + spec_enc_binop(op),
{
    let t: u64 = match op {
        BinOp::Plus => 1,
        BinOp::Minus => 2,
        BinOp::Multiply => 3,
        BinOp::Eq => 4,
        BinOp::NotEq => 5,
        BinOp::Lt => 6,
        BinOp::LtEq => 7,
        BinOp::Gt => 8,
        BinOp::GtEq => 9,
        BinOp::And => 10,
        BinOp::Or => 11,
    };
    enc_varint(out, t);
}

pub fn dec_binop(s: &[u8], i: usize) -> (r: Result<(BinOp, usize), CodecError>)
    ensures
        parses_to(r, spec_dec_binop(s@, i as int)),
        r is Ok ==> i < r->Ok_0.1 <= s@.len(),
{
    match dec_varint(s, i) {
        Err(e) => Err(e),
        Ok((t, j)) => {
            if t == 1 {
                Ok((BinOp::Plus, j))
            } else if t == 2 {
                Ok((BinOp::Minus, j))
            } else if t == 3 {
                Ok((BinOp::Multiply, j))
            } else if t == 4 {
                Ok((BinOp::Eq, j))
            } else if t == 5 {
                Ok((BinOp::NotEq, j))
            } else if t == 6 {
                Ok((BinOp::Lt, j))
            } else if t == 7 {
                Ok((BinOp::LtEq, j))
            } else if t == 8 {
                Ok((BinOp::Gt, j))
            } else if t == 9 {
                Ok((BinOp::GtEq, j))
            } else if t == 10 {
                Ok((BinOp::And, j))
            } else if t == 11 {
                Ok((BinOp::Or, j))
            } else {
                Err(CodecError::malformed("operator tag out of range"))
            }
        },
    }
}

// ---------------------------------------------------------------------------
// Join sides
// ---------------------------------------------------------------------------

pub open spec fn side_tag(side: JoinSide) -> u64 {
    match side {
        JoinSide::Left => 1,
        JoinSide::Right => 2,
    }
}

pub open spec fn spec_enc_side(side: JoinSide) -> Seq<u8> {
    spec_enc_varint(side_tag(side))
}

pub open spec fn spec_dec_side(s: Seq<u8>, i: int) -> SpecParse<JoinSide> {
    match spec_dec_varint(s, i) {
        Err(k) => Err(k),
        Ok((t, j)) => {
            if t == 1 {
                Ok((JoinSide::Left, j))
            } else if t == 2 {
                Ok((JoinSide::Right, j))
            } else {
                Err(ErrorKind::Malformed)
            }
        },
    }
}

pub proof fn lemma_side_rt(s: Seq<u8>, i: int, side: JoinSide)
    requires
        at(s, i, spec_enc_side(side)),
    ensures
        spec_dec_side(s, i) == Ok::<(JoinSide, int), ErrorKind>((
            side,
            i + spec_enc_side(side).len(),
        )),
{
    lemma_varint_rt(s, i, side_tag(side));
}

pub fn enc_side(out: &mut Vec<u8>, side: JoinSide)
    ensures
        final(out)@ == old(out)@ + spec_enc_side(side),
{
    let t: u64 = match side {
        JoinSide::Left => 1,
        JoinSide::Right => 2,
    };
    enc_varint(out, t);
}

pub fn dec_side(s: &[u8], i: usize) -> (r: Result<(JoinSide, usize), CodecError>)
    ensures
        parses_to(r, spec_dec_side(s@, i as int)),
        r is Ok ==> i < r->Ok_0.1 <= s@.len(),
{
    match dec_varint(s, i) {
        Err(e) => Err(e),
        Ok((t, j)) => {
            if t == 1 {
                Ok((JoinSide::Left, j))
            } else if t == 2 {
                Ok((JoinSide::Right, j))
            } else {
                Err(CodecError::malformed("join side tag out of range"))
            }
        },
    }
}

// ---------------------------------------------------------------------------
// Fields and schemas
// ---------------------------------------------------------------------------

impl WireItem for Field {
    open spec fn spec_enc(v: FieldV) -> Seq<u8> {
        spec_enc_bytes(v.name) + (spec_enc_dt(v.data_type) + spec_enc_bool(v.nullable))
    }

    open spec fn spec_dec(s: Seq<u8>, i: int) -> SpecParse<FieldV> {
        match spec_dec_bytes(s, i) {
            Err(k) => Err(k),
            Ok((name, i1)) => match spec_dec_dt(s, i1) {
                Err(k) => Err(k),
                Ok((data_type, i2)) => match spec_dec_bool(s, i2) {
                    Err(k) => Err(k),
                    Ok((nullable, i3)) => Ok((FieldV { name, data_type, nullable }, i3)),
                },
            },
        }
    }

    open spec fn fits(v: FieldV) -> bool {
        v.name.len() <= u64::MAX
    }

    fn enc(&self, out: &mut Vec<u8>) {
        let ghost pre = out@;
        enc_bytes(out, self.name.as_slice());
        enc_dt(out, self.data_type);
        enc_bool(out, self.nullable);
        proof {
            assert(out@ =~= pre + Self::spec_enc(self.deep_view()));
        }
    }

    fn dec(s: &[u8], i: usize) -> (r: Result<(Field, usize), CodecError>) {
        match dec_bytes(s, i) {
            Err(e) => Err(e),
            Ok((name, i1)) => match dec_dt(s, i1) {
                Err(e) => Err(e),
                Ok((data_type, i2)) => match dec_bool(s, i2) {
                    Err(e) => Err(e),
                    Ok((nullable, i3)) => Ok((Field { name, data_type, nullable }, i3)),
                },
            },
        }
    }

    proof fn rt(s: Seq<u8>, i: int, v: FieldV) {
        lemma_at_split(s, i, spec_enc_bytes(v.name), spec_enc_dt(v.data_type) + spec_enc_bool(
            v.nullable,
        ));
        let i1 = i + spec_enc_bytes(v.name).len();
        lemma_at_split(s, i1, spec_enc_dt(v.data_type), spec_enc_bool(v.nullable));
        lemma_bytes_rt(s, i, v.name);
        lemma_dt_rt(s, i1, v.data_type);
        lemma_bool_rt(s, i1 + spec_enc_dt(v.data_type).len(), v.nullable);
    }
}

impl WireItem for Schema {
    open spec fn spec_enc(v: Seq<FieldV>) -> Seq<u8> {
        list_enc::<Field>(v)
    }

    open spec fn spec_dec(s: Seq<u8>, i: int) -> SpecParse<Seq<FieldV>> {
        list_dec::<Field>(s, i)
    }

    open spec fn fits(v: Seq<FieldV>) -> bool {
        list_fits::<Field>(v)
    }

    fn enc(&self, out: &mut Vec<u8>) {
        enc_list_of::<Field>(out, &self.fields);
    }

    fn dec(s: &[u8], i: usize) -> (r: Result<(Schema, usize), CodecError>) {
        match dec_list_of::<Field>(s, i) {
            Err(e) => Err(e),
            Ok((fields, j)) => Ok((Schema { fields }, j)),
        }
    }

    proof fn rt(s: Seq<u8>, i: int, v: Seq<FieldV>) {
        list_rt::<Field>(s, i, v);
    }
}

// ---------------------------------------------------------------------------
// Expressions
// ---------------------------------------------------------------------------

impl WireItem for Expr {
    open spec fn spec_enc(v: ExprV) -> Seq<u8>
        decreases v,
    {
        match v {
            ExprV::Column { index } => spec_enc_varint(1) + spec_enc_varint(index),
            ExprV::Literal { value } => spec_enc_varint(2) + spec_enc_varint(value as u64),
            ExprV::Binary { op, left, right } => spec_enc_varint(3) + (spec_enc_binop(op) + (
            Expr::spec_enc(*left) + Expr::spec_enc(*right))),
        }
    }

    open spec fn spec_dec(s: Seq<u8>, i: int) -> SpecParse<ExprV>
        decreases s.len() - i,
    {
        match spec_dec_varint(s, i) {
            Err(k) => Err(k),
            Ok((t, i1)) => {
                if i1 <= i {
                    Err(ErrorKind::Internal)
                } else if t == 1 {
                    match spec_dec_varint(s, i1) {
                        Err(k) => Err(k),
                        Ok((index, j)) => Ok((ExprV::Column { index }, j)),
                    }
                } else if t == 2 {
                    match spec_dec_varint(s, i1) {
                        Err(k) => Err(k),
                        Ok((raw, j)) => Ok((ExprV::Literal { value: raw as i64 }, j)),
                    }
                } else if t == 3 {
                    match spec_dec_binop(s, i1) {
                        Err(k) => Err(k),
                        Ok((op, i2)) => {
                            if i2 <= i || i2 > s.len() {
                                Err(ErrorKind::Internal)
                            } else {
                                match Expr::spec_dec(s, i2) {
                                    Err(k) => Err(k),
                                    Ok((l, i3)) => {
                                        if i3 <= i2 || i3 > s.len() {
                                            Err(ErrorKind::Internal)
                                        } else {
                                            match Expr::spec_dec(s, i3) {
                                                Err(k) => Err(k),
                                                Ok((rr, i4)) => Ok(
                                                    (
                                                        ExprV::Binary {
                                                            op,
                                                            left: Box::new(l),
                                                            right: Box::new(rr),
                                                        },
                                                        i4,
                                                    ),
                                                ),
                                            }
                                        }
                                    },
                                }
                            }
                        },
                    }
                } else {
                    Err(ErrorKind::Malformed)
                }
            },
        }
    }

    open spec fn fits(v: ExprV) -> bool {
        true
    }

    fn enc(&self, out: &mut Vec<u8>)
        decreases *self,
    {
        let ghost pre = out@;
        match self {
            Expr::Column { index } => {
                enc_varint(out, 1u64);
                enc_varint(out, *index);
                proof {
                    assert(out@ =~= pre + Expr::spec_enc(self.deep_view()));
                }
            },
            Expr::Literal { value } => {
                enc_varint(out, 2u64);
                enc_varint(out, *value as u64);
                proof {
                    assert(out@ =~= pre + Expr::spec_enc(self.deep_view()));
                }
            },
            Expr::Binary { op, left, right } => {
                enc_varint(out, 3u64);
                enc_binop(out, *op);
                left.enc(out);
                right.enc(out);
                proof {
                    assert(out@ =~= pre + Expr::spec_enc(self.deep_view()));
                }
            },
        }
    }

    fn dec(s: &[u8], i: usize) -> (r: Result<(Expr, usize), CodecError>)
        decreases s@.len() - i,
    {
        match dec_varint(s, i) {
            Err(e) => Err(e),
            Ok((t, i1)) => {
                if t == 1 {
                    match dec_varint(s, i1) {
                        Err(e) => Err(e),
                        Ok((index, j)) => Ok((Expr::Column { index }, j)),
                    }
                } else if t == 2 {
                    match dec_varint(s, i1) {
                        Err(e) => Err(e),
                        Ok((raw, j)) => Ok((Expr::Literal { value: raw as i64 }, j)),
                    }
                } else if t == 3 {
                    match dec_binop(s, i1) {
                        Err(e) => Err(e),
                        Ok((op, i2)) => match Expr::dec(s, i2) {
                            Err(e) => Err(e),
                            Ok((l, i3)) => match Expr::dec(s, i3) {
                                Err(e) => Err(e),
                                Ok((rr, i4)) => Ok(
                                    (
                                        Expr::Binary {
                                            op,
                                            left: Box::new(l),
                                            right: Box::new(rr),
                                        },
                                        i4,
                                    ),
                                ),
                            },
                        },
                    }
                } else {
                    Err(CodecError::malformed("expression tag out of range"))
                }
            },
        }
    }

    proof fn rt(s: Seq<u8>, i: int, v: ExprV)
        decreases v,
    {
        match v {
            ExprV::Column { index } => {
                assert(Expr::spec_enc(v) == spec_enc_varint(1) + spec_enc_varint(index));
                lemma_at_split(s, i, spec_enc_varint(1), spec_enc_varint(index));
                lemma_varint_rt(s, i, 1);
                crate::wire::lemma_varint_len(1);
                let i1 = i + spec_enc_varint(1u64).len();
                lemma_varint_rt(s, i1, index);
                assert(spec_dec_varint(s, i) == Ok::<(u64, int), ErrorKind>((1u64, i1)));
                assert(spec_dec_varint(s, i1) == Ok::<(u64, int), ErrorKind>((
                    index,
                    i1 + spec_enc_varint(index).len(),
                )));
                assert(i1 > i);
                assert(Expr::spec_dec(s, i) == Ok::<(ExprV, int), ErrorKind>((
                    ExprV::Column { index },
                    i1 + spec_enc_varint(index).len(),
                )));
                assert(Expr::spec_dec(s, i) == Ok::<(ExprV, int), ErrorKind>((
                    v,
                    i + Expr::spec_enc(v).len(),
                )));
            },
            ExprV::Literal { value } => {
                assert(Expr::spec_enc(v) == spec_enc_varint(2) + spec_enc_varint(
                    value as u64,
                ));
                lemma_at_split(s, i, spec_enc_varint(2), spec_enc_varint(value as u64));
                lemma_varint_rt(s, i, 2);
                crate::wire::lemma_varint_len(2);
                let i1 = i + spec_enc_varint(2u64).len();
                lemma_varint_rt(s, i1, value as u64);
                assert(spec_dec_varint(s, i) == Ok::<(u64, int), ErrorKind>((2u64, i1)));
                assert(spec_dec_varint(s, i1) == Ok::<(u64, int), ErrorKind>((
                    value as u64,
                    i1 + spec_enc_varint(value as u64).len(),
                )));
                assert(i1 > i);
                assert((value as u64) as i64 == value) by (bit_vector);
                assert(ExprV::Literal { value: (value as u64) as i64 } == v);
                let m = Expr::spec_dec(s, i);
                assert(m is Ok);
                assert(m->Ok_0.0 == v);
                assert(m->Ok_0.1 == i + Expr::spec_enc(v).len());
                assert(m == Ok::<(ExprV, int), ErrorKind>(m->Ok_0));
                assert(m->Ok_0 == (v, i + Expr::spec_enc(v).len()));
                assert(Expr::spec_dec(s, i) == Ok::<(ExprV, int), ErrorKind>((
                    v,
                    i + Expr::spec_enc(v).len(),
                )));
            },
            ExprV::Binary { op, left, right } => {
                let e_op = spec_enc_binop(op);
                let e_l = Expr::spec_enc(*left);
                let e_r = Expr::spec_enc(*right);
                assert(Expr::spec_enc(v) == spec_enc_varint(3) + (e_op + (e_l + e_r)));
                lemma_at_split(s, i, spec_enc_varint(3), e_op + (e_l + e_r));
                lemma_varint_rt(s, i, 3);
                crate::wire::lemma_varint_len(3);
                crate::wire::lemma_varint_len(binop_tag(op));
                let i1 = i + spec_enc_varint(3u64).len();
                lemma_at_split(s, i1, e_op, e_l + e_r);
                lemma_binop_rt(s, i1, op);
                let i2 = i1 + e_op.len();
                lemma_at_split(s, i2, e_l, e_r);
                Expr::rt(s, i2, *left);
                lemma_expr_enc_len(*left);
                let i3 = i2 + e_l.len();
                Expr::rt(s, i3, *right);
                assert(i2 <= s.len() && i3 <= s.len());
                assert(Box::new(*left) == left);
                assert(Box::new(*right) == right);
                assert(Expr::spec_dec(s, i) == Ok::<(ExprV, int), ErrorKind>((
                    v,
                    i + Expr::spec_enc(v).len(),
                )));
            },
        }
    }
}

/// Every expression encoding starts with a tag, so it is never empty.
pub proof fn lemma_expr_enc_len(v: ExprV)
    ensures
        Expr::spec_enc(v).len() >= 1,
{
    match v {
        ExprV::Column { index } => {
            assert(Expr::spec_enc(v) == spec_enc_varint(1) + spec_enc_varint(index));
            crate::wire::lemma_varint_len(1);
        },
        ExprV::Literal { value } => {
            assert(Expr::spec_enc(v) == spec_enc_varint(2) + spec_enc_varint(
                value as u64,
            ));
            crate::wire::lemma_varint_len(2);
        },
        ExprV::Binary { op, left, right } => {
            assert(Expr::spec_enc(v) == spec_enc_varint(3) + (spec_enc_binop(op) + (
            Expr::spec_enc(*left) + Expr::spec_enc(*right))));
            crate::wire::lemma_varint_len(3);
        },
    }
}

impl WireItem for Option<Expr> {
    open spec fn spec_enc(v: Option<ExprV>) -> Seq<u8> {
        crate::items::opt_enc::<Expr>(v)
    }

    open spec fn spec_dec(s: Seq<u8>, i: int) -> SpecParse<Option<ExprV>> {
        crate::items::opt_dec::<Expr>(s, i)
    }

    open spec fn fits(v: Option<ExprV>) -> bool {
        true
    }

    fn enc(&self, out: &mut Vec<u8>) {
        crate::items::enc_opt_of::<Expr>(out, self);
    }

    fn dec(s: &[u8], i: usize) -> (r: Result<(Option<Expr>, usize), CodecError>) {
        crate::items::dec_opt_of::<Expr>(s, i)
    }

    proof fn rt(s: Seq<u8>, i: int, v: Option<ExprV>) {
        crate::items::opt_rt::<Expr>(s, i, v);
    }
}

// ---------------------------------------------------------------------------
// Sort keys
// ---------------------------------------------------------------------------

impl WireItem for SortExpr {
    open spec fn spec_enc(v: SortExprV) -> Seq<u8> {
        Expr::spec_enc(v.expr) + (spec_enc_bool(v.asc) + spec_enc_bool(v.nulls_first))
    }

    open spec fn spec_dec(s: Seq<u8>, i: int) -> SpecParse<SortExprV> {
        match Expr::spec_dec(s, i) {
            Err(k) => Err(k),
            Ok((expr, i1)) => match spec_dec_bool(s, i1) {
                Err(k) => Err(k),
                Ok((asc, i2)) => match spec_dec_bool(s, i2) {
                    Err(k) => Err(k),
                    Ok((nulls_first, i3)) => Ok((SortExprV { expr, asc, nulls_first }, i3)),
                },
            },
        }
    }

    open spec fn fits(v: SortExprV) -> bool {
        true
    }

    fn enc(&self, out: &mut Vec<u8>) {
        let ghost pre = out@;
        self.expr.enc(out);
        enc_bool(out, self.asc);
        enc_bool(out, self.nulls_first);
        proof {
            assert(out@ =~= pre + Self::spec_enc(self.deep_view()));
        }
    }

    fn dec(s: &[u8], i: usize) -> (r: Result<(SortExpr, usize), CodecError>) {
        match Expr::dec(s, i) {
            Err(e) => Err(e),
            Ok((expr, i1)) => match dec_bool(s, i1) {
                Err(e) => Err(e),
                Ok((asc, i2)) => match dec_bool(s, i2) {
                    Err(e) => Err(e),
                    Ok((nulls_first, i3)) => Ok((SortExpr { expr, asc, nulls_first }, i3)),
                },
            },
        }
    }

    proof fn rt(s: Seq<u8>, i: int, v: SortExprV) {
        let e_e = Expr::spec_enc(v.expr);
        lemma_at_split(s, i, e_e, spec_enc_bool(v.asc) + spec_enc_bool(v.nulls_first));
        Expr::rt(s, i, v.expr);
        let i1 = i + e_e.len();
        lemma_at_split(s, i1, spec_enc_bool(v.asc), spec_enc_bool(v.nulls_first));
        lemma_bool_rt(s, i1, v.asc);
        lemma_bool_rt(s, i1 + 1, v.nulls_first);
    }
}

impl WireItem for Vec<SortExpr> {
    open spec fn spec_enc(v: Seq<SortExprV>) -> Seq<u8> {
        list_enc::<SortExpr>(v)
    }

    open spec fn spec_dec(s: Seq<u8>, i: int) -> SpecParse<Seq<SortExprV>> {
        list_dec::<SortExpr>(s, i)
    }

    open spec fn fits(v: Seq<SortExprV>) -> bool {
        list_fits::<SortExpr>(v)
    }

    fn enc(&self, out: &mut Vec<u8>) {
        enc_list_of::<SortExpr>(out, self);
    }

    fn dec(s: &[u8], i: usize) -> (r: Result<(Vec<SortExpr>, usize), CodecError>) {
        dec_list_of::<SortExpr>(s, i)
    }

    proof fn rt(s: Seq<u8>, i: int, v: Seq<SortExprV>) {
        list_rt::<SortExpr>(s, i, v);
    }
}

// ---------------------------------------------------------------------------
// Equi-join keys, filter columns, join filters, unnest columns
// ---------------------------------------------------------------------------

impl WireItem for JoinOn {
    open spec fn spec_enc(v: JoinOnV) -> Seq<u8> {
        Expr::spec_enc(v.left) + Expr::spec_enc(v.right)
    }

    open spec fn spec_dec(s: Seq<u8>, i: int) -> SpecParse<JoinOnV> {
        match Expr::spec_dec(s, i) {
            Err(k) => Err(k),
            Ok((left, i1)) => match Expr::spec_dec(s, i1) {
                Err(k) => Err(k),
                Ok((right, i2)) => Ok((JoinOnV { left, right }, i2)),
            },
        }
    }

    open spec fn fits(v: JoinOnV) -> bool {
        true
    }

    fn enc(&self, out: &mut Vec<u8>) {
        let ghost pre = out@;
        self.left.enc(out);
        self.right.enc(out);
        proof {
            assert(out@ =~= pre + Self::spec_enc(self.deep_view()));
        }
    }

    fn dec(s: &[u8], i: usize) -> (r: Result<(JoinOn, usize), CodecError>) {
        match Expr::dec(s, i) {
            Err(e) => Err(e),
            Ok((left, i1)) => match Expr::dec(s, i1) {
                Err(e) => Err(e),
                Ok((right, i2)) => Ok((JoinOn { left, right }, i2)),
            },
        }
    }

    proof fn rt(s: Seq<u8>, i: int, v: JoinOnV) {
        lemma_at_split(s, i, Expr::spec_enc(v.left), Expr::spec_enc(v.right));
        Expr::rt(s, i, v.left);
        Expr::rt(s, i + Expr::spec_enc(v.left).len(), v.right);
    }
}

impl WireItem for ColumnIndex {
    open spec fn spec_enc(v: ColumnIndex) -> Seq<u8> {
        spec_enc_varint(v.index) + spec_enc_side(v.side)
    }

    open spec fn spec_dec(s: Seq<u8>, i: int) -> SpecParse<ColumnIndex> {
        match spec_dec_varint(s, i) {
            Err(k) => Err(k),
            Ok((index, i1)) => match spec_dec_side(s, i1) {
                Err(k) => Err(k),
                Ok((side, i2)) => Ok((ColumnIndex { index, side }, i2)),
            },
        }
    }

    open spec fn fits(v: ColumnIndex) -> bool {
        true
    }

    fn enc(&self, out: &mut Vec<u8>) {
        let ghost pre = out@;
        enc_varint(out, self.index);
        enc_side(out, self.side);
        proof {
            assert(out@ =~= pre + Self::spec_enc(self.deep_view()));
        }
    }

    fn dec(s: &[u8], i: usize) -> (r: Result<(ColumnIndex, usize), CodecError>) {
        match dec_varint(s, i) {
            Err(e) => Err(e),
            Ok((index, i1)) => match dec_side(s, i1) {
                Err(e) => Err(e),
                Ok((side, i2)) => Ok((ColumnIndex { index, side }, i2)),
            },
        }
    }

    proof fn rt(s: Seq<u8>, i: int, v: ColumnIndex) {
        lemma_at_split(s, i, spec_enc_varint(v.index), spec_enc_side(v.side));
        lemma_varint_rt(s, i, v.index);
        lemma_side_rt(s, i + spec_enc_varint(v.index).len(), v.side);
    }
}

impl WireItem for JoinFilter {
    open spec fn spec_enc(v: JoinFilterV) -> Seq<u8> {
        Expr::spec_enc(v.expression) + (list_enc::<ColumnIndex>(v.column_indices)
            + Schema::spec_enc(v.schema))
    }

    open spec fn spec_dec(s: Seq<u8>, i: int) -> SpecParse<JoinFilterV> {
        match Expr::spec_dec(s, i) {
            Err(k) => Err(k),
            Ok((expression, i1)) => match list_dec::<ColumnIndex>(s, i1) {
                Err(k) => Err(k),
                Ok((column_indices, i2)) => match Schema::spec_dec(s, i2) {
                    Err(k) => Err(k),
                    Ok((schema, i3)) => Ok(
                        (JoinFilterV { expression, column_indices, schema }, i3),
                    ),
                },
            },
        }
    }

    open spec fn fits(v: JoinFilterV) -> bool {
        v.column_indices.len() <= u64::MAX && Schema::fits(v.schema)
    }

    fn enc(&self, out: &mut Vec<u8>) {
        let ghost pre = out@;
        self.expression.enc(out);
        enc_list_of::<ColumnIndex>(out, &self.column_indices);
        self.schema.enc(out);
        proof {
            assert(out@ =~= pre + Self::spec_enc(self.deep_view()));
        }
    }

    fn dec(s: &[u8], i: usize) -> (r: Result<(JoinFilter, usize), CodecError>) {
        match Expr::dec(s, i) {
            Err(e) => Err(e),
            Ok((expression, i1)) => match dec_list_of::<ColumnIndex>(s, i1) {
                Err(e) => Err(e),
                Ok((column_indices, i2)) => match Schema::dec(s, i2) {
                    Err(e) => Err(e),
                    Ok((schema, i3)) => Ok(
                        (JoinFilter { expression, column_indices, schema }, i3),
                    ),
                },
            },
        }
    }

    proof fn rt(s: Seq<u8>, i: int, v: JoinFilterV) {
        let e_e = Expr::spec_enc(v.expression);
        let e_c = list_enc::<ColumnIndex>(v.column_indices);
        let e_s = Schema::spec_enc(v.schema);
        lemma_at_split(s, i, e_e, e_c + e_s);
        Expr::rt(s, i, v.expression);
        let i1 = i + e_e.len();
        lemma_at_split(s, i1, e_c, e_s);
        list_rt::<ColumnIndex>(s, i1, v.column_indices);
        Schema::rt(s, i1 + e_c.len(), v.schema);
    }
}

impl WireItem for ListUnnest {
    open spec fn spec_enc(v: ListUnnest) -> Seq<u8> {
        spec_enc_varint(v.index_in_input_schema) + spec_enc_varint(v.depth)
    }

    open spec fn spec_dec(s: Seq<u8>, i: int) -> SpecParse<ListUnnest> {
        match spec_dec_varint(s, i) {
            Err(k) => Err(k),
            Ok((index_in_input_schema, i1)) => match spec_dec_varint(s, i1) {
                Err(k) => Err(k),
                Ok((depth, i2)) => Ok((ListUnnest { index_in_input_schema, depth }, i2)),
            },
        }
    }

    open spec fn fits(v: ListUnnest) -> bool {
        true
    }

    fn enc(&self, out: &mut Vec<u8>) {
        let ghost pre = out@;
        enc_varint(out, self.index_in_input_schema);
        enc_varint(out, self.depth);
        proof {
            assert(out@ =~= pre + Self::spec_enc(self.deep_view()));
        }
    }

    fn dec(s: &[u8], i: usize) -> (r: Result<(ListUnnest, usize), CodecError>) {
        match dec_varint(s, i) {
            Err(e) => Err(e),
            Ok((index_in_input_schema, i1)) => match dec_varint(s, i1) {
                Err(e) => Err(e),
                Ok((depth, i2)) => Ok((ListUnnest { index_in_input_schema, depth }, i2)),
            },
        }
    }

    proof fn rt(s: Seq<u8>, i: int, v: ListUnnest) {
        lemma_at_split(s, i, spec_enc_varint(v.index_in_input_schema), spec_enc_varint(v.depth));
        lemma_varint_rt(s, i, v.index_in_input_schema);
        lemma_varint_rt(s, i + spec_enc_varint(v.index_in_input_schema).len(), v.depth);
    }
}

} // verus!
