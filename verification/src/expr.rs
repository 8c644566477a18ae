//! Column-relative expressions and the descriptors built from them.
//!
//! An expression is a tagged tree whose leaves reference column indices
//! relative to a schema context.  Sort expressions add direction bits;
//! aggregate and window descriptors add a function reference, an ordering
//! and option flags; a join filter adds per-column side tags.

use vstd::prelude::*;
use crate::schema::{DataType, Schema, SchemaV};

verus! {

broadcast use crate::views::lemma_deep_view_len, crate::views::lemma_deep_view_index;

/// Binary operators of the expression vocabulary.
#[derive(Clone, Copy, Debug, PartialEq, Eq, Structural)]
pub enum BinOp {
    Plus,
    Minus,
    Multiply,
    Eq,
    NotEq,
    Lt,
    LtEq,
    Gt,
    GtEq,
    And,
    Or,
}

impl DeepView for BinOp {
    type V = BinOp;

    open spec fn deep_view(&self) -> BinOp {
        *self
    }
}

/// True for operators whose result is a boolean.
pub open spec fn is_boolean_op(op: BinOp) -> bool {
    match op {
        BinOp::Plus | BinOp::Minus | BinOp::Multiply => false,
        _ => true,
    }
}

/// A column-relative computation tree.
#[derive(Debug, PartialEq)]
pub enum Expr {
    /// A reference to a column of the schema context, by position.
    Column { index: u64 },
    /// A 64-bit integer constant.
    Literal { value: i64 },
    /// A binary operation over two sub-expressions.
    Binary { op: BinOp, left: Box<Expr>, right: Box<Expr> },
}

/// The mathematical image of an [`Expr`].
pub ghost enum ExprV {
    Column { index: u64 },
    Literal { value: i64 },
    Binary { op: BinOp, left: Box<ExprV>, right: Box<ExprV> },
}

impl DeepView for Expr {
    type V = ExprV;

    open spec fn deep_view(&self) -> ExprV
        decreases self,
    {
        match self {
            Expr::Column { index } => ExprV::Column { index: *index },
            Expr::Literal { value } => ExprV::Literal { value: *value },
            Expr::Binary { op, left, right } => ExprV::Binary {
                op: *op,
                left: Box::new((**left).deep_view()),
                right: Box::new((**right).deep_view()),
            },
        }
    }
}

/// A sort key: an expression plus direction and null placement.
#[derive(Debug, PartialEq)]
pub struct SortExpr {
    pub expr: Expr,
    pub asc: bool,
    pub nulls_first: bool,
}

pub ghost struct SortExprV {
    pub expr: ExprV,
    pub asc: bool,
    pub nulls_first: bool,
}

impl DeepView for SortExpr {
    type V = SortExprV;

    open spec fn deep_view(&self) -> SortExprV {
        SortExprV {
            expr: self.expr.deep_view(),
            asc: self.asc,
            nulls_first: self.nulls_first,
        }
    }
}

/// An aggregate function application: a named user-defined aggregate, its
/// argument expressions, an optional required ordering and option flags.
/// `fun_definition` carries an opaque payload for functions negotiated
/// through the extension stack rather than the registry.
#[derive(Debug, PartialEq)]
pub struct AggExpr {
    pub alias: Vec<u8>,
    pub udaf_name: Vec<u8>,
    pub fun_definition: Option<Vec<u8>>,
    pub args: Vec<Expr>,
    pub order_by: Vec<SortExpr>,
    pub distinct: bool,
    pub ignore_nulls: bool,
}

pub ghost struct AggExprV {
    pub alias: Seq<u8>,
    pub udaf_name: Seq<u8>,
    pub fun_definition: Option<Seq<u8>>,
    pub args: Seq<ExprV>,
    pub order_by: Seq<SortExprV>,
    pub distinct: bool,
    pub ignore_nulls: bool,
}

impl DeepView for AggExpr {
    type V = AggExprV;

    open spec fn deep_view(&self) -> AggExprV {
        AggExprV {
            alias: self.alias@,
            udaf_name: self.udaf_name@,
            fun_definition: self.fun_definition.deep_view(),
            args: self.args.deep_view(),
            order_by: self.order_by.deep_view(),
            distinct: self.distinct,
            ignore_nulls: self.ignore_nulls,
        }
    }
}

/// A window function application over a named user-defined window function.
#[derive(Debug, PartialEq)]
pub struct WindowExpr {
    pub alias: Vec<u8>,
    pub udwf_name: Vec<u8>,
    pub fun_definition: Option<Vec<u8>>,
    pub args: Vec<Expr>,
    pub order_by: Vec<SortExpr>,
}

pub ghost struct WindowExprV {
    pub alias: Seq<u8>,
    pub udwf_name: Seq<u8>,
    pub fun_definition: Option<Seq<u8>>,
    pub args: Seq<ExprV>,
    pub order_by: Seq<SortExprV>,
}

impl DeepView for WindowExpr {
    type V = WindowExprV;

    open spec fn deep_view(&self) -> WindowExprV {
        WindowExprV {
            alias: self.alias@,
            udwf_name: self.udwf_name@,
            fun_definition: self.fun_definition.deep_view(),
            args: self.args.deep_view(),
            order_by: self.order_by.deep_view(),
        }
    }
}

/// Which input of a join a filter column comes from.
#[derive(Clone, Copy, Debug, PartialEq, Eq, Structural)]
pub enum JoinSide {
    Left,
    Right,
}

impl DeepView for JoinSide {
    type V = JoinSide;

    open spec fn deep_view(&self) -> JoinSide {
        *self
    }
}

/// A column of the synthetic row a join filter is evaluated against.
#[derive(Clone, Copy, Debug, PartialEq, Eq, Structural)]
pub struct ColumnIndex {
    pub index: u64,
    pub side: JoinSide,
}

impl DeepView for ColumnIndex {
    type V = ColumnIndex;

    open spec fn deep_view(&self) -> ColumnIndex {
        *self
    }
}

/// A join predicate evaluated against a synthetic row built from both
/// inputs: an expression over an embedded schema plus the side tag of each
/// of that schema's columns.
#[derive(Debug, PartialEq)]
pub struct JoinFilter {
    pub expression: Expr,
    pub column_indices: Vec<ColumnIndex>,
    pub schema: Schema,
}

pub ghost struct JoinFilterV {
    pub expression: ExprV,
    pub column_indices: Seq<ColumnIndex>,
    pub schema: SchemaV,
}

impl DeepView for JoinFilter {
    type V = JoinFilterV;

    open spec fn deep_view(&self) -> JoinFilterV {
        JoinFilterV {
            expression: self.expression.deep_view(),
            column_indices: self.column_indices.deep_view(),
            schema: self.schema.deep_view(),
        }
    }
}

// ---------------------------------------------------------------------------
// Validity against a schema context
// ---------------------------------------------------------------------------

/// Every column reference of `e` falls inside a schema of `n` fields.
pub open spec fn expr_ok(e: ExprV, n: nat) -> bool
    decreases e,
{
    match e {
        ExprV::Column { index } => (index as nat) < n,
        ExprV::Literal { .. } => true,
        ExprV::Binary { op, left, right } => expr_ok(*left, n) && expr_ok(*right, n),
    }
}

pub open spec fn exprs_ok(es: Seq<ExprV>, n: nat) -> bool {
    forall|k: int| 0 <= k < es.len() ==> expr_ok(#[trigger] es[k], n)
}

pub open spec fn sort_ok(x: SortExprV, n: nat) -> bool {
    expr_ok(x.expr, n)
}

pub open spec fn sorts_ok(xs: Seq<SortExprV>, n: nat) -> bool {
    forall|k: int| 0 <= k < xs.len() ==> sort_ok(#[trigger] xs[k], n)
}

pub open spec fn agg_ok(a: AggExprV, n: nat) -> bool {
    exprs_ok(a.args, n) && sorts_ok(a.order_by, n)
}

pub open spec fn aggs_ok(xs: Seq<AggExprV>, n: nat) -> bool {
    forall|k: int| 0 <= k < xs.len() ==> agg_ok(#[trigger] xs[k], n)
}

pub open spec fn window_ok(w: WindowExprV, n: nat) -> bool {
    exprs_ok(w.args, n) && sorts_ok(w.order_by, n)
}

pub open spec fn windows_ok(xs: Seq<WindowExprV>, n: nat) -> bool {
    forall|k: int| 0 <= k < xs.len() ==> window_ok(#[trigger] xs[k], n)
}

pub open spec fn opt_expr_ok(o: Option<ExprV>, n: nat) -> bool {
    match o {
        None => true,
        Some(e) => expr_ok(e, n),
    }
}

pub open spec fn opt_exprs_ok(xs: Seq<Option<ExprV>>, n: nat) -> bool {
    forall|k: int| 0 <= k < xs.len() ==> opt_expr_ok(#[trigger] xs[k], n)
}

/// A join filter is coherent when its expression references only columns
/// of its own embedded schema.
pub open spec fn join_filter_ok(f: JoinFilterV) -> bool {
    expr_ok(f.expression, f.schema.len())
}

// ---------------------------------------------------------------------------
// Typing against a schema context
// ---------------------------------------------------------------------------

/// The type an expression takes against a schema: a column reads its
/// field, a literal is a 64-bit integer, comparisons and connectives are
/// boolean, and arithmetic takes the type of its left operand.
pub open spec fn expr_type(e: ExprV, s: SchemaV) -> DataType
    decreases e,
{
    match e {
        ExprV::Column { index } => if (index as int) < s.len() {
            s[index as int].data_type
        } else {
            DataType::Boolean
        },
        ExprV::Literal { .. } => DataType::Int64,
        ExprV::Binary { op, left, right } => if is_boolean_op(op) {
            DataType::Boolean
        } else {
            expr_type(*left, s)
        },
    }
}

/// An expression is nullable when any column it reads is nullable.
pub open spec fn expr_nullable(e: ExprV, s: SchemaV) -> bool
    decreases e,
{
    match e {
        ExprV::Column { index } => if (index as int) < s.len() {
            s[index as int].nullable
        } else {
            false
        },
        ExprV::Literal { .. } => false,
        ExprV::Binary { op, left, right } => expr_nullable(*left, s) || expr_nullable(
            *right,
            s,
        ),
    }
}

// ---------------------------------------------------------------------------
// Executable checks
// ---------------------------------------------------------------------------

/// Checks that every column reference falls inside a schema of `n` fields.
pub fn check_expr(e: &Expr, n: usize) -> (r: bool)
    ensures
        r == expr_ok(e.deep_view(), n as nat),
    decreases *e,
{
    match e {
        Expr::Column { index } => *index < n as u64,
        Expr::Literal { .. } => true,
        Expr::Binary { op: _, left, right } => check_expr(left, n) && check_expr(
            right,
            n,
        ),
    }
}

pub fn check_exprs(es: &Vec<Expr>, n: usize) -> (r: bool)
    ensures
        r == exprs_ok(es.deep_view(), n as nat),
{
    let mut k: usize = 0;
    while k < es.len()
        invariant
            k <= es@.len(),
            forall|m: int| 0 <= m < k ==> expr_ok(#[trigger] es.deep_view()[m], n as nat),
        decreases es@.len() - k,
    {
        if !check_expr(&es[k], n) {
            proof {
                assert(!expr_ok(es.deep_view()[k as int], n as nat));
            }
            return false;
        }
        k = k + 1;
    }
    true
}

pub fn check_sorts(xs: &Vec<SortExpr>, n: usize) -> (r: bool)
    ensures
        r == sorts_ok(xs.deep_view(), n as nat),
{
    let mut k: usize = 0;
    while k < xs.len()
        invariant
            k <= xs@.len(),
            forall|m: int| 0 <= m < k ==> sort_ok(#[trigger] xs.deep_view()[m], n as nat),
        decreases xs@.len() - k,
    {
        if !check_expr(&xs[k].expr, n) {
            proof {
                assert(!sort_ok(xs.deep_view()[k as int], n as nat));
            }
            return false;
        }
        k = k + 1;
    }
    true
}

pub fn check_aggs(xs: &Vec<AggExpr>, n: usize) -> (r: bool)
    ensures
        r == aggs_ok(xs.deep_view(), n as nat),
{
    let mut k: usize = 0;
    while k < xs.len()
        invariant
            k <= xs@.len(),
            forall|m: int| 0 <= m < k ==> agg_ok(#[trigger] xs.deep_view()[m], n as nat),
        decreases xs@.len() - k,
    {
        if !(check_exprs(&xs[k].args, n) && check_sorts(&xs[k].order_by, n)) {
            proof {
                assert(!agg_ok(xs.deep_view()[k as int], n as nat));
            }
            return false;
        }
        k = k + 1;
    }
    true
}

pub fn check_windows(xs: &Vec<WindowExpr>, n: usize) -> (r: bool)
    ensures
        r == windows_ok(xs.deep_view(), n as nat),
{
    let mut k: usize = 0;
    while k < xs.len()
        invariant
            k <= xs@.len(),
            forall|m: int|
                0 <= m < k ==> window_ok(#[trigger] xs.deep_view()[m], n as nat),
        decreases xs@.len() - k,
    {
        if !(check_exprs(&xs[k].args, n) && check_sorts(&xs[k].order_by, n)) {
            proof {
                assert(!window_ok(xs.deep_view()[k as int], n as nat));
            }
            return false;
        }
        k = k + 1;
    }
    true
}

pub fn check_opt_exprs(xs: &Vec<Option<Expr>>, n: usize) -> (r: bool)
    ensures
        r == opt_exprs_ok(xs.deep_view(), n as nat),
{
    let mut k: usize = 0;
    while k < xs.len()
        invariant
            k <= xs@.len(),
            forall|m: int|
                0 <= m < k ==> opt_expr_ok(#[trigger] xs.deep_view()[m], n as nat),
        decreases xs@.len() - k,
    {
        let ok = match &xs[k] {
            None => true,
            Some(e) => check_expr(e, n),
        };
        if !ok {
            proof {
                assert(!opt_expr_ok(xs.deep_view()[k as int], n as nat));
            }
            return false;
        }
        k = k + 1;
    }
    true
}

/// The type and nullability an expression takes against a schema.
pub fn expr_field(e: &Expr, s: &Schema) -> (r: (DataType, bool))
    ensures
        r.0 == expr_type(e.deep_view(), s.deep_view()),
        r.1 == expr_nullable(e.deep_view(), s.deep_view()),
    decreases *e,
{
    match e {
        Expr::Column { index } => {
            if *index < s.fields.len() as u64 {
                let k = *index as usize;
                (s.fields[k].data_type, s.fields[k].nullable)
            } else {
                (DataType::Boolean, false)
            }
        },
        Expr::Literal { .. } => (DataType::Int64, false),
        Expr::Binary { op, left, right } => {
            let (lt, ln) = expr_field(left, s);
            let (_, rn) = expr_field(right, s);
            let boolean = match op {
                BinOp::Plus | BinOp::Minus | BinOp::Multiply => false,
                _ => true,
            };
            (if boolean { DataType::Boolean } else { lt }, ln || rn)
        },
    }
}

} // verus!
