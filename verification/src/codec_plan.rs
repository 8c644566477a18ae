//! The plan codec: the envelope dispatcher, child-first recursion and the
//! two entry points.
//!
//! Encoding tries the built-in kinds by tag and falls through to the
//! extension stack; decoding rebuilds children first, then validates the
//! operator against their schemas, so every decoded plan is well formed.

use vstd::prelude::*;
use crate::codec_op::{dec_op_payload, enc_op_payload, op_fits, op_tag, spec_dec_op_payload, spec_enc_op_payload};
use crate::error::{CodecError, ErrorKind};
use crate::expr::AggExprV;
use crate::extension::PhysicalExtensionCodec;
use crate::plan::{plan_view, plans_view, OpKind, OpV, Plan, PlanV};
use crate::registry::{names_contain, reg_has, FunctionRegistry, RegistryV};
use crate::schema::Schema;
use crate::valid::{check_arity, check_ctx, check_shape};
use crate::wf::{kids_schemas, lemma_kids_schemas_index, lemma_kids_schemas_len, op_arity_ok, op_ctx_ok, op_shape_ok};
use crate::wire::{dec_bytes, dec_varint, enc_bytes, enc_varint, spec_dec_bytes, spec_dec_varint, spec_enc_bytes, spec_enc_varint, SpecParse};

verus! {

broadcast use crate::views::lemma_deep_view_len, crate::views::lemma_deep_view_index, crate::views::lemma_bytes_deep_view;

// ---------------------------------------------------------------------------
// Function resolution
// ---------------------------------------------------------------------------

/// An aggregate reference resolves: a negotiated payload goes to the
/// extension stack; otherwise the registry is consulted first and the
/// stack second.
pub open spec fn agg_resolves<C: PhysicalExtensionCodec>(
    c: C,
    reg: RegistryV,
    a: AggExprV,
) -> bool {
    match a.fun_definition {
        Some(b) => c.udaf_ok(a.udaf_name, b),
        None => reg_has(reg.udafs, a.udaf_name) || c.udaf_ok(a.udaf_name, Seq::empty()),
    }
}

pub open spec fn window_resolves<C: PhysicalExtensionCodec>(
    c: C,
    reg: RegistryV,
    w: crate::expr::WindowExprV,
) -> bool {
    match w.fun_definition {
        Some(b) => c.udwf_ok(w.udwf_name, b),
        None => reg_has(reg.udwfs, w.udwf_name) || c.udwf_ok(w.udwf_name, Seq::empty()),
    }
}

/// Every aggregate reference of the list resolves.
pub open spec fn aggs_resolve<C: PhysicalExtensionCodec>(
    c: C,
    reg: RegistryV,
    xs: Seq<AggExprV>,
) -> bool {
    forall|k: int| 0 <= k < xs.len() ==> agg_resolves(c, reg, #[trigger] xs[k])
}

/// Every window reference of the list resolves.
pub open spec fn windows_resolve<C: PhysicalExtensionCodec>(
    c: C,
    reg: RegistryV,
    xs: Seq<crate::expr::WindowExprV>,
) -> bool {
    forall|k: int| 0 <= k < xs.len() ==> window_resolves(c, reg, #[trigger] xs[k])
}

/// Every function reference the operator carries resolves.
pub open spec fn op_resolves<C: PhysicalExtensionCodec>(c: C, reg: RegistryV, op: OpV) -> bool {
    match op {
        OpV::Aggregate { aggr_exprs, .. } => aggs_resolve(c, reg, aggr_exprs),
        OpV::Window { window_exprs, .. } => windows_resolve(c, reg, window_exprs),
        _ => true,
    }
}

/// Checks that every aggregate reference of the list resolves.
fn check_aggs_resolve<C: PhysicalExtensionCodec>(
    codec: &C,
    registry: &FunctionRegistry,
    xs: &Vec<crate::expr::AggExpr>,
) -> (r: bool)
    ensures
        r == aggs_resolve(*codec, registry.deep_view(), xs.deep_view()),
{
    let mut k: usize = 0;
    while k < xs.len()
        invariant
            k <= xs@.len(),
            forall|m: int|
                0 <= m < k ==> agg_resolves(
                    *codec,
                    registry.deep_view(),
                    #[trigger] xs.deep_view()[m],
                ),
        decreases xs@.len() - k,
    {
        let a = &xs[k];
        let ok = match &a.fun_definition {
            Some(b) => match codec.try_decode_udaf(a.udaf_name.as_slice(), b.as_slice()) {
                Ok(_) => true,
                Err(_) => false,
            },
            None => {
                if names_contain(&registry.udafs, &a.udaf_name) {
                    true
                } else {
                    let empty: Vec<u8> = Vec::new();
                    proof {
                        assert(empty@ =~= Seq::<u8>::empty());
                    }
                    match codec.try_decode_udaf(a.udaf_name.as_slice(), empty.as_slice()) {
                        Ok(_) => true,
                        Err(_) => false,
                    }
                }
            },
        };
        if !ok {
            proof {
                assert(!agg_resolves(
                    *codec,
                    registry.deep_view(),
                    xs.deep_view()[k as int],
                ));
                assert(!aggs_resolve(*codec, registry.deep_view(), xs.deep_view()));
            }
            return false;
        }
        k = k + 1;
    }
    true
}

/// Checks that every window reference of the list resolves.
fn check_windows_resolve<C: PhysicalExtensionCodec>(
    codec: &C,
    registry: &FunctionRegistry,
    xs: &Vec<crate::expr::WindowExpr>,
) -> (r: bool)
    ensures
        r == windows_resolve(*codec, registry.deep_view(), xs.deep_view()),
{
    let mut k: usize = 0;
    while k < xs.len()
        invariant
            k <= xs@.len(),
            forall|m: int|
                0 <= m < k ==> window_resolves(
                    *codec,
                    registry.deep_view(),
                    #[trigger] xs.deep_view()[m],
                ),
        decreases xs@.len() - k,
    {
        let w = &xs[k];
        let ok = match &w.fun_definition {
            Some(b) => match codec.try_decode_udwf(w.udwf_name.as_slice(), b.as_slice()) {
                Ok(_) => true,
                Err(_) => false,
            },
            None => {
                if names_contain(&registry.udwfs, &w.udwf_name) {
                    true
                } else {
                    let empty: Vec<u8> = Vec::new();
                    proof {
                        assert(empty@ =~= Seq::<u8>::empty());
                    }
                    match codec.try_decode_udwf(w.udwf_name.as_slice(), empty.as_slice()) {
                        Ok(_) => true,
                        Err(_) => false,
                    }
                }
            },
        };
        if !ok {
            proof {
                assert(!window_resolves(
                    *codec,
                    registry.deep_view(),
                    xs.deep_view()[k as int],
                ));
                assert(!windows_resolve(*codec, registry.deep_view(), xs.deep_view()));
            }
            return false;
        }
        k = k + 1;
    }
    true
}

/// Checks resolution, consulting the registry and then the stack.
fn check_resolves<C: PhysicalExtensionCodec>(
    codec: &C,
    registry: &FunctionRegistry,
    op: &OpKind,
) -> (r: bool)
    ensures
        r == op_resolves(*codec, registry.deep_view(), op.deep_view()),
{
    match op {
        OpKind::Aggregate { aggr_exprs, .. } => check_aggs_resolve(codec, registry, aggr_exprs),
        OpKind::Window { window_exprs, .. } => check_windows_resolve(
            codec,
            registry,
            window_exprs,
        ),
        _ => true,
    }
}

// ---------------------------------------------------------------------------
// Spec-level plan encoder
// ---------------------------------------------------------------------------

/// Every extension node of the tree is accepted by the stack.
pub open spec fn spec_enc_plan_ok<C: PhysicalExtensionCodec>(c: C, p: PlanV) -> bool
    decreases p,
{
    &&& (p.op is Extension ==> c.encode_ok(p))
    &&& spec_enc_plans_ok(c, p.children)
}

pub open spec fn spec_enc_plans_ok<C: PhysicalExtensionCodec>(c: C, cs: Seq<PlanV>) -> bool
    decreases cs,
{
    if cs.len() == 0 {
        true
    } else {
        spec_enc_plan_ok(c, cs[0]) && spec_enc_plans_ok(c, cs.drop_first())
    }
}

/// The wire form of a plan: a tag, the payload (or the stack's blob), and
/// the children.
pub open spec fn spec_enc_plan<C: PhysicalExtensionCodec>(c: C, p: PlanV) -> Seq<u8>
    decreases p,
{
    if p.op is Extension {
        spec_enc_varint(31) + (spec_enc_bytes(c.encode_val(p)) + spec_enc_plans(c, p.children))
    } else {
        spec_enc_varint(op_tag(p.op)) + (spec_enc_op_payload(p.op) + spec_enc_plans(
            c,
            p.children,
        ))
    }
}

pub open spec fn spec_enc_plans<C: PhysicalExtensionCodec>(c: C, cs: Seq<PlanV>) -> Seq<u8>
    decreases cs, 1int,
{
    spec_enc_varint(cs.len() as u64) + spec_enc_plans_items(c, cs)
}

pub open spec fn spec_enc_plans_items<C: PhysicalExtensionCodec>(c: C, cs: Seq<PlanV>) -> Seq<u8>
    decreases cs, 0int,
{
    if cs.len() == 0 {
        Seq::empty()
    } else {
        spec_enc_plan(c, cs[0]) + spec_enc_plans_items(c, cs.drop_first())
    }
}

pub proof fn lemma_enc_plans_items_snoc<C: PhysicalExtensionCodec>(c: C, cs: Seq<PlanV>, x: PlanV)
    ensures
        spec_enc_plans_items(c, cs.push(x)) == spec_enc_plans_items(c, cs) + spec_enc_plan(
            c,
            x,
        ),
    decreases cs,
{
    if cs.len() == 0 {
        assert(cs.push(x)[0] == x);
        assert(cs =~= Seq::<PlanV>::empty());
        assert(cs.push(x).drop_first() =~= Seq::<PlanV>::empty());
        assert(spec_enc_plans_items(c, Seq::<PlanV>::empty()) =~= Seq::<u8>::empty());
        assert(spec_enc_plans_items(c, cs.push(x)) =~= spec_enc_plans_items(c, cs)
            + spec_enc_plan(c, x));
    } else {
        let l = cs.push(x);
        assert(l[0] == cs[0]);
        assert(l.drop_first() =~= cs.drop_first().push(x));
        lemma_enc_plans_items_snoc(c, cs.drop_first(), x);
        assert(spec_enc_plans_items(c, l) == spec_enc_plan(c, cs[0]) + spec_enc_plans_items(
            c,
            l.drop_first(),
        ));
        assert(spec_enc_plans_items(c, cs) == spec_enc_plan(c, cs[0])
            + spec_enc_plans_items(c, cs.drop_first()));
        assert(spec_enc_plans_items(c, l) =~= spec_enc_plans_items(c, cs) + spec_enc_plan(
            c,
            x,
        ));
    }
}

pub proof fn lemma_enc_plans_ok_snoc<C: PhysicalExtensionCodec>(c: C, cs: Seq<PlanV>, x: PlanV)
    requires
        spec_enc_plans_ok(c, cs),
        spec_enc_plan_ok(c, x),
    ensures
        spec_enc_plans_ok(c, cs.push(x)),
    decreases cs,
{
    if cs.len() == 0 {
        assert(cs =~= Seq::<PlanV>::empty());
        assert(cs.push(x)[0] == x);
        assert(cs.push(x).drop_first() =~= Seq::<PlanV>::empty());
        assert(spec_enc_plans_ok(c, Seq::<PlanV>::empty()));
        assert(spec_enc_plans_ok(c, cs.push(x)));
    } else {
        let l = cs.push(x);
        assert(l[0] == cs[0]);
        assert(l.drop_first() =~= cs.drop_first().push(x));
        lemma_enc_plans_ok_snoc(c, cs.drop_first(), x);
        assert(spec_enc_plan_ok(c, l[0]));
        assert(spec_enc_plans_ok(c, l.drop_first()));
        assert(spec_enc_plans_ok(c, l));
    }
}

pub proof fn lemma_enc_plans_not_ok<C: PhysicalExtensionCodec>(c: C, cs: Seq<PlanV>, k: int)
    requires
        0 <= k < cs.len(),
        !spec_enc_plan_ok(c, cs[k]),
    ensures
        !spec_enc_plans_ok(c, cs),
    decreases cs,
{
    if k > 0 {
        assert(cs.drop_first()[k - 1] == cs[k]);
        lemma_enc_plans_not_ok(c, cs.drop_first(), k - 1);
    }
}

// ---------------------------------------------------------------------------
// Spec-level plan parser
// ---------------------------------------------------------------------------

pub open spec fn spec_dec_plan<C: PhysicalExtensionCodec>(
    c: C,
    reg: RegistryV,
    s: Seq<u8>,
    i: int,
) -> SpecParse<PlanV>
    decreases s.len() - i, 0nat, 0nat,
{
    match spec_dec_varint(s, i) {
        Err(k) => Err(k),
        Ok((t, i1)) => {
            if i1 <= i || i1 > s.len() {
                Err(ErrorKind::Internal)
            } else if t == 0 {
                Err(ErrorKind::Malformed)
            } else if t == 31 {
                match spec_dec_bytes(s, i1) {
                    Err(k) => Err(k),
                    Ok((blob, i2)) => {
                        if i2 <= i || i2 > s.len() {
                            Err(ErrorKind::Internal)
                        } else {
                            match spec_dec_plans(c, reg, s, i2) {
                                Err(k) => Err(k),
                                Ok((children, i3)) => {
                                    if c.decode_ok(blob, children, reg) {
                                        Ok((c.decode_val(blob, children, reg), i3))
                                    } else {
                                        Err(ErrorKind::Unsupported)
                                    }
                                },
                            }
                        }
                    },
                }
            } else if t <= 30 {
                spec_dec_builtin(c, reg, s, i1, t)
            } else {
                Err(ErrorKind::Malformed)
            }
        },
    }
}

/// The built-in branch of the plan parser: payload, children, validation.
pub open spec fn spec_dec_builtin<C: PhysicalExtensionCodec>(
    c: C,
    reg: RegistryV,
    s: Seq<u8>,
    i1: int,
    t: u64,
) -> SpecParse<PlanV>
    decreases s.len() - i1, 3nat, 0nat,
{
    match spec_dec_op_payload(s, i1, t) {
        Err(k) => Err(k),
        Ok((op, i2)) => {
            if i2 < i1 || i2 > s.len() {
                Err(ErrorKind::Internal)
            } else {
                match spec_dec_plans(c, reg, s, i2) {
                    Err(k) => Err(k),
                    Ok((children, i3)) => {
                        if !op_arity_ok(op, children.len()) {
                            Err(ErrorKind::Malformed)
                        } else if !op_shape_ok(op) {
                            Err(ErrorKind::Malformed)
                        } else if !op_resolves(c, reg, op) {
                            Err(ErrorKind::Unsupported)
                        } else if !op_ctx_ok(op, kids_schemas(children)) {
                            Err(ErrorKind::SchemaMismatch)
                        } else {
                            Ok((PlanV { op, children }, i3))
                        }
                    },
                }
            }
        },
    }
}

pub open spec fn spec_dec_plans<C: PhysicalExtensionCodec>(
    c: C,
    reg: RegistryV,
    s: Seq<u8>,
    i: int,
) -> SpecParse<Seq<PlanV>>
    decreases s.len() - i, 2nat, 0nat,
{
    match spec_dec_varint(s, i) {
        Err(k) => Err(k),
        Ok((n, j)) => {
            if j <= i || j > s.len() {
                Err(ErrorKind::Internal)
            } else {
                spec_dec_plan_items(c, reg, s, j, n)
            }
        },
    }
}

pub open spec fn spec_dec_plan_items<C: PhysicalExtensionCodec>(
    c: C,
    reg: RegistryV,
    s: Seq<u8>,
    i: int,
    n: u64,
) -> SpecParse<Seq<PlanV>>
    decreases s.len() - i, 1nat, n,
{
    if n == 0 {
        Ok((Seq::empty(), i))
    } else {
        match spec_dec_plan(c, reg, s, i) {
            Err(k) => Err(k),
            Ok((p, j)) => {
                if j <= i || j > s.len() {
                    Err(ErrorKind::Internal)
                } else {
                    match spec_dec_plan_items(c, reg, s, j, (n - 1) as u64) {
                        Err(k) => Err(k),
                        Ok((rest, j2)) => Ok((seq![p] + rest, j2)),
                    }
                }
            },
        }
    }
}

// ---------------------------------------------------------------------------
// Executable encoder
// ---------------------------------------------------------------------------

/// The envelope tag of an operator kind.
#[verifier::rlimit(100)]
fn op_tag_of(op: &OpKind) -> (t: u64)
    ensures
        t == op_tag(op.deep_view()),
{
    match op {
        OpKind::Projection { .. } => 1,
        OpKind::Filter { .. } => 2,
        OpKind::Aggregate { .. } => 3,
        OpKind::HashJoin { .. } => 4,
        OpKind::SymmetricHashJoin { .. } => 5,
        OpKind::CrossJoin => 6,
        OpKind::NestedLoopJoin { .. } => 7,
        OpKind::Sort { .. } => 8,
        OpKind::SortPreservingMerge { .. } => 9,
        OpKind::CoalesceBatches { .. } => 10,
        OpKind::CoalescePartitions { .. } => 11,
        OpKind::Repartition { .. } => 12,
        OpKind::GlobalLimit { .. } => 13,
        OpKind::LocalLimit { .. } => 14,
        OpKind::Union => 15,
        OpKind::Interleave => 16,
        OpKind::Empty { .. } => 17,
        OpKind::PlaceholderRow { .. } => 18,
        OpKind::Explain { .. } => 19,
        OpKind::Analyze { .. } => 20,
        OpKind::Window { .. } => 21,
        OpKind::Unnest { .. } => 22,
        OpKind::Cooperative => 23,
        OpKind::CsvScan { .. } => 24,
        OpKind::JsonScan { .. } => 25,
        OpKind::ParquetScan { .. } => 26,
        OpKind::AvroScan { .. } => 27,
        OpKind::CsvSink { .. } => 28,
        OpKind::JsonSink { .. } => 29,
        OpKind::ParquetSink { .. } => 30,
        OpKind::Extension { .. } => 31,
    }
}

/// Appends the wire form of a plan, or reports `Unsupported` when an
/// extension node is refused by the stack.
#[verifier::rlimit(100)]
#[verifier::spinoff_prover]
pub fn enc_plan<C: PhysicalExtensionCodec>(out: &mut Vec<u8>, p: &Plan, codec: &C) -> (r:
    Result<(), CodecError>)
    ensures
        r is Ok <==> spec_enc_plan_ok(*codec, plan_view(*p)),
        r is Ok ==> final(out)@ == old(out)@ + spec_enc_plan(*codec, plan_view(*p)),
        r is Err ==> r->Err_0.kind == ErrorKind::Unsupported,
    decreases *p,
{
    let ghost pre = out@;
    let is_ext = match &p.op {
        OpKind::Extension { .. } => true,
        _ => false,
    };
    if is_ext {
        match codec.try_encode(p) {
            Ok(blob) => {
                enc_varint(out, 31);
                enc_bytes(out, blob.as_slice());
            },
            Err(_) => {
                return Err(CodecError::unsupported("extension codec refused the node"));
            },
        }
    } else {
        let t = op_tag_of(&p.op);
        enc_varint(out, t);
        enc_op_payload(out, &p.op);
    }
    // children
    enc_varint(out, p.children.len() as u64);
    let ghost base = out@;
    let mut k: usize = 0;
    while k < p.children.len()
        invariant
            k <= p.children@.len(),
            out@ == base + spec_enc_plans_items(
                *codec,
                plans_view(p.children@).take(k as int),
            ),
            spec_enc_plans_ok(*codec, plans_view(p.children@).take(k as int)),
        decreases p.children@.len() - k,
    {
        proof {
            crate::plan::lemma_plans_view_len(p.children@);
            crate::plan::lemma_plans_view_index(p.children@, k as int);
            assert(decreases_to!(*p => p.children@[k as int]));
        }
        match enc_plan(out, &p.children[k], codec) {
            Ok(()) => {},
            Err(e) => {
                proof {
                    crate::plan::lemma_plans_view_index(p.children@, k as int);
                    lemma_enc_plans_not_ok(
                        *codec,
                        plans_view(p.children@),
                        k as int,
                    );
                }
                return Err(e);
            },
        }
        proof {
            let cv = plans_view(p.children@);
            assert(cv.take(k as int).push(cv[k as int]) =~= cv.take(k + 1 as int));
            lemma_enc_plans_items_snoc(*codec, cv.take(k as int), cv[k as int]);
            lemma_enc_plans_ok_snoc(*codec, cv.take(k as int), cv[k as int]);
        }
        k = k + 1;
    }
    proof {
        crate::plan::lemma_plans_view_len(p.children@);
        assert(plans_view(p.children@).take(p.children@.len() as int) =~= plans_view(
            p.children@,
        ));
        assert(out@ =~= pre + spec_enc_plan(*codec, plan_view(*p)));
    }
    Ok(())
}

// ---------------------------------------------------------------------------
// Executable parser
// ---------------------------------------------------------------------------

/// What remains of a child-list parse.
pub open spec fn plan_items_continue<C: PhysicalExtensionCodec>(
    c: C,
    reg: RegistryV,
    s: Seq<u8>,
    start: int,
    n: u64,
    acc: Seq<PlanV>,
    cur: int,
    rem: u64,
) -> bool {
    spec_dec_plan_items(c, reg, s, start, n) == (match spec_dec_plan_items(
        c,
        reg,
        s,
        cur,
        rem,
    ) {
        Ok((rest, j)) => Ok::<(Seq<PlanV>, int), ErrorKind>((acc + rest, j)),
        Err(k) => Err(k),
    })
}

/// Parses a counted child list.
#[verifier::rlimit(100)]
#[verifier::spinoff_prover]
fn dec_plans<C: PhysicalExtensionCodec>(
    s: &[u8],
    i: usize,
    registry: &FunctionRegistry,
    codec: &C,
) -> (r: Result<(Vec<Plan>, usize), CodecError>)
    ensures
        ({
            let m = spec_dec_plans(*codec, registry.deep_view(), s@, i as int);
            match r {
                Ok((v, j)) => m == Ok::<(Seq<PlanV>, int), ErrorKind>((
                    plans_view(v@),
                    j as int,
                )),
                Err(e) => m is Err && m->Err_0 == e.kind,
            }
        }),
        r is Ok ==> i < r->Ok_0.1 <= s@.len(),
    decreases s@.len() - i, 1int,
{
    let (n, start) = dec_varint(s, i)?;
    let mut acc: Vec<Plan> = Vec::new();
    let mut cur: usize = start;
    let mut k: u64 = 0;
    proof {
        assert(plans_view(acc@) =~= Seq::<PlanV>::empty());
        assert(Seq::<PlanV>::empty() + Seq::<PlanV>::empty() =~= Seq::<PlanV>::empty());
    }
    while k < n
        invariant
            i < start <= cur <= s@.len(),
            k <= n,
            spec_dec_varint(s@, i as int) == Ok::<(u64, int), ErrorKind>((n, start as int)),
            plan_items_continue(
                *codec,
                registry.deep_view(),
                s@,
                start as int,
                n,
                plans_view(acc@),
                cur as int,
                (n - k) as u64,
            ),
        decreases n - k,
    {
        proof {
            let c = *codec;
            let reg = registry.deep_view();
            assert(spec_dec_plan_items(c, reg, s@, cur as int, (n - k) as u64) == (
            match spec_dec_plan(c, reg, s@, cur as int) {
                Ok((p, j)) => {
                    if j <= cur as int || j > s@.len() {
                        Err::<(Seq<PlanV>, int), ErrorKind>(ErrorKind::Internal)
                    } else {
                        match spec_dec_plan_items(c, reg, s@, j, (n - k - 1) as u64) {
                            Ok((rest, j2)) => Ok::<(Seq<PlanV>, int), ErrorKind>((
                                seq![p] + rest,
                                j2,
                            )),
                            Err(e2) => Err(e2),
                        }
                    }
                },
                Err(e2) => Err(e2),
            }));
        }
        match dec_plan(s, cur, registry, codec) {
            Ok((p, j)) => {
                let ghost accpre = acc@;
                let ghost px = p;
                acc.push(p);
                proof {
                    crate::plan::lemma_plans_view_push(accpre, px);
                    assert forall|rest: Seq<PlanV>|
                        plans_view(accpre) + (seq![plan_view(px)] + rest) =~= plans_view(
                            acc@,
                        ) + rest by {}
                }
                cur = j;
            },
            Err(e) => {
                return Err(e);
            },
        }
        k = k + 1;
    }
    proof {
        assert(spec_dec_plan_items(
            *codec,
            registry.deep_view(),
            s@,
            cur as int,
            0u64,
        ) == Ok::<(Seq<PlanV>, int), ErrorKind>((Seq::<PlanV>::empty(), cur as int)));
        assert(plans_view(acc@) + Seq::<PlanV>::empty() =~= plans_view(acc@));
    }
    Ok((acc, cur))
}

/// Parses one plan: tag, payload or blob, then children, then validation.
#[verifier::rlimit(100)]
#[verifier::spinoff_prover]
pub fn dec_plan<C: PhysicalExtensionCodec>(
    s: &[u8],
    i: usize,
    registry: &FunctionRegistry,
    codec: &C,
) -> (r: Result<(Plan, usize), CodecError>)
    ensures
        ({
            let m = spec_dec_plan(*codec, registry.deep_view(), s@, i as int);
            match r {
                Ok((p, j)) => m == Ok::<(PlanV, int), ErrorKind>((plan_view(p), j as int)),
                Err(e) => m is Err && m->Err_0 == e.kind,
            }
        }),
        r is Ok ==> i < r->Ok_0.1 <= s@.len(),
    decreases s@.len() - i, 0int,
{
    let (t, i1) = dec_varint(s, i)?;
    if t == 0 {
        return Err(CodecError::malformed("missing physical_plan_type"));
    }
    if t == 31 {
        let (blob, i2) = dec_bytes(s, i1)?;
        let (children, i3) = dec_plans(s, i2, registry, codec)?;
        let ghost cv = plans_view(children@);
        match codec.try_decode(blob.as_slice(), children, registry) {
            Ok(p) => Ok((p, i3)),
            Err(_) => Err(CodecError::unsupported("extension codec refused the node")),
        }
    } else if t <= 30 {
        dec_builtin(s, i1, t, registry, codec)
    } else {
        Err(CodecError::malformed("operator tag out of range"))
    }
}

/// The schemas of the decoded children, in order.
fn child_schemas(children: &Vec<Plan>) -> (ks: Vec<Schema>)
    ensures
        ks.deep_view() == kids_schemas(plans_view(children@)),
{
    let mut ks: Vec<Schema> = Vec::new();
    let mut k: usize = 0;
    while k < children.len()
        invariant
            k <= children@.len(),
            ks@.len() == k,
            forall|m: int|
                0 <= m < k ==> #[trigger] ks.deep_view()[m] == crate::wf::plan_schema(
                    plan_view(children@[m]),
                ),
        decreases children@.len() - k,
    {
        let sc = crate::output::schema_of(&children[k]);
        let ghost kspre = ks;
        let ghost scx = sc;
        ks.push(sc);
        proof {
            crate::views::lemma_deep_view_push(ks, kspre, scx);
        }
        k = k + 1;
    }
    proof {
        crate::plan::lemma_plans_view_len(children@);
        lemma_kids_schemas_len(plans_view(children@));
        assert forall|m: int| 0 <= m < children@.len() implies #[trigger] ks.deep_view()[m]
            == kids_schemas(plans_view(children@))[m] by {
            lemma_kids_schemas_index(plans_view(children@), m);
            crate::plan::lemma_plans_view_index(children@, m);
        }
        assert(ks.deep_view() =~= kids_schemas(plans_view(children@)));
    }
    ks
}

/// Parses a built-in node: payload, children, then validation against the
/// child schemas.
#[verifier::rlimit(100)]
#[verifier::spinoff_prover]
fn dec_builtin<C: PhysicalExtensionCodec>(
    s: &[u8],
    i1: usize,
    t: u64,
    registry: &FunctionRegistry,
    codec: &C,
) -> (r: Result<(Plan, usize), CodecError>)
    requires
        i1 <= s@.len(),
        1 <= t <= 30,
    ensures
        ({
            let m = spec_dec_builtin(*codec, registry.deep_view(), s@, i1 as int, t);
            match r {
                Ok((p, j)) => m == Ok::<(PlanV, int), ErrorKind>((plan_view(p), j as int)),
                Err(e) => m is Err && m->Err_0 == e.kind,
            }
        }),
        r is Ok ==> i1 <= r->Ok_0.1 <= s@.len(),
    decreases s@.len() - i1, 3int,
{
    let (op, i2) = dec_op_payload(s, i1, t)?;
    let (children, i3) = dec_plans(s, i2, registry, codec)?;
    proof {
        crate::plan::lemma_plans_view_len(children@);
    }
    if !check_arity(&op, children.len()) {
        return Err(CodecError::malformed("wrong number of children"));
    }
    let sort_empty = match &op {
        OpKind::Sort { exprs, .. } => exprs.len() == 0,
        OpKind::SortPreservingMerge { exprs, .. } => exprs.len() == 0,
        _ => false,
    };
    if !check_shape(&op) {
        if sort_empty {
            return Err(CodecError::malformed("SortExec requires an ordering"));
        }
        return Err(CodecError::malformed("operator parameters are out of shape"));
    }
    if !check_resolves(codec, registry, &op) {
        return Err(CodecError::unsupported("function reference resolves nowhere"));
    }
    let ks = child_schemas(&children);
    if !check_ctx(&op, &ks) {
        return Err(CodecError::schema_mismatch(
            "expression references a column absent from its schema",
        ));
    }
    Ok((Plan { op, children }, i3))
}

// ---------------------------------------------------------------------------
// Entry points
// ---------------------------------------------------------------------------

/// The parse of a whole buffer: one plan, consuming every byte.
pub open spec fn spec_decode<C: PhysicalExtensionCodec>(
    c: C,
    reg: RegistryV,
    s: Seq<u8>,
) -> Result<PlanV, ErrorKind> {
    match spec_dec_plan(c, reg, s, 0) {
        Err(k) => Err(k),
        Ok((p, j)) => {
            if j == s.len() {
                Ok(p)
            } else {
                Err(ErrorKind::Malformed)
            }
        },
    }
}

/// Turns a plan into its wire form.  Succeeds for every tree whose
/// extension nodes the stack accepts; built-in nodes never consult the
/// stack.
pub fn encode<C: PhysicalExtensionCodec>(plan: &Plan, extension_codec: &C) -> (r: Result<
    Vec<u8>,
    CodecError,
>)
    ensures
        r is Ok <==> spec_enc_plan_ok(*extension_codec, plan_view(*plan)),
        r matches Ok(b) ==> b@ == spec_enc_plan(*extension_codec, plan_view(*plan)),
        r matches Err(e) ==> e.kind == ErrorKind::Unsupported,
{
    let mut out: Vec<u8> = Vec::new();
    match enc_plan(&mut out, plan, extension_codec) {
        Ok(()) => Ok(out),
        Err(e) => Err(e),
    }
}

/// Rebuilds a plan from its wire form, resolving functions against the
/// registry and handing extension blobs to the stack.  Trailing bytes are
/// malformed.
pub fn decode<C: PhysicalExtensionCodec>(
    buf: &[u8],
    registry: &FunctionRegistry,
    extension_codec: &C,
) -> (r: Result<Plan, CodecError>)
    ensures
        ({
            let m = spec_decode(*extension_codec, registry.deep_view(), buf@);
            match r {
                Ok(p) => m == Ok::<PlanV, ErrorKind>(plan_view(p)),
                Err(e) => m is Err && m->Err_0 == e.kind,
            }
        }),
{
    let (p, j) = dec_plan(buf, 0, registry, extension_codec)?;
    if j != buf.len() {
        return Err(CodecError::malformed("trailing bytes after the envelope"));
    }
    Ok(p)
}

} // verus!
