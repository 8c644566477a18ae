//! The codec's governing laws, proved over the spec-level encoder and
//! parser that the executable entry points are bound to.

use vstd::prelude::*;
use crate::codec_op::{op_fits, op_tag, spec_enc_op_payload};
use crate::codec_op_rt::lemma_op_rt;
use crate::error::ErrorKind;
use crate::extension::PhysicalExtensionCodec;
use crate::plan::{OpV, PlanV};
use crate::registry::RegistryV;
use crate::codec_plan::{op_resolves, spec_dec_plan, spec_dec_plan_items, spec_dec_plans, spec_decode, spec_enc_plan, spec_enc_plan_ok, spec_enc_plans, spec_enc_plans_items, spec_enc_plans_ok};
use crate::wf::{plan_schema, plan_wf, plans_wf};
use crate::wire::{at, lemma_at_split, lemma_varint_len, lemma_varint_rt, spec_enc_varint};

verus! {

/// Machine bounds under which a plan's encoding is faithful: every list
/// and byte string must fit a 64-bit count.  Every plan built from
/// executable vectors satisfies it.
pub open spec fn plan_fits(p: PlanV) -> bool
    decreases p,
{
    &&& op_fits(p.op)
    &&& p.children.len() <= u64::MAX
    &&& plans_fits(p.children)
}

pub open spec fn plans_fits(cs: Seq<PlanV>) -> bool
    decreases cs,
{
    if cs.len() == 0 {
        true
    } else {
        plan_fits(cs[0]) && plans_fits(cs.drop_first())
    }
}

/// Every operator of the tree is a built-in kind.
pub open spec fn plan_builtin(p: PlanV) -> bool
    decreases p,
{
    !(p.op is Extension) && plans_builtin(p.children)
}

pub open spec fn plans_builtin(cs: Seq<PlanV>) -> bool
    decreases cs,
{
    if cs.len() == 0 {
        true
    } else {
        plan_builtin(cs[0]) && plans_builtin(cs.drop_first())
    }
}

/// Every function reference of the tree resolves under the registry and
/// the stack.
pub open spec fn plan_resolves<C: PhysicalExtensionCodec>(c: C, reg: RegistryV, p: PlanV) -> bool
    decreases p,
{
    op_resolves(c, reg, p.op) && plans_resolves(c, reg, p.children)
}

pub open spec fn plans_resolves<C: PhysicalExtensionCodec>(
    c: C,
    reg: RegistryV,
    cs: Seq<PlanV>,
) -> bool
    decreases cs,
{
    if cs.len() == 0 {
        true
    } else {
        plan_resolves(c, reg, cs[0]) && plans_resolves(c, reg, cs.drop_first())
    }
}

/// The envelope tag of a built-in kind is in the built-in range.
pub proof fn lemma_op_tag_bounds(op: OpV)
    requires
        !(op is Extension),
    ensures
        1 <= op_tag(op) <= 30,
{
}

/// A plan's encoding starts with a tag, so it is never empty.
pub proof fn lemma_enc_plan_len<C: PhysicalExtensionCodec>(c: C, p: PlanV)
    ensures
        spec_enc_plan(c, p).len() >= 1,
{
    if p.op is Extension {
        lemma_varint_len(31);
        assert(spec_enc_plan(c, p) == spec_enc_varint(31) + (crate::wire::spec_enc_bytes(
            c.encode_val(p),
        ) + spec_enc_plans(c, p.children)));
    } else {
        lemma_varint_len(op_tag(p.op));
        assert(spec_enc_plan(c, p) == spec_enc_varint(op_tag(p.op)) + (spec_enc_op_payload(
            p.op,
        ) + spec_enc_plans(c, p.children)));
    }
}

/// Parsing a well-formed built-in plan's encoding wherever it occurs in a
/// buffer reads the plan back.
pub proof fn lemma_plan_rt<C: PhysicalExtensionCodec>(
    c: C,
    reg: RegistryV,
    s: Seq<u8>,
    i: int,
    p: PlanV,
)
    requires
        at(s, i, spec_enc_plan(c, p)),
        plan_wf(p),
        plan_fits(p),
        plan_builtin(p),
        plan_resolves(c, reg, p),
    ensures
        spec_dec_plan(c, reg, s, i) == Ok::<(PlanV, int), ErrorKind>((
            p,
            i + spec_enc_plan(c, p).len(),
        )),
    decreases p, 0int,
{
    let t = op_tag(p.op);
    lemma_op_tag_bounds(p.op);
    let e_tag = spec_enc_varint(t);
    let e_pay = spec_enc_op_payload(p.op);
    let e_kids = spec_enc_plans(c, p.children);
    assert(spec_enc_plan(c, p) == e_tag + (e_pay + e_kids));
    lemma_at_split(s, i, e_tag, e_pay + e_kids);
    lemma_varint_rt(s, i, t);
    lemma_varint_len(t);
    let i1 = i + e_tag.len();
    lemma_at_split(s, i1, e_pay, e_kids);
    lemma_op_rt(s, i1, p.op);
    let i2 = i1 + e_pay.len();
    lemma_plans_rt(c, reg, s, i2, p.children);
    assert(p == PlanV { op: p.op, children: p.children });
}

/// Parsing an encoded child list reads the children back.
pub proof fn lemma_plans_rt<C: PhysicalExtensionCodec>(
    c: C,
    reg: RegistryV,
    s: Seq<u8>,
    i: int,
    cs: Seq<PlanV>,
)
    requires
        at(s, i, spec_enc_plans(c, cs)),
        cs.len() <= u64::MAX,
        plans_wf(cs),
        plans_fits(cs),
        plans_builtin(cs),
        plans_resolves(c, reg, cs),
    ensures
        spec_dec_plans(c, reg, s, i) == Ok::<(Seq<PlanV>, int), ErrorKind>((
            cs,
            i + spec_enc_plans(c, cs).len(),
        )),
    decreases cs, 1int,
{
    let n: u64 = cs.len() as u64;
    assert(spec_enc_plans(c, cs) == spec_enc_varint(n) + spec_enc_plans_items(c, cs));
    lemma_at_split(s, i, spec_enc_varint(n), spec_enc_plans_items(c, cs));
    lemma_varint_rt(s, i, n);
    lemma_varint_len(n);
    lemma_plan_items_rt(c, reg, s, i + spec_enc_varint(n).len(), cs);
}

pub proof fn lemma_plan_items_rt<C: PhysicalExtensionCodec>(
    c: C,
    reg: RegistryV,
    s: Seq<u8>,
    i: int,
    cs: Seq<PlanV>,
)
    requires
        at(s, i, spec_enc_plans_items(c, cs)),
        cs.len() <= u64::MAX,
        plans_wf(cs),
        plans_fits(cs),
        plans_builtin(cs),
        plans_resolves(c, reg, cs),
    ensures
        spec_dec_plan_items(c, reg, s, i, cs.len() as u64) == Ok::<(Seq<PlanV>, int), ErrorKind>((
            cs,
            i + spec_enc_plans_items(c, cs).len(),
        )),
    decreases cs, 0int,
{
    if cs.len() == 0 {
        assert(cs =~= Seq::<PlanV>::empty());
        assert(spec_enc_plans_items(c, cs) =~= Seq::<u8>::empty());
    } else {
        let rest = cs.drop_first();
        assert(spec_enc_plans_items(c, cs) == spec_enc_plan(c, cs[0]) + spec_enc_plans_items(
            c,
            rest,
        ));
        lemma_at_split(s, i, spec_enc_plan(c, cs[0]), spec_enc_plans_items(c, rest));
        lemma_enc_plan_len(c, cs[0]);
        lemma_plan_rt(c, reg, s, i, cs[0]);
        let j = i + spec_enc_plan(c, cs[0]).len();
        lemma_plan_items_rt(c, reg, s, j, rest);
        assert(seq![cs[0]] + rest =~= cs);
    }
}

/// Round-trip identity: decoding the encoding of any well-formed plan of
/// built-in operators yields the plan itself, under any extension stack
/// and any registry that resolves the plan's function references.
pub proof fn lemma_round_trip_identity<C: PhysicalExtensionCodec>(c: C, reg: RegistryV, p: PlanV)
    requires
        plan_wf(p),
        plan_fits(p),
        plan_builtin(p),
        plan_resolves(c, reg, p),
    ensures
        spec_decode(c, reg, spec_enc_plan(c, p)) == Ok::<PlanV, ErrorKind>(p),
{
    let s = spec_enc_plan(c, p);
    assert(s.subrange(0, s.len() as int) =~= s);
    assert(at(s, 0, s));
    lemma_plan_rt(c, reg, s, 0, p);
}

/// Schema preservation: the decoded plan derives the same output schema
/// as the plan that was encoded.
pub proof fn lemma_schema_preservation<C: PhysicalExtensionCodec>(c: C, reg: RegistryV, p: PlanV)
    requires
        plan_wf(p),
        plan_fits(p),
        plan_builtin(p),
        plan_resolves(c, reg, p),
    ensures
        spec_decode(c, reg, spec_enc_plan(c, p)) matches Ok(q) && plan_schema(q) == plan_schema(
            p,
        ),
{
    lemma_round_trip_identity(c, reg, p);
}

/// Determinism: the wire form is a function of the plan and the stack
/// alone, so any two encodings of one plan are byte-identical.  The
/// executable encoder's contract pins its output to this same function.
pub proof fn lemma_encode_deterministic<C: PhysicalExtensionCodec>(
    c: C,
    p: PlanV,
    once: Seq<u8>,
    again: Seq<u8>,
)
    requires
        once == spec_enc_plan(c, p),
        again == spec_enc_plan(c, p),
    ensures
        once == again,
{
}

/// A tree of built-in operators never consults the extension stack on
/// encode: the encoder accepts it outright.
pub proof fn lemma_builtin_encode_ok<C: PhysicalExtensionCodec>(c: C, p: PlanV)
    requires
        plan_builtin(p),
    ensures
        spec_enc_plan_ok(c, p),
    decreases p, 1int,
{
    lemma_builtin_encode_ok_list(c, p.children);
}

pub proof fn lemma_builtin_encode_ok_list<C: PhysicalExtensionCodec>(c: C, cs: Seq<PlanV>)
    requires
        plans_builtin(cs),
    ensures
        spec_enc_plans_ok(c, cs),
    decreases cs, 0int,
{
    if cs.len() == 0 {
    } else {
        lemma_builtin_encode_ok(c, cs[0]);
        lemma_builtin_encode_ok_list(c, cs.drop_first());
    }
}

/// Dispatcher totality: for a well-formed tree of built-in operators,
/// encoding succeeds without the stack and decoding reads it back.
pub proof fn lemma_dispatcher_totality<C: PhysicalExtensionCodec>(c: C, reg: RegistryV, p: PlanV)
    requires
        plan_wf(p),
        plan_fits(p),
        plan_builtin(p),
        plan_resolves(c, reg, p),
    ensures
        spec_enc_plan_ok(c, p),
        spec_decode(c, reg, spec_enc_plan(c, p)) == Ok::<PlanV, ErrorKind>(p),
{
    lemma_builtin_encode_ok(c, p);
    lemma_round_trip_identity(c, reg, p);
}

} // verus!
