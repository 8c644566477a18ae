//! The extension protocol: user-supplied codecs for operators and
//! functions outside the built-in set, and a position-stable stack of
//! them.
//!
//! A codec's executable methods are tied to its own spec functions, so
//! everything proved about decoding through a codec holds for any
//! implementation that verifies.

use vstd::prelude::*;
use crate::error::{CodecError, ErrorKind};
use crate::plan::{plans_view, plan_view, OpKind, OpV, Plan, PlanV};
use crate::registry::{AggregateUdf, FunctionRegistry, RegistryV, ScalarUdf, WindowUdf};
use crate::schema::Schema;
use crate::wire::{spec_dec_bytes, spec_dec_varint, spec_enc_bytes, spec_enc_varint};

verus! {

broadcast use crate::views::lemma_deep_view_len, crate::views::lemma_deep_view_index, crate::views::lemma_bytes_deep_view;

/// A user-supplied encoder and decoder for operators, scalar functions,
/// aggregate functions and window functions outside the built-in set.
///
/// The spec functions describe which nodes the codec accepts and what it
/// produces; the executable methods are bound to them, so implementations
/// carry their own proof.
pub trait PhysicalExtensionCodec: Sized {
    /// Whether this codec can encode the given plan node.
    spec fn encode_ok(&self, plan: PlanV) -> bool;

    /// The blob this codec produces for an accepted plan node.
    spec fn encode_val(&self, plan: PlanV) -> Seq<u8>;

    /// Whether this codec can rebuild an operator from a blob and the
    /// already-decoded children, under the given registry.
    spec fn decode_ok(&self, blob: Seq<u8>, inputs: Seq<PlanV>, registry: RegistryV) -> bool;

    /// The operator this codec rebuilds.
    spec fn decode_val(&self, blob: Seq<u8>, inputs: Seq<PlanV>, registry: RegistryV) -> PlanV;

    /// Whether this codec resolves the named scalar function.
    spec fn udf_ok(&self, name: Seq<u8>, buf: Seq<u8>) -> bool;

    /// Whether this codec resolves the named aggregate function.
    spec fn udaf_ok(&self, name: Seq<u8>, buf: Seq<u8>) -> bool;

    /// Whether this codec resolves the named window function.
    spec fn udwf_ok(&self, name: Seq<u8>, buf: Seq<u8>) -> bool;

    /// Rebuilds an operator from an opaque blob and its decoded children.
    fn try_decode(&self, buf: &[u8], inputs: Vec<Plan>, registry: &FunctionRegistry) -> (r:
        Result<Plan, CodecError>)
        ensures
            r is Ok <==> self.decode_ok(buf@, plans_view(inputs@), registry.deep_view()),
            r matches Ok(p) ==> plan_view(p) == self.decode_val(
                buf@,
                plans_view(inputs@),
                registry.deep_view(),
            ),
    ;

    /// Encodes an operator this codec accepts into an opaque blob.
    fn try_encode(&self, node: &Plan) -> (r: Result<Vec<u8>, CodecError>)
        ensures
            r is Ok <==> self.encode_ok(plan_view(*node)),
            r matches Ok(b) ==> b@ == self.encode_val(plan_view(*node)),
    ;

    /// Resolves a scalar function that the registry does not know.
    fn try_decode_udf(&self, name: &[u8], buf: &[u8]) -> (r: Result<ScalarUdf, CodecError>)
        ensures
            r is Ok <==> self.udf_ok(name@, buf@),
            r matches Ok(u) ==> u.name@ == name@,
    ;

    /// Writes the negotiable payload of a scalar function.
    fn try_encode_udf(&self, node: &ScalarUdf) -> Result<Vec<u8>, CodecError>;

    /// Resolves an aggregate function that the registry does not know.
    fn try_decode_udaf(&self, name: &[u8], buf: &[u8]) -> (r: Result<AggregateUdf, CodecError>)
        ensures
            r is Ok <==> self.udaf_ok(name@, buf@),
            r matches Ok(u) ==> u.name@ == name@,
    ;

    /// Writes the negotiable payload of an aggregate function.
    fn try_encode_udaf(&self, node: &AggregateUdf) -> Result<Vec<u8>, CodecError>;

    /// Resolves a window function that the registry does not know.
    fn try_decode_udwf(&self, name: &[u8], buf: &[u8]) -> (r: Result<WindowUdf, CodecError>)
        ensures
            r is Ok <==> self.udwf_ok(name@, buf@),
            r matches Ok(u) ==> u.name@ == name@,
    ;

    /// Writes the negotiable payload of a window function.
    fn try_encode_udwf(&self, node: &WindowUdf) -> Result<Vec<u8>, CodecError>;
}

/// The codec used when a deployment has no extensions: it refuses every
/// node and resolves no function.
#[derive(Debug)]
pub struct DefaultPhysicalExtensionCodec {}

/// The placeholder node the default codec's spec functions name; it is
/// never produced, since the codec accepts nothing.
pub open spec fn no_plan() -> PlanV {
    PlanV { op: OpV::CrossJoin, children: Seq::empty() }
}

impl PhysicalExtensionCodec for DefaultPhysicalExtensionCodec {
    open spec fn encode_ok(&self, plan: PlanV) -> bool {
        false
    }

    open spec fn encode_val(&self, plan: PlanV) -> Seq<u8> {
        Seq::empty()
    }

    open spec fn decode_ok(&self, blob: Seq<u8>, inputs: Seq<PlanV>, registry: RegistryV) -> bool {
        false
    }

    open spec fn decode_val(&self, blob: Seq<u8>, inputs: Seq<PlanV>, registry: RegistryV) -> PlanV {
        no_plan()
    }

    open spec fn udf_ok(&self, name: Seq<u8>, buf: Seq<u8>) -> bool {
        false
    }

    open spec fn udaf_ok(&self, name: Seq<u8>, buf: Seq<u8>) -> bool {
        false
    }

    open spec fn udwf_ok(&self, name: Seq<u8>, buf: Seq<u8>) -> bool {
        false
    }

    fn try_decode(&self, buf: &[u8], inputs: Vec<Plan>, registry: &FunctionRegistry) -> (r:
        Result<Plan, CodecError>) {
        Err(CodecError::not_implemented("extension codec is not provided"))
    }

    fn try_encode(&self, node: &Plan) -> (r: Result<Vec<u8>, CodecError>) {
        Err(CodecError::not_implemented("extension codec is not provided"))
    }

    fn try_decode_udf(&self, name: &[u8], buf: &[u8]) -> (r: Result<ScalarUdf, CodecError>) {
        Err(CodecError::not_implemented("extension codec is not provided for scalar function"))
    }

    fn try_encode_udf(&self, node: &ScalarUdf) -> Result<Vec<u8>, CodecError> {
        Ok(Vec::new())
    }

    fn try_decode_udaf(&self, name: &[u8], buf: &[u8]) -> (r: Result<AggregateUdf, CodecError>) {
        Err(CodecError::not_implemented("extension codec is not provided for aggregate function"))
    }

    fn try_encode_udaf(&self, node: &AggregateUdf) -> Result<Vec<u8>, CodecError> {
        Ok(Vec::new())
    }

    fn try_decode_udwf(&self, name: &[u8], buf: &[u8]) -> (r: Result<WindowUdf, CodecError>) {
        Err(CodecError::not_implemented("extension codec is not provided for window function"))
    }

    fn try_encode_udwf(&self, node: &WindowUdf) -> Result<Vec<u8>, CodecError> {
        Ok(Vec::new())
    }
}

// ---------------------------------------------------------------------------
// The composed stack
// ---------------------------------------------------------------------------

/// The envelope a composed stack writes: the position of the codec that
/// produced the blob, then the blob itself.  Splits a blob back into the
/// two parts.
pub open spec fn composed_parts(blob: Seq<u8>) -> Option<(u64, Seq<u8>)> {
    match spec_dec_varint(blob, 0) {
        Err(k) => None,
        Ok((pos, j)) => match spec_dec_bytes(blob, j) {
            Err(k) => None,
            Ok((inner, j2)) => if j2 == blob.len() {
                Some((pos, inner))
            } else {
                None
            },
        },
    }
}

/// The position of the first codec of the stack that accepts the node.
pub open spec fn composed_encode_pos<C: PhysicalExtensionCodec>(cs: Seq<C>, p: PlanV) -> int
    decreases cs.len(),
{
    if cs.len() == 0 {
        0
    } else if cs[0].encode_ok(p) {
        0
    } else {
        1 + composed_encode_pos(cs.drop_first(), p)
    }
}

/// Some codec of the stack accepts the node.
pub open spec fn composed_encode_ok<C: PhysicalExtensionCodec>(cs: Seq<C>, p: PlanV) -> bool
    decreases cs.len(),
{
    if cs.len() == 0 {
        false
    } else {
        cs[0].encode_ok(p) || composed_encode_ok(cs.drop_first(), p)
    }
}

/// The envelope the stack writes: the first accepting codec's position and
/// its blob.
pub open spec fn composed_encode_val<C: PhysicalExtensionCodec>(cs: Seq<C>, p: PlanV) -> Seq<u8> {
    let pos = composed_encode_pos(cs, p);
    spec_enc_varint(pos as u64) + spec_enc_bytes(cs[pos].encode_val(p))
}

/// The stack decodes a blob when the envelope parses, the recorded
/// position indexes the stack, and that codec decodes the inner blob.
pub open spec fn composed_decode_ok<C: PhysicalExtensionCodec>(
    cs: Seq<C>,
    blob: Seq<u8>,
    inputs: Seq<PlanV>,
    registry: RegistryV,
) -> bool {
    match composed_parts(blob) {
        None => false,
        Some((pos, inner)) => (pos as int) < cs.len() && cs[pos as int].decode_ok(
            inner,
            inputs,
            registry,
        ),
    }
}

pub open spec fn composed_decode_val<C: PhysicalExtensionCodec>(
    cs: Seq<C>,
    blob: Seq<u8>,
    inputs: Seq<PlanV>,
    registry: RegistryV,
) -> PlanV {
    match composed_parts(blob) {
        None => no_plan(),
        Some((pos, inner)) => if (pos as int) < cs.len() {
            cs[pos as int].decode_val(inner, inputs, registry)
        } else {
            no_plan()
        },
    }
}

pub open spec fn composed_udf_ok<C: PhysicalExtensionCodec>(
    cs: Seq<C>,
    name: Seq<u8>,
    buf: Seq<u8>,
) -> bool {
    match composed_parts(buf) {
        None => false,
        Some((pos, inner)) => (pos as int) < cs.len() && cs[pos as int].udf_ok(name, inner),
    }
}

pub open spec fn composed_udaf_ok<C: PhysicalExtensionCodec>(
    cs: Seq<C>,
    name: Seq<u8>,
    buf: Seq<u8>,
) -> bool {
    match composed_parts(buf) {
        None => false,
        Some((pos, inner)) => (pos as int) < cs.len() && cs[pos as int].udaf_ok(name, inner),
    }
}

/// A stack of extension codecs tried in registration order.  The position
/// of the codec that encoded a blob is recorded in the envelope, so new
/// codecs must be appended, never inserted.
#[derive(Debug)]
pub struct ComposedPhysicalExtensionCodec<C: PhysicalExtensionCodec> {
    pub codecs: Vec<C>,
}

impl<C: PhysicalExtensionCodec> ComposedPhysicalExtensionCodec<C> {
    /// Builds a stack from an ordered codec list.  Position in the list is
    /// a stable identifier used for decoding: a new codec goes last.
    pub fn new(codecs: Vec<C>) -> (r: ComposedPhysicalExtensionCodec<C>)
        ensures
            r.codecs@ == codecs@,
    {
        ComposedPhysicalExtensionCodec { codecs }
    }
}

/// If the first `i` codecs refuse the node and codec `i` accepts it, the
/// stack accepts it and records position `i`.
pub proof fn lemma_composed_pos<C: PhysicalExtensionCodec>(cs: Seq<C>, p: PlanV, i: int)
    requires
        0 <= i < cs.len(),
        forall|m: int| 0 <= m < i ==> !(#[trigger] cs[m]).encode_ok(p),
        cs[i].encode_ok(p),
    ensures
        composed_encode_ok(cs, p),
        composed_encode_pos(cs, p) == i,
    decreases cs.len(),
{
    if i > 0 {
        assert(!cs[0].encode_ok(p));
        assert forall|m: int| 0 <= m < i - 1 implies !(#[trigger] cs.drop_first()[m]).encode_ok(
            p,
        ) by {
            assert(cs.drop_first()[m] == cs[m + 1]);
        }
        assert(cs.drop_first()[i - 1] == cs[i]);
        lemma_composed_pos(cs.drop_first(), p, i - 1);
    }
}

/// If every codec refuses the node, the stack refuses it.
pub proof fn lemma_composed_none<C: PhysicalExtensionCodec>(cs: Seq<C>, p: PlanV)
    requires
        forall|m: int| 0 <= m < cs.len() ==> !(#[trigger] cs[m]).encode_ok(p),
    ensures
        !composed_encode_ok(cs, p),
    decreases cs.len(),
{
    if cs.len() > 0 {
        assert forall|m: int|
            0 <= m < cs.drop_first().len() implies !(#[trigger] cs.drop_first()[m]).encode_ok(
            p,
        ) by {
            assert(cs.drop_first()[m] == cs[m + 1]);
        }
        lemma_composed_none(cs.drop_first(), p);
    }
}

/// Appending a codec to the stack preserves decodability and the decoded
/// value of every blob the shorter stack accepts: recorded positions are
/// stable identifiers.
pub proof fn lemma_codec_stack_append<C: PhysicalExtensionCodec>(
    cs: Seq<C>,
    c: C,
    blob: Seq<u8>,
    inputs: Seq<PlanV>,
    registry: RegistryV,
)
    requires
        composed_decode_ok(cs, blob, inputs, registry),
    ensures
        composed_decode_ok(cs.push(c), blob, inputs, registry),
        composed_decode_val(cs.push(c), blob, inputs, registry) == composed_decode_val(
            cs,
            blob,
            inputs,
            registry,
        ),
{
    let parts = composed_parts(blob);
    let pos = parts->Some_0.0 as int;
    assert(cs.push(c)[pos] == cs[pos]);
}

impl<C: PhysicalExtensionCodec> PhysicalExtensionCodec for ComposedPhysicalExtensionCodec<C> {
    open spec fn encode_ok(&self, plan: PlanV) -> bool {
        composed_encode_ok(self.codecs@, plan)
    }

    open spec fn encode_val(&self, plan: PlanV) -> Seq<u8> {
        composed_encode_val(self.codecs@, plan)
    }

    open spec fn decode_ok(&self, blob: Seq<u8>, inputs: Seq<PlanV>, registry: RegistryV) -> bool {
        composed_decode_ok(self.codecs@, blob, inputs, registry)
    }

    open spec fn decode_val(&self, blob: Seq<u8>, inputs: Seq<PlanV>, registry: RegistryV) -> PlanV {
        composed_decode_val(self.codecs@, blob, inputs, registry)
    }

    open spec fn udf_ok(&self, name: Seq<u8>, buf: Seq<u8>) -> bool {
        composed_udf_ok(self.codecs@, name, buf)
    }

    open spec fn udaf_ok(&self, name: Seq<u8>, buf: Seq<u8>) -> bool {
        composed_udaf_ok(self.codecs@, name, buf)
    }

    open spec fn udwf_ok(&self, name: Seq<u8>, buf: Seq<u8>) -> bool {
        false
    }

    fn try_decode(&self, buf: &[u8], inputs: Vec<Plan>, registry: &FunctionRegistry) -> (r:
        Result<Plan, CodecError>) {
        match crate::wire::dec_varint(buf, 0) {
            Err(e) => Err(CodecError::internal("composed codec envelope is damaged")),
            Ok((pos, j)) => match crate::wire::dec_bytes(buf, j) {
                Err(e) => Err(CodecError::internal("composed codec envelope is damaged")),
                Ok((inner, j2)) => {
                    if j2 != buf.len() {
                        Err(CodecError::internal("composed codec envelope is damaged"))
                    } else if pos < self.codecs.len() as u64 {
                        self.codecs[pos as usize].try_decode(
                            inner.as_slice(),
                            inputs,
                            registry,
                        )
                    } else {
                        Err(CodecError::internal("recorded codec position is out of range"))
                    }
                },
            },
        }
    }

    fn try_encode(&self, node: &Plan) -> (r: Result<Vec<u8>, CodecError>) {
        let mut last_err: Option<CodecError> = None;
        let mut i: usize = 0;
        while i < self.codecs.len()
            invariant
                i <= self.codecs@.len(),
                forall|m: int|
                    0 <= m < i ==> !(#[trigger] self.codecs@[m]).encode_ok(plan_view(*node)),
            decreases self.codecs@.len() - i,
        {
            match self.codecs[i].try_encode(node) {
                Ok(blob) => {
                    proof {
                        lemma_composed_pos(self.codecs@, plan_view(*node), i as int);
                    }
                    let mut out: Vec<u8> = Vec::new();
                    crate::wire::enc_varint(&mut out, i as u64);
                    crate::wire::enc_bytes(&mut out, blob.as_slice());
                    proof {
                        assert(out@ =~= composed_encode_val(self.codecs@, plan_view(*node)));
                    }
                    return Ok(out);
                },
                Err(e) => {
                    last_err = Some(e);
                },
            }
            i = i + 1;
        }
        proof {
            lemma_composed_none(self.codecs@, plan_view(*node));
        }
        match last_err {
            Some(e) => Err(e),
            None => Err(CodecError::not_implemented("empty composed codec")),
        }
    }

    fn try_decode_udf(&self, name: &[u8], buf: &[u8]) -> (r: Result<ScalarUdf, CodecError>) {
        match crate::wire::dec_varint(buf, 0) {
            Err(e) => Err(CodecError::internal("composed codec envelope is damaged")),
            Ok((pos, j)) => match crate::wire::dec_bytes(buf, j) {
                Err(e) => Err(CodecError::internal("composed codec envelope is damaged")),
                Ok((inner, j2)) => {
                    if j2 != buf.len() {
                        Err(CodecError::internal("composed codec envelope is damaged"))
                    } else if pos < self.codecs.len() as u64 {
                        self.codecs[pos as usize].try_decode_udf(name, inner.as_slice())
                    } else {
                        Err(CodecError::internal("recorded codec position is out of range"))
                    }
                },
            },
        }
    }

    fn try_encode_udf(&self, node: &ScalarUdf) -> Result<Vec<u8>, CodecError> {
        let mut last_err: Option<CodecError> = None;
        let mut i: usize = 0;
        while i < self.codecs.len()
            invariant
                i <= self.codecs@.len(),
            decreases self.codecs@.len() - i,
        {
            match self.codecs[i].try_encode_udf(node) {
                Ok(blob) => {
                    let mut out: Vec<u8> = Vec::new();
                    crate::wire::enc_varint(&mut out, i as u64);
                    crate::wire::enc_bytes(&mut out, blob.as_slice());
                    return Ok(out);
                },
                Err(e) => {
                    last_err = Some(e);
                },
            }
            i = i + 1;
        }
        match last_err {
            Some(e) => Err(e),
            None => Err(CodecError::not_implemented("empty composed codec")),
        }
    }

    fn try_decode_udaf(&self, name: &[u8], buf: &[u8]) -> (r: Result<AggregateUdf, CodecError>) {
        match crate::wire::dec_varint(buf, 0) {
            Err(e) => Err(CodecError::internal("composed codec envelope is damaged")),
            Ok((pos, j)) => match crate::wire::dec_bytes(buf, j) {
                Err(e) => Err(CodecError::internal("composed codec envelope is damaged")),
                Ok((inner, j2)) => {
                    if j2 != buf.len() {
                        Err(CodecError::internal("composed codec envelope is damaged"))
                    } else if pos < self.codecs.len() as u64 {
                        self.codecs[pos as usize].try_decode_udaf(name, inner.as_slice())
                    } else {
                        Err(CodecError::internal("recorded codec position is out of range"))
                    }
                },
            },
        }
    }

    fn try_encode_udaf(&self, node: &AggregateUdf) -> Result<Vec<u8>, CodecError> {
        let mut last_err: Option<CodecError> = None;
        let mut i: usize = 0;
        while i < self.codecs.len()
            invariant
                i <= self.codecs@.len(),
            decreases self.codecs@.len() - i,
        {
            match self.codecs[i].try_encode_udaf(node) {
                Ok(blob) => {
                    let mut out: Vec<u8> = Vec::new();
                    crate::wire::enc_varint(&mut out, i as u64);
                    crate::wire::enc_bytes(&mut out, blob.as_slice());
                    return Ok(out);
                },
                Err(e) => {
                    last_err = Some(e);
                },
            }
            i = i + 1;
        }
        match last_err {
            Some(e) => Err(e),
            None => Err(CodecError::not_implemented("empty composed codec")),
        }
    }

    fn try_decode_udwf(&self, name: &[u8], buf: &[u8]) -> (r: Result<WindowUdf, CodecError>) {
        Err(CodecError::not_implemented("extension codec is not provided for window function"))
    }

    fn try_encode_udwf(&self, node: &WindowUdf) -> Result<Vec<u8>, CodecError> {
        Ok(Vec::new())
    }
}

// ---------------------------------------------------------------------------
// A reference extension codec
// ---------------------------------------------------------------------------

/// A codec for opaque extension operators whose payload begins with this
/// codec's marker byte.  It writes the payload as the blob and rebuilds
/// the operator with an empty schema, so an embedder can route different
/// operator families to different stack positions by marker.
#[derive(Debug)]
pub struct MarkedExtensionCodec {
    pub marker: u8,
}

/// The operator this codec rebuilds from a blob and the decoded children.
pub open spec fn marked_decode_val(blob: Seq<u8>, inputs: Seq<PlanV>) -> PlanV {
    PlanV {
        op: OpV::Extension { payload: blob, schema: Seq::empty() },
        children: inputs,
    }
}

impl PhysicalExtensionCodec for MarkedExtensionCodec {
    open spec fn encode_ok(&self, plan: PlanV) -> bool {
        match plan.op {
            OpV::Extension { payload, .. } => payload.len() >= 1 && payload[0] == self.marker,
            _ => false,
        }
    }

    open spec fn encode_val(&self, plan: PlanV) -> Seq<u8> {
        match plan.op {
            OpV::Extension { payload, .. } => payload,
            _ => Seq::empty(),
        }
    }

    open spec fn decode_ok(&self, blob: Seq<u8>, inputs: Seq<PlanV>, registry: RegistryV) -> bool {
        blob.len() >= 1 && blob[0] == self.marker
    }

    open spec fn decode_val(&self, blob: Seq<u8>, inputs: Seq<PlanV>, registry: RegistryV) -> PlanV {
        marked_decode_val(blob, inputs)
    }

    open spec fn udf_ok(&self, name: Seq<u8>, buf: Seq<u8>) -> bool {
        false
    }

    open spec fn udaf_ok(&self, name: Seq<u8>, buf: Seq<u8>) -> bool {
        false
    }

    open spec fn udwf_ok(&self, name: Seq<u8>, buf: Seq<u8>) -> bool {
        false
    }

    fn try_decode(&self, buf: &[u8], inputs: Vec<Plan>, registry: &FunctionRegistry) -> (r:
        Result<Plan, CodecError>) {
        if buf.len() >= 1 && buf[0] == self.marker {
            let mut payload: Vec<u8> = Vec::new();
            let mut k: usize = 0;
            while k < buf.len()
                invariant
                    k <= buf@.len(),
                    payload@ == buf@.subrange(0, k as int),
                decreases buf@.len() - k,
            {
                payload.push(buf[k]);
                assert(payload@ =~= buf@.subrange(0, k + 1 as int));
                k = k + 1;
            }
            proof {
                assert(payload@ =~= buf@);
            }
            let schema = Schema { fields: Vec::new() };
            proof {
                assert(schema.deep_view() =~= Seq::<crate::schema::FieldV>::empty());
            }
            let p = Plan { op: OpKind::Extension { payload, schema }, children: inputs };
            proof {
                assert(plan_view(p).op == (OpV::Extension {
                    payload: buf@,
                    schema: Seq::empty(),
                }));
                assert(plan_view(p) == marked_decode_val(buf@, plans_view(inputs@)));
            }
            Ok(p)
        } else {
            Err(CodecError::not_implemented("blob does not carry this codec's marker"))
        }
    }

    fn try_encode(&self, node: &Plan) -> (r: Result<Vec<u8>, CodecError>) {
        match &node.op {
            OpKind::Extension { payload, .. } => {
                if payload.len() >= 1 && payload[0] == self.marker {
                    let out = crate::schema::copy_bytes(payload);
                    proof {
                        assert(out@ == self.encode_val(plan_view(*node)));
                    }
                    Ok(out)
                } else {
                    Err(CodecError::not_implemented("node does not carry this codec's marker"))
                }
            },
            _ => Err(CodecError::not_implemented("not an extension node")),
        }
    }

    fn try_decode_udf(&self, name: &[u8], buf: &[u8]) -> (r: Result<ScalarUdf, CodecError>) {
        Err(CodecError::not_implemented("extension codec is not provided for scalar function"))
    }

    fn try_encode_udf(&self, node: &ScalarUdf) -> Result<Vec<u8>, CodecError> {
        Ok(Vec::new())
    }

    fn try_decode_udaf(&self, name: &[u8], buf: &[u8]) -> (r: Result<AggregateUdf, CodecError>) {
        Err(CodecError::not_implemented("extension codec is not provided for aggregate function"))
    }

    fn try_encode_udaf(&self, node: &AggregateUdf) -> Result<Vec<u8>, CodecError> {
        Ok(Vec::new())
    }

    fn try_decode_udwf(&self, name: &[u8], buf: &[u8]) -> (r: Result<WindowUdf, CodecError>) {
        Err(CodecError::not_implemented("extension codec is not provided for window function"))
    }

    fn try_encode_udwf(&self, node: &WindowUdf) -> Result<Vec<u8>, CodecError> {
        Ok(Vec::new())
    }
}

} // verus!
