//! Wire primitives.
//!
//! The wire form is built from four primitives: base-128 variable-length
//! unsigned integers, single-byte booleans, length-prefixed byte strings,
//! and presence-prefixed optionals.  Lists are a count followed by the
//! items.  Every primitive has a spec-level encoder and parser, an
//! executable mirror proved against them, and a lemma showing that parsing
//! an encoding yields the encoded value.

use vstd::prelude::*;
use crate::error::{CodecError, ErrorKind};

verus! {

broadcast use crate::views::lemma_bytes_deep_view;

/// The parse result a spec-level parser hands back: a value and the
/// position just past its encoding, or the kind of failure.
pub type SpecParse<T> = Result<(T, int), ErrorKind>;

/// Relates an executable parse result to its spec-level counterpart:
/// success for success with the deep view of the value and the same
/// position, failure for failure with the same kind.
pub open spec fn parses_to<T: DeepView>(
    r: Result<(T, usize), CodecError>,
    m: SpecParse<T::V>,
) -> bool {
    match r {
        Ok((v, j)) => m == Ok::<(T::V, int), ErrorKind>((v.deep_view(), j as int)),
        Err(e) => m is Err && m->Err_0 == e.kind,
    }
}

/// `part` occurs in `s` starting at position `i`.
pub open spec fn at(s: Seq<u8>, i: int, part: Seq<u8>) -> bool {
    &&& 0 <= i
    &&& i + part.len() <= s.len()
    &&& s.subrange(i, i + part.len() as int) == part
}

/// Splits an occurrence of a concatenation into occurrences of its halves.
pub proof fn lemma_at_split(s: Seq<u8>, i: int, a: Seq<u8>, b: Seq<u8>)
    requires
        at(s, i, a + b),
    ensures
        at(s, i, a),
        at(s, i + a.len(), b),
{
    let ab = a + b;
    assert(s.subrange(i, i + a.len() as int) =~= a);
    assert forall|k: int| 0 <= k < b.len() implies s[i + a.len() + k] == b[k] by {
        assert(ab[a.len() + k] == b[k]);
        assert(s.subrange(i, i + ab.len() as int)[a.len() + k] == s[i + a.len() + k]);
    }
    assert(s.subrange(i + a.len(), i + a.len() + b.len() as int) =~= b);
}

/// An occurrence of a single byte pins the byte at that position.
pub proof fn lemma_at_byte(s: Seq<u8>, i: int, b: u8)
    requires
        at(s, i, seq![b]),
    ensures
        0 <= i < s.len(),
        s[i] == b,
{
    assert(s.subrange(i, i + 1)[0] == s[i]);
}

// ---------------------------------------------------------------------------
// Variable-length unsigned integers
// ---------------------------------------------------------------------------

/// Base-128 encoding, least significant group first; the high bit of each
/// byte marks a continuation.
pub open spec fn spec_enc_varint(v: u64) -> Seq<u8>
    decreases v,
{
    if v < 128 {
        seq![v as u8]
    } else {
        seq![(v % 128 + 128) as u8] + spec_enc_varint(v / 128)
    }
}

pub open spec fn spec_dec_varint(s: Seq<u8>, i: int) -> SpecParse<u64>
    decreases s.len() - i,
{
    if i < 0 || i >= s.len() {
        Err(ErrorKind::Internal)
    } else if s[i] < 128 {
        Ok((s[i] as u64, i + 1))
    } else {
        match spec_dec_varint(s, i + 1) {
            Err(k) => Err(k),
            Ok((rest, j)) => {
                if rest <= (u64::MAX - ((s[i] - 128) as u64)) / 128 {
                    Ok((((s[i] - 128) + 128 * rest) as u64, j))
                } else {
                    Err(ErrorKind::Malformed)
                }
            },
        }
    }
}

/// A varint takes at least one byte.
pub proof fn lemma_varint_len(v: u64)
    ensures
        spec_enc_varint(v).len() >= 1,
{
}

pub proof fn lemma_varint_rt(s: Seq<u8>, i: int, v: u64)
    requires
        at(s, i, spec_enc_varint(v)),
    ensures
        spec_dec_varint(s, i) == Ok::<(u64, int), ErrorKind>((
            v,
            i + spec_enc_varint(v).len(),
        )),
    decreases v,
{
    if v < 128 {
        lemma_at_byte(s, i, v as u8);
    } else {
        let head: u8 = (v % 128 + 128) as u8;
        lemma_at_split(s, i, seq![head], spec_enc_varint(v / 128));
        lemma_at_byte(s, i, head);
        lemma_varint_rt(s, i + 1, v / 128);
        assert(v / 128 <= (u64::MAX - ((head - 128) as u64)) / 128 && (head - 128) + 128 * (
        v / 128) == v) by (nonlinear_arith)
            requires
                head == v % 128 + 128,
                v >= 128,
                v <= u64::MAX,
        ;
    }
}

pub fn enc_varint(out: &mut Vec<u8>, v: u64)
    ensures
        final(out)@ == old(out)@ + spec_enc_varint(v),
    decreases v,
{
    if v < 128 {
        out.push(v as u8);
        assert(out@ =~= old(out)@ + spec_enc_varint(v));
    } else {
        let ghost pre = out@;
        out.push((v % 128 + 128) as u8);
        enc_varint(out, v / 128);
        assert(out@ =~= pre + spec_enc_varint(v));
    }
}

pub fn dec_varint(s: &[u8], i: usize) -> (r: Result<(u64, usize), CodecError>)
    ensures
        parses_to(r, spec_dec_varint(s@, i as int)),
        r is Ok ==> i < r->Ok_0.1 <= s@.len(),
    decreases s@.len() - i,
{
    if i >= s.len() {
        return Err(CodecError::internal("unexpected end of buffer"));
    }
    let b: u8 = s[i];
    if b < 128 {
        Ok((b as u64, i + 1))
    } else {
        match dec_varint(s, i + 1) {
            Err(e) => Err(e),
            Ok((rest, j)) => {
                if rest <= (u64::MAX - ((b - 128) as u64)) / 128 {
                    proof {
                        assert((b - 128) + 128 * rest <= u64::MAX) by (nonlinear_arith)
                            requires
                                rest <= (u64::MAX - ((b - 128) as u64)) / 128,
                                b >= 128,
                        ;
                    }
                    Ok(((b - 128) as u64 + 128 * rest, j))
                } else {
                    Err(CodecError::malformed("integer overflow in varint"))
                }
            },
        }
    }
}

// ---------------------------------------------------------------------------
// Booleans
// ---------------------------------------------------------------------------

pub open spec fn spec_enc_bool(b: bool) -> Seq<u8> {
    if b {
        seq![1u8]
    } else {
        seq![0u8]
    }
}

pub open spec fn spec_dec_bool(s: Seq<u8>, i: int) -> SpecParse<bool> {
    if i < 0 || i >= s.len() {
        Err(ErrorKind::Internal)
    } else if s[i] == 0 {
        Ok((false, i + 1))
    } else if s[i] == 1 {
        Ok((true, i + 1))
    } else {
        Err(ErrorKind::Malformed)
    }
}

pub proof fn lemma_bool_rt(s: Seq<u8>, i: int, b: bool)
    requires
        at(s, i, spec_enc_bool(b)),
    ensures
        spec_dec_bool(s, i) == Ok::<(bool, int), ErrorKind>((b, i + 1)),
{
    lemma_at_byte(s, i, if b { 1u8 } else { 0u8 });
}

pub fn enc_bool(out: &mut Vec<u8>, b: bool)
    ensures
        final(out)@ == old(out)@ + spec_enc_bool(b),
{
    out.push(if b { 1u8 } else { 0u8 });
    assert(out@ =~= old(out)@ + spec_enc_bool(b));
}

pub fn dec_bool(s: &[u8], i: usize) -> (r: Result<(bool, usize), CodecError>)
    ensures
        parses_to(r, spec_dec_bool(s@, i as int)),
        r is Ok ==> i < r->Ok_0.1 <= s@.len(),
{
    if i >= s.len() {
        return Err(CodecError::internal("unexpected end of buffer"));
    }
    let b: u8 = s[i];
    if b == 0 {
        Ok((false, i + 1))
    } else if b == 1 {
        Ok((true, i + 1))
    } else {
        Err(CodecError::malformed("flag byte out of range"))
    }
}

// ---------------------------------------------------------------------------
// Byte strings
// ---------------------------------------------------------------------------

pub open spec fn spec_enc_bytes(b: Seq<u8>) -> Seq<u8> {
    spec_enc_varint(b.len() as u64) + b
}

pub open spec fn spec_dec_bytes(s: Seq<u8>, i: int) -> SpecParse<Seq<u8>> {
    match spec_dec_varint(s, i) {
        Err(k) => Err(k),
        Ok((n, j)) => {
            if n <= s.len() - j {
                Ok((s.subrange(j, j + n as int), j + n as int))
            } else {
                Err(ErrorKind::Internal)
            }
        },
    }
}

pub proof fn lemma_bytes_rt(s: Seq<u8>, i: int, b: Seq<u8>)
    requires
        at(s, i, spec_enc_bytes(b)),
        b.len() <= u64::MAX,
    ensures
        spec_dec_bytes(s, i) == Ok::<(Seq<u8>, int), ErrorKind>((
            b,
            i + spec_enc_bytes(b).len(),
        )),
{
    let n: u64 = b.len() as u64;
    lemma_at_split(s, i, spec_enc_varint(n), b);
    lemma_varint_rt(s, i, n);
    let j = i + spec_enc_varint(n).len();
    assert(s.subrange(j, j + n as int) == b);
}

/// Appends a raw byte slice.
pub fn push_bytes(out: &mut Vec<u8>, b: &[u8])
    ensures
        final(out)@ == old(out)@ + b@,
{
    let mut k: usize = 0;
    while k < b.len()
        invariant
            k <= b@.len(),
            out@ == old(out)@ + b@.subrange(0, k as int),
        decreases b@.len() - k,
    {
        out.push(b[k]);
        assert(out@ =~= old(out)@ + b@.subrange(0, k + 1 as int));
        k = k + 1;
    }
    assert(out@ =~= old(out)@ + b@);
}

pub fn enc_bytes(out: &mut Vec<u8>, b: &[u8])
    ensures
        final(out)@ == old(out)@ + spec_enc_bytes(b@),
{
    let ghost pre = out@;
    enc_varint(out, b.len() as u64);
    push_bytes(out, b);
    assert(out@ =~= pre + spec_enc_bytes(b@));
}

/// Copies `n` bytes starting at `j` into a fresh vector.
pub fn read_bytes(s: &[u8], j: usize, n: usize) -> (v: Vec<u8>)
    requires
        j + n <= s@.len(),
    ensures
        v@ == s@.subrange(j as int, j + n as int),
{
    let total: usize = s.len();
    let mut v: Vec<u8> = Vec::new();
    let mut k: usize = 0;
    while k < n
        invariant
            total == s@.len(),
            k <= n,
            j + n <= s@.len(),
            v@ == s@.subrange(j as int, j + k as int),
        decreases n - k,
    {
        v.push(s[j + k]);
        assert(v@ =~= s@.subrange(j as int, j + (k + 1) as int));
        k = k + 1;
    }
    v
}

/// Reads a byte-string field that must hold exactly one byte, as used for
/// the delimiter-style fields of a character-separated scan.
pub open spec fn spec_enc_single_byte(b: u8) -> Seq<u8> {
    spec_enc_bytes(seq![b])
}

pub open spec fn spec_dec_single_byte(s: Seq<u8>, i: int) -> SpecParse<u8> {
    match spec_dec_bytes(s, i) {
        Err(k) => Err(k),
        Ok((bs, j)) => {
            if bs.len() == 1 {
                Ok((bs[0], j))
            } else {
                Err(ErrorKind::Malformed)
            }
        },
    }
}

pub proof fn lemma_single_byte_rt(s: Seq<u8>, i: int, b: u8)
    requires
        at(s, i, spec_enc_single_byte(b)),
    ensures
        spec_dec_single_byte(s, i) == Ok::<(u8, int), ErrorKind>((
            b,
            i + spec_enc_single_byte(b).len(),
        )),
{
    lemma_bytes_rt(s, i, seq![b]);
}

pub fn enc_single_byte(out: &mut Vec<u8>, b: u8)
    ensures
        final(out)@ == old(out)@ + spec_enc_single_byte(b),
{
    let ghost pre = out@;
    enc_varint(out, 1u64);
    out.push(b);
    assert(out@ =~= pre + spec_enc_single_byte(b));
}

pub fn dec_single_byte(s: &[u8], i: usize) -> (r: Result<(u8, usize), CodecError>)
    ensures
        parses_to(r, spec_dec_single_byte(s@, i as int)),
        r is Ok ==> i < r->Ok_0.1 <= s@.len(),
{
    match dec_bytes(s, i) {
        Err(e) => Err(e),
        Ok((bs, j)) => {
            if bs.len() == 1 {
                Ok((bs[0], j))
            } else {
                Err(CodecError::malformed("expected a single byte"))
            }
        },
    }
}

// ---------------------------------------------------------------------------
// Fetch-style limits: a signed 64-bit slot where all ones means unbounded
// ---------------------------------------------------------------------------

/// An optional row bound.  `None` travels as the two's-complement image of
/// minus one; a bound must fit a signed 64-bit integer.
pub open spec fn spec_enc_fetch(v: Option<u64>) -> Seq<u8> {
    match v {
        None => spec_enc_varint(u64::MAX),
        Some(x) => spec_enc_varint(x),
    }
}

pub open spec fn spec_dec_fetch(s: Seq<u8>, i: int) -> SpecParse<Option<u64>> {
    match spec_dec_varint(s, i) {
        Err(k) => Err(k),
        Ok((raw, j)) => {
            if raw == u64::MAX {
                Ok((None, j))
            } else if raw <= i64::MAX as u64 {
                Ok((Some(raw), j))
            } else {
                Err(ErrorKind::Malformed)
            }
        },
    }
}

pub proof fn lemma_fetch_rt(s: Seq<u8>, i: int, v: Option<u64>)
    requires
        at(s, i, spec_enc_fetch(v)),
        v is Some ==> v->Some_0 <= i64::MAX as u64,
    ensures
        spec_dec_fetch(s, i) == Ok::<(Option<u64>, int), ErrorKind>((
            v,
            i + spec_enc_fetch(v).len(),
        )),
{
    match v {
        None => lemma_varint_rt(s, i, u64::MAX),
        Some(x) => lemma_varint_rt(s, i, x),
    }
}

pub fn enc_fetch(out: &mut Vec<u8>, v: &Option<u64>)
    ensures
        final(out)@ == old(out)@ + spec_enc_fetch(*v),
{
    match v {
        None => enc_varint(out, u64::MAX),
        Some(x) => enc_varint(out, *x),
    }
}

pub fn dec_fetch(s: &[u8], i: usize) -> (r: Result<(Option<u64>, usize), CodecError>)
    ensures
        parses_to(r, spec_dec_fetch(s@, i as int)),
        r is Ok ==> i < r->Ok_0.1 <= s@.len(),
{
    match dec_varint(s, i) {
        Err(e) => Err(e),
        Ok((raw, j)) => {
            if raw == u64::MAX {
                Ok((None, j))
            } else if raw <= i64::MAX as u64 {
                Ok((Some(raw), j))
            } else {
                Err(CodecError::malformed("row bound out of range"))
            }
        },
    }
}

// ---------------------------------------------------------------------------
// Generic optionals and lists at the spec level
// ---------------------------------------------------------------------------

/// A presence byte followed by the payload when present.
pub open spec fn spec_enc_opt<T>(v: Option<T>, fe: spec_fn(T) -> Seq<u8>) -> Seq<u8> {
    match v {
        None => seq![0u8],
        Some(x) => seq![1u8] + fe(x),
    }
}

pub open spec fn spec_dec_opt<T>(
    s: Seq<u8>,
    i: int,
    fd: spec_fn(Seq<u8>, int) -> SpecParse<T>,
) -> SpecParse<Option<T>> {
    match spec_dec_bool(s, i) {
        Err(k) => Err(k),
        Ok((present, j)) => {
            if present {
                match fd(s, j) {
                    Err(k) => Err(k),
                    Ok((v, j2)) => Ok((Some(v), j2)),
                }
            } else {
                Ok((None, j))
            }
        },
    }
}

pub proof fn lemma_opt_rt<T>(
    s: Seq<u8>,
    i: int,
    v: Option<T>,
    fe: spec_fn(T) -> Seq<u8>,
    fd: spec_fn(Seq<u8>, int) -> SpecParse<T>,
)
    requires
        at(s, i, spec_enc_opt(v, fe)),
        match v {
            Some(x) => fd(s, i + 1) == Ok::<(T, int), ErrorKind>((
                x,
                i + 1 + fe(x).len(),
            )),
            None => true,
        },
    ensures
        spec_dec_opt(s, i, fd) == Ok::<(Option<T>, int), ErrorKind>((
            v,
            i + spec_enc_opt(v, fe).len(),
        )),
{
    match v {
        None => {
            lemma_bool_rt(s, i, false);
        },
        Some(x) => {
            lemma_at_split(s, i, seq![1u8], fe(x));
            lemma_bool_rt(s, i, true);
        },
    }
}

/// The concatenated encodings of the items, without the count.
pub open spec fn spec_enc_items<T>(items: Seq<T>, fe: spec_fn(T) -> Seq<u8>) -> Seq<u8>
    decreases items.len(),
{
    if items.len() == 0 {
        Seq::empty()
    } else {
        fe(items[0]) + spec_enc_items(items.drop_first(), fe)
    }
}

/// A count followed by the items.
pub open spec fn spec_enc_list<T>(items: Seq<T>, fe: spec_fn(T) -> Seq<u8>) -> Seq<u8> {
    spec_enc_varint(items.len() as u64) + spec_enc_items(items, fe)
}

pub open spec fn spec_dec_items<T>(
    s: Seq<u8>,
    i: int,
    n: u64,
    fd: spec_fn(Seq<u8>, int) -> SpecParse<T>,
) -> SpecParse<Seq<T>>
    decreases n,
{
    if n == 0 {
        Ok((Seq::empty(), i))
    } else {
        match fd(s, i) {
            Err(k) => Err(k),
            Ok((v, j)) => match spec_dec_items(s, j, (n - 1) as u64, fd) {
                Err(k) => Err(k),
                Ok((rest, j2)) => Ok((seq![v] + rest, j2)),
            },
        }
    }
}

pub open spec fn spec_dec_list<T>(
    s: Seq<u8>,
    i: int,
    fd: spec_fn(Seq<u8>, int) -> SpecParse<T>,
) -> SpecParse<Seq<T>> {
    match spec_dec_varint(s, i) {
        Err(k) => Err(k),
        Ok((n, j)) => spec_dec_items(s, j, n, fd),
    }
}

/// Appending one item appends its encoding.
pub proof fn lemma_enc_items_snoc<T>(items: Seq<T>, x: T, fe: spec_fn(T) -> Seq<u8>)
    ensures
        spec_enc_items(items.push(x), fe) == spec_enc_items(items, fe) + fe(x),
    decreases items.len(),
{
    if items.len() == 0 {
        assert(items.push(x)[0] == x);
        assert(items =~= Seq::<T>::empty());
        assert(items.push(x).drop_first() =~= Seq::<T>::empty());
        assert(spec_enc_items(Seq::<T>::empty(), fe) =~= Seq::<u8>::empty());
        assert(spec_enc_items(items.push(x), fe) =~= spec_enc_items(items, fe) + fe(x));
    } else {
        let l = items.push(x);
        assert(l[0] == items[0]);
        assert(l.drop_first() =~= items.drop_first().push(x));
        lemma_enc_items_snoc(items.drop_first(), x, fe);
        assert(spec_enc_items(l, fe) == fe(items[0]) + spec_enc_items(l.drop_first(), fe));
        assert(spec_enc_items(l.drop_first(), fe) == spec_enc_items(items.drop_first(), fe)
            + fe(x));
        assert(spec_enc_items(items, fe) == fe(items[0]) + spec_enc_items(
            items.drop_first(),
            fe,
        ));
        assert(spec_enc_items(l, fe) =~= spec_enc_items(items, fe) + fe(x));
    }
}

/// The parser reads back the encoder's output for `x` wherever it occurs.
pub open spec fn rt_at<T>(
    s: Seq<u8>,
    fe: spec_fn(T) -> Seq<u8>,
    fd: spec_fn(Seq<u8>, int) -> SpecParse<T>,
    x: T,
    j: int,
) -> bool {
    at(s, j, fe(x)) ==> fd(s, j) == Ok::<(T, int), ErrorKind>((x, j + fe(x).len()))
}

pub proof fn lemma_items_rt<T>(
    s: Seq<u8>,
    i: int,
    items: Seq<T>,
    fe: spec_fn(T) -> Seq<u8>,
    fd: spec_fn(Seq<u8>, int) -> SpecParse<T>,
)
    requires
        at(s, i, spec_enc_items(items, fe)),
        items.len() <= u64::MAX,
        forall|k: int, j: int| 0 <= k < items.len() ==> #[trigger] rt_at(s, fe, fd, items[k], j),
    ensures
        spec_dec_items(s, i, items.len() as u64, fd) == Ok::<(Seq<T>, int), ErrorKind>((
            items,
            i + spec_enc_items(items, fe).len(),
        )),
    decreases items.len(),
{
    if items.len() == 0 {
        assert(items =~= Seq::<T>::empty());
    } else {
        let rest = items.drop_first();
        lemma_at_split(s, i, fe(items[0]), spec_enc_items(rest, fe));
        assert(rt_at(s, fe, fd, items[0], i));
        let j1 = i + fe(items[0]).len() as int;
        assert forall|k: int, j: int| 0 <= k < rest.len() implies #[trigger] rt_at(
            s, fe, fd, rest[k], j,
        ) by {
            assert(rest[k] == items[k + 1]);
            assert(rt_at(s, fe, fd, items[k + 1], j));
        }
        lemma_items_rt(s, j1, rest, fe, fd);
        assert(seq![items[0]] + rest =~= items);
    }
}

pub proof fn lemma_list_rt<T>(
    s: Seq<u8>,
    i: int,
    items: Seq<T>,
    fe: spec_fn(T) -> Seq<u8>,
    fd: spec_fn(Seq<u8>, int) -> SpecParse<T>,
)
    requires
        at(s, i, spec_enc_list(items, fe)),
        items.len() <= u64::MAX,
        forall|k: int, j: int| 0 <= k < items.len() ==> #[trigger] rt_at(s, fe, fd, items[k], j),
    ensures
        spec_dec_list(s, i, fd) == Ok::<(Seq<T>, int), ErrorKind>((
            items,
            i + spec_enc_list(items, fe).len(),
        )),
{
    let n: u64 = items.len() as u64;
    lemma_at_split(s, i, spec_enc_varint(n), spec_enc_items(items, fe));
    lemma_varint_rt(s, i, n);
    lemma_items_rt(s, i + spec_enc_varint(n).len() as int, items, fe, fd);
}

pub fn dec_bytes(s: &[u8], i: usize) -> (r: Result<(Vec<u8>, usize), CodecError>)
    ensures
        parses_to(r, spec_dec_bytes(s@, i as int)),
        r is Ok ==> i < r->Ok_0.1 <= s@.len(),
    decreases s@.len() - i,
{
    match dec_varint(s, i) {
        Err(e) => Err(e),
        Ok((n, j)) => {
            if n <= (s.len() - j) as u64 {
                let v = read_bytes(s, j, n as usize);
                Ok((v, j + n as usize))
            } else {
                Err(CodecError::internal("byte string exceeds buffer"))
            }
        },
    }
}

} // verus!
