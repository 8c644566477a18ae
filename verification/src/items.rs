//! The wire-item abstraction: every component type of the vocabulary
//! encodes itself, parses itself, and proves that parsing reads its
//! encoding back.  Lists and optionals of any such type then come from
//! one generic construction.

use vstd::prelude::*;
use crate::error::{CodecError, ErrorKind};
use crate::wire::{at, dec_varint, enc_varint, lemma_at_split, lemma_enc_items_snoc, lemma_list_rt, lemma_opt_rt, lemma_varint_rt, parses_to, rt_at, spec_dec_bool, spec_dec_items, spec_dec_list, spec_dec_opt, spec_dec_varint, spec_enc_bool, spec_enc_items, spec_enc_list, spec_enc_opt, spec_enc_varint, SpecParse};

verus! {

broadcast use crate::views::lemma_deep_view_len, crate::views::lemma_deep_view_index, crate::views::lemma_bytes_deep_view;

/// A type with a wire form: a spec encoder and parser over its
/// mathematical image, executable mirrors, and the proof that the parser
/// reads the encoder's output back.
pub trait WireItem: DeepView + Sized {
    /// The encoding of a value's image.
    spec fn spec_enc(v: Self::V) -> Seq<u8>;

    /// The spec-level parser.
    spec fn spec_dec(s: Seq<u8>, i: int) -> SpecParse<Self::V>;

    /// Machine bounds under which the encoding is faithful: every length
    /// that travels as a 64-bit count must fit one.  Every value built
    /// from executable vectors satisfies it.
    spec fn fits(v: Self::V) -> bool;

    /// Appends the encoding of `self`.
    fn enc(&self, out: &mut Vec<u8>)
        ensures
            final(out)@ == old(out)@ + Self::spec_enc(self.deep_view()),
    ;

    /// Parses one value, returning it with the position just past it.
    fn dec(s: &[u8], i: usize) -> (r: Result<(Self, usize), CodecError>)
        ensures
            parses_to(r, Self::spec_dec(s@, i as int)),
            r is Ok ==> i < r->Ok_0.1 <= s@.len(),
    ;

    /// Parsing an occurrence of an encoding yields the encoded value.
    proof fn rt(s: Seq<u8>, i: int, v: Self::V)
        requires
            at(s, i, Self::spec_enc(v)),
            Self::fits(v),
        ensures
            Self::spec_dec(s, i) == Ok::<(Self::V, int), ErrorKind>((
                v,
                i + Self::spec_enc(v).len(),
            )),
    ;
}

// ---------------------------------------------------------------------------
// Lists of wire items
// ---------------------------------------------------------------------------

/// A count followed by the items.
pub open spec fn list_enc<T: WireItem>(items: Seq<T::V>) -> Seq<u8> {
    spec_enc_list(items, |v: T::V| T::spec_enc(v))
}

pub open spec fn list_dec<T: WireItem>(s: Seq<u8>, i: int) -> SpecParse<Seq<T::V>> {
    spec_dec_list(s, i, |s2: Seq<u8>, j: int| T::spec_dec(s2, j))
}

pub open spec fn list_fits<T: WireItem>(items: Seq<T::V>) -> bool {
    items.len() <= u64::MAX && forall|k: int|
        0 <= k < items.len() ==> T::fits(#[trigger] items[k])
}

pub proof fn list_rt<T: WireItem>(s: Seq<u8>, i: int, items: Seq<T::V>)
    requires
        at(s, i, list_enc::<T>(items)),
        list_fits::<T>(items),
    ensures
        list_dec::<T>(s, i) == Ok::<(Seq<T::V>, int), ErrorKind>((
            items,
            i + list_enc::<T>(items).len(),
        )),
{
    let fe = |v: T::V| T::spec_enc(v);
    let fd = |s2: Seq<u8>, j: int| T::spec_dec(s2, j);
    assert forall|k: int, j: int| 0 <= k < items.len() implies #[trigger] rt_at(
        s,
        fe,
        fd,
        items[k],
        j,
    ) by {
        if at(s, j, fe(items[k])) {
            T::rt(s, j, items[k]);
        }
    }
    lemma_list_rt(s, i, items, fe, fd);
}

/// Appends the encoding of every item, after the count.
pub fn enc_list_of<T: WireItem>(out: &mut Vec<u8>, items: &Vec<T>)
    ensures
        final(out)@ == old(out)@ + list_enc::<T>(items.deep_view()),
{
    let ghost fe = |v: T::V| T::spec_enc(v);
    enc_varint(out, items.len() as u64);
    let ghost base = out@;
    let mut k: usize = 0;
    while k < items.len()
        invariant
            k <= items@.len(),
            out@ == base + spec_enc_items(items.deep_view().take(k as int), fe),
            base == old(out)@ + spec_enc_varint(items@.len() as u64),
            fe == (|v: T::V| T::spec_enc(v)),
        decreases items@.len() - k,
    {
        proof {
            assert(items.deep_view().take(k as int).push(items.deep_view()[k as int])
                =~= items.deep_view().take(k + 1 as int));
            lemma_enc_items_snoc(items.deep_view().take(k as int), items.deep_view()[k as int], fe);
        }
        items[k].enc(out);
        proof {
            assert(out@ =~= base + spec_enc_items(items.deep_view().take(k + 1 as int), fe));
        }
        k = k + 1;
    }
    proof {
        assert(items.deep_view().take(items@.len() as int) =~= items.deep_view());
        assert(out@ =~= old(out)@ + list_enc::<T>(items.deep_view()));
    }
}

/// What remains of a list parse: the already-taken prefix plus the
/// continuation from the current position must give the whole parse.
pub open spec fn items_continue<T: WireItem>(
    s: Seq<u8>,
    start: int,
    n: u64,
    acc: Seq<T::V>,
    cur: int,
    rem: u64,
) -> bool {
    spec_dec_items(s, start, n, |s2: Seq<u8>, j: int| T::spec_dec(s2, j)) == (
    match spec_dec_items(s, cur, rem, |s2: Seq<u8>, j: int| T::spec_dec(s2, j)) {
        Ok((rest, j)) => Ok::<(Seq<T::V>, int), ErrorKind>((acc + rest, j)),
        Err(k) => Err(k),
    })
}

/// Parses a counted list.
pub fn dec_list_of<T: WireItem>(s: &[u8], i: usize) -> (r: Result<(Vec<T>, usize), CodecError>)
    ensures
        ({
            let m = list_dec::<T>(s@, i as int);
            match r {
                Ok((v, j)) => m == Ok::<(Seq<T::V>, int), ErrorKind>((
                    v.deep_view(),
                    j as int,
                )),
                Err(e) => m is Err && m->Err_0 == e.kind,
            }
        }),
        r is Ok ==> i < r->Ok_0.1 <= s@.len(),
{
    let ghost fd = |s2: Seq<u8>, j: int| T::spec_dec(s2, j);
    let (n, start) = match dec_varint(s, i) {
        Ok(p) => p,
        Err(e) => {
            return Err(e);
        },
    };
    let mut acc: Vec<T> = Vec::new();
    let mut cur: usize = start;
    let mut k: u64 = 0;
    proof {
        assert(acc.deep_view() =~= Seq::<T::V>::empty());
        assert(Seq::<T::V>::empty() + Seq::<T::V>::empty() =~= Seq::<T::V>::empty());
    }
    while k < n
        invariant
            i < start <= cur <= s@.len(),
            k <= n,
            spec_dec_varint(s@, i as int) == Ok::<(u64, int), ErrorKind>((n, start as int)),
            items_continue::<T>(s@, start as int, n, acc.deep_view(), cur as int, (n - k) as u64),
            fd == (|s2: Seq<u8>, j: int| T::spec_dec(s2, j)),
        decreases n - k,
    {
        proof {
            // unfold one step of the remaining parse
            assert(spec_dec_items(s@, cur as int, (n - k) as u64, fd) == (
            match fd(s@, cur as int) {
                Ok((v, j)) => match spec_dec_items(s@, j, (n - k - 1) as u64, fd) {
                    Ok((rest, j2)) => Ok::<(Seq<T::V>, int), ErrorKind>((
                        seq![v] + rest,
                        j2,
                    )),
                    Err(e2) => Err(e2),
                },
                Err(e2) => Err(e2),
            }));
        }
        match T::dec(s, cur) {
            Ok((v, j)) => {
                let ghost pre = acc;
                let ghost vx = v;
                acc.push(v);
                proof {
                    crate::views::lemma_deep_view_push(acc, pre, vx);
                    assert forall|rest: Seq<T::V>|
                        pre.deep_view() + (seq![vx.deep_view()] + rest) =~= acc.deep_view()
                            + rest by {}
                }
                cur = j;
            },
            Err(e) => {
                return Err(e);
            },
        }
        k = k + 1;
    }
    proof {
        assert(spec_dec_items(s@, cur as int, 0u64, fd) == Ok::<(Seq<T::V>, int), ErrorKind>(
            (Seq::<T::V>::empty(), cur as int),
        ));
        assert(acc.deep_view() + Seq::<T::V>::empty() =~= acc.deep_view());
    }
    Ok((acc, cur))
}

// ---------------------------------------------------------------------------
// Optionals of wire items
// ---------------------------------------------------------------------------

pub open spec fn opt_enc<T: WireItem>(v: Option<T::V>) -> Seq<u8> {
    spec_enc_opt(v, |x: T::V| T::spec_enc(x))
}

pub open spec fn opt_dec<T: WireItem>(s: Seq<u8>, i: int) -> SpecParse<Option<T::V>> {
    spec_dec_opt(s, i, |s2: Seq<u8>, j: int| T::spec_dec(s2, j))
}

pub open spec fn opt_fits<T: WireItem>(v: Option<T::V>) -> bool {
    v is Some ==> T::fits(v->Some_0)
}

pub proof fn opt_rt<T: WireItem>(s: Seq<u8>, i: int, v: Option<T::V>)
    requires
        at(s, i, opt_enc::<T>(v)),
        opt_fits::<T>(v),
    ensures
        opt_dec::<T>(s, i) == Ok::<(Option<T::V>, int), ErrorKind>((
            v,
            i + opt_enc::<T>(v).len(),
        )),
{
    let fe = |x: T::V| T::spec_enc(x);
    let fd = |s2: Seq<u8>, j: int| T::spec_dec(s2, j);
    match v {
        Some(x) => {
            lemma_at_split(s, i, seq![1u8], fe(x));
            T::rt(s, i + 1, x);
        },
        None => {},
    }
    lemma_opt_rt(s, i, v, fe, fd);
}

pub fn enc_opt_of<T: WireItem>(out: &mut Vec<u8>, v: &Option<T>)
    ensures
        final(out)@ == old(out)@ + opt_enc::<T>(v.deep_view()),
{
    match v {
        None => {
            out.push(0u8);
            assert(out@ =~= old(out)@ + opt_enc::<T>(v.deep_view()));
        },
        Some(x) => {
            let ghost pre = out@;
            out.push(1u8);
            x.enc(out);
            assert(out@ =~= pre + opt_enc::<T>(v.deep_view()));
        },
    }
}

pub fn dec_opt_of<T: WireItem>(s: &[u8], i: usize) -> (r: Result<(Option<T>, usize), CodecError>)
    ensures
        ({
            let m = opt_dec::<T>(s@, i as int);
            match r {
                Ok((v, j)) => m == Ok::<(Option<T::V>, int), ErrorKind>((
                    v.deep_view(),
                    j as int,
                )),
                Err(e) => m is Err && m->Err_0 == e.kind,
            }
        }),
        r is Ok ==> i < r->Ok_0.1 <= s@.len(),
{
    match crate::wire::dec_bool(s, i) {
        Err(e) => Err(e),
        Ok((present, j)) => {
            if present {
                match T::dec(s, j) {
                    Err(e) => Err(e),
                    Ok((v, j2)) => Ok((Some(v), j2)),
                }
            } else {
                Ok((None, j))
            }
        },
    }
}

} // verus!
