//! The grouping-set matrix travels flattened row-major with implicit
//! width: the row count is recovered from the group-by list's length.

use vstd::prelude::*;
use crate::error::CodecError;

verus! {

broadcast use crate::views::lemma_bools_deep_view, crate::views::lemma_deep_view_len, crate::views::lemma_deep_view_index;

/// The rows laid end to end.
pub open spec fn flatten_rows(g: Seq<Seq<bool>>) -> Seq<bool>
    decreases g.len(),
{
    if g.len() == 0 {
        Seq::empty()
    } else {
        g[0] + flatten_rows(g.drop_first())
    }
}

/// Cuts a flat sequence back into rows of width `w`.
pub open spec fn chunk_rows(flat: Seq<bool>, w: nat) -> Seq<Seq<bool>>
    decreases flat.len(),
{
    if w == 0 || flat.len() == 0 {
        Seq::empty()
    } else if flat.len() < w {
        seq![flat]
    } else {
        seq![flat.take(w as int)] + chunk_rows(flat.skip(w as int), w)
    }
}

pub proof fn lemma_flatten_snoc(g: Seq<Seq<bool>>, row: Seq<bool>)
    ensures
        flatten_rows(g.push(row)) == flatten_rows(g) + row,
    decreases g.len(),
{
    if g.len() == 0 {
        assert(g.push(row)[0] == row);
        assert(g =~= Seq::<Seq<bool>>::empty());
        assert(g.push(row).drop_first() =~= Seq::<Seq<bool>>::empty());
        assert(flatten_rows(Seq::<Seq<bool>>::empty()) =~= Seq::<bool>::empty());
        assert(flatten_rows(g.push(row)) =~= flatten_rows(g) + row);
    } else {
        let l = g.push(row);
        assert(l[0] == g[0]);
        assert(l.drop_first() =~= g.drop_first().push(row));
        lemma_flatten_snoc(g.drop_first(), row);
        assert(flatten_rows(l) == g[0] + flatten_rows(l.drop_first()));
        assert(flatten_rows(l.drop_first()) == flatten_rows(g.drop_first()) + row);
        assert(flatten_rows(g) == g[0] + flatten_rows(g.drop_first()));
        assert(flatten_rows(l) =~= flatten_rows(g) + row);
    }
}

/// Flattening rows of width `w` and cutting them again is the identity.
pub proof fn lemma_groups_rt(g: Seq<Seq<bool>>, w: nat)
    requires
        w > 0,
        forall|r: int| 0 <= r < g.len() ==> (#[trigger] g[r]).len() == w,
    ensures
        flatten_rows(g).len() == g.len() * w,
        flatten_rows(g).len() % (w as nat) == 0,
        chunk_rows(flatten_rows(g), w) == g,
    decreases g.len(),
{
    let flat = flatten_rows(g);
    if g.len() == 0 {
        assert(flat.len() == 0);
        assert(chunk_rows(flat, w) =~= g);
    } else {
        let rest = g.drop_first();
        assert forall|r: int| 0 <= r < rest.len() implies (#[trigger] rest[r]).len() == w by {
            assert(rest[r] == g[r + 1]);
        }
        lemma_groups_rt(rest, w);
        assert(flat == g[0] + flatten_rows(rest));
        assert(flat.len() == w + rest.len() * w);
        assert(w + rest.len() * w == g.len() * w) by (nonlinear_arith)
            requires
                rest.len() == g.len() - 1,
                g.len() >= 1,
        ;
        vstd::arithmetic::div_mod::lemma_mod_multiples_basic(g.len() as int, w as int);
        assert(flat.len() >= w);
        assert(flat.take(w as int) =~= g[0]);
        assert(flat.skip(w as int) =~= flatten_rows(rest));
        assert(chunk_rows(flat, w) == seq![g[0]] + chunk_rows(flatten_rows(rest), w));
        assert(chunk_rows(flat, w) =~= g);
    }
}

/// Lays the rows end to end.
pub fn flatten_groups(g: &Vec<Vec<bool>>) -> (r: Vec<bool>)
    ensures
        r@ == flatten_rows(g.deep_view()),
{
    let mut acc: Vec<bool> = Vec::new();
    let mut k: usize = 0;
    proof {
        assert(g.deep_view().take(0) =~= Seq::<Seq<bool>>::empty());
        assert(acc@ =~= flatten_rows(g.deep_view().take(0)));
    }
    while k < g.len()
        invariant
            k <= g@.len(),
            acc@ == flatten_rows(g.deep_view().take(k as int)),
        decreases g@.len() - k,
    {
        let row = &g[k];
        let mut m: usize = 0;
        let ghost accpre = acc@;
        while m < row.len()
            invariant
                m <= row@.len(),
                acc@ == accpre + row@.subrange(0, m as int),
            decreases row@.len() - m,
        {
            acc.push(row[m]);
            assert(acc@ =~= accpre + row@.subrange(0, m + 1 as int));
            m = m + 1;
        }
        proof {
            assert(acc@ =~= accpre + g.deep_view()[k as int]);
            assert(g.deep_view().take(k as int).push(g.deep_view()[k as int]) =~= g.deep_view()
                .take(k + 1 as int));
            lemma_flatten_snoc(g.deep_view().take(k as int), g.deep_view()[k as int]);
        }
        k = k + 1;
    }
    proof {
        assert(g.deep_view().take(g@.len() as int) =~= g.deep_view());
    }
    acc
}

/// Cuts a flat vector into rows of width `w`; fails when the length does
/// not divide, or when values remain although the width is zero.
pub fn unflatten_groups(flat: &Vec<bool>, w: usize) -> (r: Result<
    Vec<Vec<bool>>,
    CodecError,
>)
    ensures
        match r {
            Ok(rows) => {
                &&& (w == 0 ==> flat@.len() == 0)
                &&& (w > 0 ==> flat@.len() % (w as nat) == 0)
                &&& rows.deep_view() == chunk_rows(flat@, w as nat)
            },
            Err(e) => {
                &&& e.kind == crate::error::ErrorKind::Malformed
                &&& (if w == 0 {
                    flat@.len() != 0
                } else {
                    flat@.len() % (w as nat) != 0
                })
            },
        },
{
    if w == 0 {
        if flat.len() == 0 {
            let rows: Vec<Vec<bool>> = Vec::new();
            proof {
                assert(rows.deep_view() =~= chunk_rows(flat@, 0));
            }
            return Ok(rows);
        } else {
            return Err(CodecError::malformed(
                "grouping sets carried without group expressions",
            ));
        }
    }
    if flat.len() % w != 0 {
        return Err(CodecError::malformed("grouping set matrix does not divide by width"));
    }
    let total: usize = flat.len();
    let n_rows: usize = total / w;
    proof {
        vstd::arithmetic::div_mod::lemma_fundamental_div_mod(total as int, w as int);
        assert(total as int == (w as int) * (n_rows as int) + (total as int) % (w as int));
        assert((n_rows as int) * (w as int) == (w as int) * (n_rows as int)) by (nonlinear_arith);
        assert(total == n_rows * w);
    }
    let mut rows: Vec<Vec<bool>> = Vec::new();
    let mut r: usize = 0;
    let mut p: usize = 0;
    proof {
        assert(rows.deep_view() =~= Seq::<Seq<bool>>::empty());
        assert(flat@.skip(0) =~= flat@);
        assert(Seq::<Seq<bool>>::empty() + chunk_rows(flat@, w as nat) =~= chunk_rows(
            flat@,
            w as nat,
        ));
    }
    while r < n_rows
        invariant
            0 < w,
            r <= n_rows,
            p == r * w,
            total == n_rows * w,
            total == flat@.len(),
            total <= usize::MAX,
            chunk_rows(flat@, w as nat) == rows.deep_view() + chunk_rows(
                flat@.skip(p as int),
                w as nat,
            ),
        decreases n_rows - r,
    {
        proof {
            assert(p + w <= total && (r + 1) * w == p + w) by (nonlinear_arith)
                requires
                    p == r * w,
                    total == n_rows * w,
                    r < n_rows,
                    w > 0,
            ;
        }
        let mut row: Vec<bool> = Vec::new();
        let mut m: usize = 0;
        while m < w
            invariant
                m <= w,
                p + w <= total,
                total == flat@.len(),
                total <= usize::MAX,
                row@ == flat@.subrange(p as int, p + m as int),
            decreases w - m,
        {
            row.push(flat[p + m]);
            assert(row@ =~= flat@.subrange(p as int, p + (m + 1) as int));
            m = m + 1;
        }
        let ghost rowspre = rows;
        let ghost rowx = row;
        rows.push(row);
        proof {
            crate::views::lemma_deep_view_push(rows, rowspre, rowx);
            let tail = flat@.skip(p as int);
            assert(tail.len() >= w);
            assert(chunk_rows(tail, w as nat) == seq![tail.take(w as int)] + chunk_rows(
                tail.skip(w as int),
                w as nat,
            ));
            assert(tail.take(w as int) =~= rowx@);
            assert(tail.skip(w as int) =~= flat@.skip(p + w as int));
            assert forall|rest: Seq<Seq<bool>>|
                rowspre.deep_view() + (seq![rowx@] + rest) =~= rows.deep_view() + rest by {}
        }
        p = p + w;
        r = r + 1;
    }
    proof {
        assert(p == total) by (nonlinear_arith)
            requires
                p == r * w,
                total == n_rows * w,
                r == n_rows,
        ;
        assert(flat@.skip(flat@.len() as int) =~= Seq::<bool>::empty());
        assert(chunk_rows(Seq::<bool>::empty(), w as nat) =~= Seq::<Seq<bool>>::empty());
        assert(rows.deep_view() + Seq::<Seq<bool>>::empty() =~= rows.deep_view());
    }
    Ok(rows)
}

} // verus!
