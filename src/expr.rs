use vstd::prelude::*;

use crate::error::{Error, Result};
use crate::model::Var;

verus! {

/// The variables of `b`, in order of first appearance, that `known` does not
/// hold: what merging `b` into `known` appends.
pub open spec fn fresh_vars(known: Seq<Var>, b: Seq<Var>) -> Seq<Var>
    decreases b.len(),
{
    if b.len() == 0 {
        Seq::empty()
    } else {
        let rest = fresh_vars(known, b.drop_last());
        if known.contains(b.last()) || rest.contains(b.last()) {
            rest
        } else {
            rest.push(b.last())
        }
    }
}

proof fn lemma_fresh_vars(known: Seq<Var>, b: Seq<Var>)
    ensures
        fresh_vars(known, b).len() <= b.len(),
        forall|k: int|
            0 <= k < fresh_vars(known, b).len() ==> b.contains(#[trigger] fresh_vars(known, b)[k])
                && !known.contains(fresh_vars(known, b)[k]),
    decreases b.len(),
{
    if b.len() > 0 {
        lemma_fresh_vars(known, b.drop_last());
        let rest = fresh_vars(known, b.drop_last());
        assert forall|k: int| 0 <= k < fresh_vars(known, b).len() implies b.contains(
            #[trigger] fresh_vars(known, b)[k],
        ) && !known.contains(fresh_vars(known, b)[k]) by {
            if k < rest.len() {
                let x = rest[k];
                assert(b.drop_last().contains(x));
                let w = choose|w: int| 0 <= w < b.drop_last().len() && b.drop_last()[w] == x;
                assert(b[w] == x);
            } else {
                assert(b[b.len() - 1] == b.last());
            }
        }
    }
}

/// The coefficients that the terms `(bv, bc)` give the variable `v`, in
/// order.
pub open spec fn coeffs_for<C>(v: Var, bv: Seq<Var>, bc: Seq<C>) -> Seq<C>
    decreases bv.len(),
{
    if bv.len() == 0 || bc.len() == 0 {
        Seq::empty()
    } else {
        let rest = coeffs_for(v, bv.drop_last(), bc.drop_last());
        if bv.last() == v {
            rest.push(bc.last())
        } else {
            rest
        }
    }
}

/// `p` is a chain of partial sums of `cs` onto `init` under `plus`: it
/// starts at `init`, and each next entry is what `plus` gave for the entry
/// before it and the next value of `cs`.
pub open spec fn partial_sums<C, F: Fn(C, C) -> C>(plus: F, init: C, cs: Seq<C>, p: Seq<C>) -> bool {
    &&& p.len() == cs.len() + 1
    &&& p[0] == init
    &&& forall|i: int| 0 <= i < cs.len() ==> plus.ensures((p[i], cs[i]), #[trigger] p[i + 1])
}

/// `r` is what adding the values `cs` one by one, from left to right, onto
/// `init` with `plus` can give.
pub open spec fn sums_to<C, F: Fn(C, C) -> C>(plus: F, init: C, cs: Seq<C>, r: C) -> bool {
    exists|p: Seq<C>| #[trigger] partial_sums(plus, init, cs, p) && p.last() == r
}

/// `r` is what adding the values of `cs` after the first onto the first, one
/// by one with `plus`, can give; `cs` is not empty.
pub open spec fn sums_from_first<C, F: Fn(C, C) -> C>(plus: F, cs: Seq<C>, r: C) -> bool {
    cs.len() > 0 && sums_to(plus, cs[0], cs.drop_first(), r)
}

/// `(rv, rc)` is what merging the terms `(bv, bc)`, one by one, into the
/// terms `(av, ac)` gives: the variables of `av` in their order, then the new
/// variables of `bv` in order of first appearance. A variable of `av` has
/// the coefficients that `bv` gives it added onto its own; a new variable
/// has its first coefficient in `bv` with the later ones added on.
pub open spec fn merged<C, F: Fn(C, C) -> C>(
    av: Seq<Var>,
    ac: Seq<C>,
    bv: Seq<Var>,
    bc: Seq<C>,
    rv: Seq<Var>,
    rc: Seq<C>,
    plus: F,
) -> bool {
    &&& rv == av + fresh_vars(av, bv)
    &&& rc.len() == rv.len()
    &&& rv.no_duplicates()
    &&& forall|i: int|
        0 <= i < av.len() ==> sums_to(plus, ac[i], coeffs_for(av[i], bv, bc), #[trigger] rc[i])
    &&& forall|k: int|
        av.len() <= k < rv.len() ==> sums_from_first(plus, coeffs_for(rv[k], bv, bc), #[trigger] rc[k])
}

/// The coefficients of a merge of terms `(bv, bc)` that name each variable
/// once: a shared variable has its two coefficients combined by `plus`, and
/// every other coefficient is carried over from the side that held it.
pub open spec fn merged_distinct<C, F: Fn(C, C) -> C>(
    av: Seq<Var>,
    ac: Seq<C>,
    bv: Seq<Var>,
    bc: Seq<C>,
    rv: Seq<Var>,
    rc: Seq<C>,
    plus: F,
) -> bool {
    &&& forall|i: int, j: int|
        #![trigger av[i], bv[j]]
        0 <= i < av.len() && 0 <= j < bv.len() && av[i] == bv[j] ==> plus.ensures(
            (ac[i], bc[j]),
            rc[i],
        )
    &&& forall|i: int| 0 <= i < av.len() && !bv.contains(av[i]) ==> #[trigger] rc[i] == ac[i]
    &&& forall|k: int, j: int|
        #![trigger rv[k], bv[j]]
        av.len() <= k < rv.len() && 0 <= j < bv.len() && rv[k] == bv[j] ==> rc[k] == bc[j]
}

proof fn lemma_coeffs_for_absent<C>(v: Var, b: Seq<Var>, c: Seq<C>)
    requires
        !b.contains(v),
    ensures
        coeffs_for(v, b, c) == Seq::<C>::empty(),
    decreases b.len(),
{
    if b.len() > 0 && c.len() > 0 {
        assert(!b.drop_last().contains(v)) by {
            if b.drop_last().contains(v) {
                let w = choose|w: int| 0 <= w < b.drop_last().len() && b.drop_last()[w] == v;
                assert(b[w] == v);
            }
        }
        lemma_coeffs_for_absent(v, b.drop_last(), c.drop_last());
        assert(b[b.len() - 1] == b.last());
    }
}

proof fn lemma_coeffs_for_distinct<C>(b: Seq<Var>, c: Seq<C>, j: int)
    requires
        b.no_duplicates(),
        b.len() == c.len(),
        0 <= j < b.len(),
    ensures
        coeffs_for(b[j], b, c) == seq![c[j]],
    decreases b.len(),
{
    let d = b.drop_last();
    if j == b.len() - 1 {
        assert(!d.contains(b[j])) by {
            if d.contains(b[j]) {
                let w = choose|w: int| 0 <= w < d.len() && d[w] == b[j];
                assert(b[w] == b[j]);
            }
        }
        lemma_coeffs_for_absent(b[j], d, c.drop_last());
        assert(Seq::<C>::empty().push(c[j]) =~= seq![c[j]]);
    } else {
        assert(b.last() != b[j]) by {
            assert(b[b.len() - 1] != b[j]);
        }
        assert(d.no_duplicates()) by {
            assert forall|x: int, y: int| 0 <= x < d.len() && 0 <= y < d.len() && x != y implies d[x]
                != d[y] by {
                assert(b[x] != b[y]);
            }
        }
        lemma_coeffs_for_distinct(d, c.drop_last(), j);
        assert(d[j] == b[j]);
    }
}

proof fn lemma_fresh_vars_complete(known: Seq<Var>, b: Seq<Var>, x: Var)
    requires
        b.contains(x),
        !known.contains(x),
    ensures
        fresh_vars(known, b).contains(x),
    decreases b.len(),
{
    let d = b.drop_last();
    let rest = fresh_vars(known, d);
    let w = choose|w: int| 0 <= w < b.len() && b[w] == x;
    if w < b.len() - 1 {
        assert(d[w] == x);
        lemma_fresh_vars_complete(known, d, x);
        let u = choose|u: int| 0 <= u < rest.len() && rest[u] == x;
        if !(known.contains(b.last()) || rest.contains(b.last())) {
            assert(rest.push(b.last())[u] == x);
        }
    } else {
        assert(b.last() == x);
        if !rest.contains(x) {
            assert(rest.push(b.last())[rest.len() as int] == x);
        }
    }
}

proof fn lemma_sums_to_empty<C, F: Fn(C, C) -> C>(plus: F, init: C, r: C)
    ensures
        sums_to(plus, init, Seq::<C>::empty(), r) <==> r == init,
{
    if r == init {
        assert(partial_sums(plus, init, Seq::<C>::empty(), seq![init]));
    }
    if sums_to(plus, init, Seq::<C>::empty(), r) {
        let p = choose|p: Seq<C>| #[trigger] partial_sums(plus, init, Seq::<C>::empty(), p) && p.last() == r;
        assert(p.last() == p[0]);
    }
}

proof fn lemma_sums_to_push<C, F: Fn(C, C) -> C>(plus: F, init: C, cs: Seq<C>, mid: C, c: C, r: C)
    requires
        sums_to(plus, init, cs, mid),
        plus.ensures((mid, c), r),
    ensures
        sums_to(plus, init, cs.push(c), r),
{
    let p = choose|p: Seq<C>| #[trigger] partial_sums(plus, init, cs, p) && p.last() == mid;
    let q = p.push(r);
    assert forall|i: int| 0 <= i < cs.push(c).len() implies plus.ensures(
        (q[i], cs.push(c)[i]),
        #[trigger] q[i + 1],
    ) by {
        if i < cs.len() {
            assert(q[i] == p[i] && q[i + 1] == p[i + 1] && cs.push(c)[i] == cs[i]);
        } else {
            assert(q[i] == p.last());
        }
    }
    assert(partial_sums(plus, init, cs.push(c), q));
}

proof fn lemma_sums_to_one<C, F: Fn(C, C) -> C>(plus: F, init: C, c: C, r: C)
    requires
        sums_to(plus, init, seq![c], r),
    ensures
        plus.ensures((init, c), r),
{
    let p = choose|p: Seq<C>| #[trigger] partial_sums(plus, init, seq![c], p) && p.last() == r;
    assert(plus.ensures((p[0], seq![c][0]), p[0int + 1]));
}

/// Where the merged terms name each variable once, the merge combines the
/// two coefficients of a shared variable and carries every other one over.
pub proof fn lemma_merged_distinct<C, F: Fn(C, C) -> C>(
    av: Seq<Var>,
    ac: Seq<C>,
    bv: Seq<Var>,
    bc: Seq<C>,
    rv: Seq<Var>,
    rc: Seq<C>,
    plus: F,
)
    requires
        merged(av, ac, bv, bc, rv, rc, plus),
        av.len() == ac.len(),
        bv.no_duplicates(),
        bv.len() == bc.len(),
    ensures
        merged_distinct(av, ac, bv, bc, rv, rc, plus),
{
    assert forall|i: int, j: int|
        #![trigger av[i], bv[j]]
        0 <= i < av.len() && 0 <= j < bv.len() && av[i] == bv[j] implies plus.ensures(
        (ac[i], bc[j]),
        rc[i],
    ) by {
        lemma_coeffs_for_distinct(bv, bc, j);
        assert(sums_to(plus, ac[i], coeffs_for(av[i], bv, bc), rc[i]));
        lemma_sums_to_one(plus, ac[i], bc[j], rc[i]);
    }
    assert forall|i: int| 0 <= i < av.len() && !bv.contains(av[i]) implies #[trigger] rc[i]
        == ac[i] by {
        lemma_coeffs_for_absent(av[i], bv, bc);
    }
    assert forall|k: int, j: int|
        #![trigger rv[k], bv[j]]
        av.len() <= k < rv.len() && 0 <= j < bv.len() && rv[k] == bv[j] implies rc[k] == bc[j] by {
        lemma_coeffs_for_distinct(bv, bc, j);
        let cs = coeffs_for(rv[k], bv, bc);
        assert(cs.drop_first() =~= Seq::<C>::empty());
        assert(sums_from_first(plus, cs, rc[k]));
        lemma_sums_to_empty(plus, cs[0], rc[k]);
    }
}

proof fn lemma_fresh_vars_disjoint(known: Seq<Var>, b: Seq<Var>)
    requires
        b.no_duplicates(),
        forall|k: int| 0 <= k < b.len() ==> !known.contains(#[trigger] b[k]),
    ensures
        fresh_vars(known, b) == b,
    decreases b.len(),
{
    if b.len() > 0 {
        let d = b.drop_last();
        assert forall|k: int| 0 <= k < d.len() implies !known.contains(#[trigger] d[k]) by {
            assert(d[k] == b[k]);
        }
        lemma_fresh_vars_disjoint(known, d);
        assert(!known.contains(b[b.len() - 1]));
        assert(!d.contains(b.last())) by {
            if d.contains(b.last()) {
                let w = choose|w: int| 0 <= w < d.len() && d[w] == b.last();
                assert(b[w] == b[b.len() - 1]);
            }
        }
        assert(d.push(b.last()) =~= b);
    }
}

/// The expression with no terms is neutral for merging: merging terms that
/// name each variable once into no terms gives those terms, and merging no
/// terms into any terms leaves them as they are.
pub proof fn lemma_merge_identity<C, F: Fn(C, C) -> C>(
    av: Seq<Var>,
    ac: Seq<C>,
    bv: Seq<Var>,
    bc: Seq<C>,
    rv: Seq<Var>,
    rc: Seq<C>,
    plus: F,
)
    requires
        merged(av, ac, bv, bc, rv, rc, plus),
        av.len() == ac.len(),
        bv.len() == bc.len(),
        bv.no_duplicates(),
        av.len() == 0 || bv.len() == 0,
    ensures
        av.len() == 0 ==> rv == bv && rc == bc,
        bv.len() == 0 ==> rv == av && rc == ac,
{
    lemma_merged_distinct(av, ac, bv, bc, rv, rc, plus);
    if av.len() == 0 {
        lemma_fresh_vars_disjoint(av, bv);
        assert(rv =~= bv);
        assert forall|k: int| 0 <= k < rc.len() implies rc[k] == bc[k] by {
            assert(rv[k] == bv[k]);
        }
        assert(rc =~= bc);
    }
    if bv.len() == 0 {
        assert(fresh_vars(av, bv) == Seq::<Var>::empty());
        assert(rv =~= av);
        assert forall|i: int| 0 <= i < rc.len() implies rc[i] == ac[i] by {
            assert(!bv.contains(av[i]));
        }
        assert(rc =~= ac);
    }
}

/// Adds one term into parallel vectors of distinct variables and their
/// coefficients: a variable already present has its coefficient summed in
/// place, a new one is appended.
fn merge_term<C: Copy, F: Fn(C, C) -> C>(
    vars: &mut Vec<Var>,
    coeffs: &mut Vec<C>,
    var: Var,
    coeff: C,
    plus: &F,
)
    requires
        old(vars)@.len() == old(coeffs)@.len(),
        old(vars)@.no_duplicates(),
        forall|x: C, y: C| plus.requires((x, y)),
    ensures
        final(vars)@.len() == final(coeffs)@.len(),
        final(vars)@.no_duplicates(),
        old(vars)@.contains(var) ==> final(vars)@ == old(vars)@ && (forall|i: int|
            0 <= i < old(vars)@.len() ==> if old(vars)@[i] == var {
                plus.ensures((old(coeffs)@[i], coeff), #[trigger] final(coeffs)@[i])
            } else {
                final(coeffs)@[i] == old(coeffs)@[i]
            }),
        !old(vars)@.contains(var) ==> final(vars)@ == old(vars)@.push(var) && final(coeffs)@
            == old(coeffs)@.push(coeff),
{
    let mut i: usize = 0;
    while i < vars.len()
        invariant
            0 <= i <= vars@.len(),
            vars@ == old(vars)@,
            coeffs@ == old(coeffs)@,
            vars@.len() == coeffs@.len(),
            vars@.no_duplicates(),
            forall|x: C, y: C| plus.requires((x, y)),
            forall|k: int| 0 <= k < i ==> vars@[k] != var,
        decreases vars@.len() - i,
    {
        if vars[i] == var {
            let merged = plus(coeffs[i], coeff);
            coeffs.set(i, merged);
            assert forall|k: int|
                0 <= k < old(vars)@.len() && old(vars)@[k] == var implies k == i by {
                if k != i {
                    assert(old(vars)@[k] == old(vars)@[i as int]);
                }
            }
            return;
        }
        i = i + 1;
    }
    vars.push(var);
    coeffs.push(coeff);
    assert(!old(vars)@.contains(var)) by {
        if old(vars)@.contains(var) {
            let w = choose|w: int| 0 <= w < old(vars)@.len() && old(vars)@[w] == var;
            assert(vars@[w] == var);
        }
    }
    assert(vars@.no_duplicates()) by {
        assert forall|a: int, b: int|
            0 <= a < vars@.len() && 0 <= b < vars@.len() && a != b implies vars@[a]
            != vars@[b] by {
            if a < old(vars)@.len() && b < old(vars)@.len() {
                assert(old(vars)@[a] != old(vars)@[b]);
            } else if a < old(vars)@.len() {
                assert(old(vars)@.contains(vars@[a]));
            } else {
                assert(old(vars)@.contains(vars@[b]));
            }
        }
    }
}

proof fn lemma_concat_contains(a: Seq<Var>, b: Seq<Var>, x: Var)
    ensures
        (a + b).contains(x) <==> a.contains(x) || b.contains(x),
{
    if (a + b).contains(x) {
        let w = choose|w: int| 0 <= w < (a + b).len() && (a + b)[w] == x;
        if w >= a.len() {
            assert(b[w - a.len()] == x);
        }
    }
    if a.contains(x) {
        let w = choose|w: int| 0 <= w < a.len() && a[w] == x;
        assert((a + b)[w] == x);
    }
    if b.contains(x) {
        let w = choose|w: int| 0 <= w < b.len() && b[w] == x;
        assert((a + b)[a.len() + w] == x);
    }
}

/// Merges every term of `(bv, bc)`, in order, into the parallel vectors
/// `(vars, coeffs)`.
fn merge_terms<C: Copy, F: Fn(C, C) -> C>(
    vars: &mut Vec<Var>,
    coeffs: &mut Vec<C>,
    bv: &[Var],
    bc: &[C],
    plus: &F,
)
    requires
        old(vars)@.len() == old(coeffs)@.len(),
        old(vars)@.no_duplicates(),
        bv@.len() == bc@.len(),
        forall|x: C, y: C| plus.requires((x, y)),
    ensures
        merged(old(vars)@, old(coeffs)@, bv@, bc@, final(vars)@, final(coeffs)@, *plus),
{
    let ghost av = vars@;
    let ghost ac = coeffs@;
    proof {
        assert forall|i: int| 0 <= i < av.len() implies sums_to(
            *plus,
            ac[i],
            coeffs_for(av[i], bv@.take(0), bc@.take(0)),
            #[trigger] coeffs@[i],
        ) by {
            assert(coeffs_for(av[i], bv@.take(0), bc@.take(0)) =~= Seq::<C>::empty());
            lemma_sums_to_empty(*plus, ac[i], ac[i]);
        }
        assert(fresh_vars(av, bv@.take(0)) =~= Seq::<Var>::empty());
        assert(vars@ =~= av + fresh_vars(av, bv@.take(0)));
    }
    let mut j: usize = 0;
    while j < bv.len()
        invariant
            0 <= j <= bv@.len(),
            bv@.len() == bc@.len(),
            av == old(vars)@,
            ac == old(coeffs)@,
            av.len() == ac.len(),
            forall|x: C, y: C| plus.requires((x, y)),
            vars@ == av + fresh_vars(av, bv@.take(j as int)),
            vars@.len() == coeffs@.len(),
            vars@.no_duplicates(),
            forall|i: int|
                0 <= i < av.len() ==> sums_to(
                    *plus,
                    ac[i],
                    coeffs_for(av[i], bv@.take(j as int), bc@.take(j as int)),
                    #[trigger] coeffs@[i],
                ),
            forall|k: int|
                av.len() <= k < vars@.len() ==> sums_from_first(
                    *plus,
                    coeffs_for(vars@[k], bv@.take(j as int), bc@.take(j as int)),
                    #[trigger] coeffs@[k],
                ),
        decreases bv@.len() - j,
    {
        let v = bv[j];
        let c = bc[j];
        let ghost sv = vars@;
        let ghost sc = coeffs@;
        let ghost fresh = fresh_vars(av, bv@.take(j as int));
        proof {
            assert(bv@.take(j + 1).drop_last() =~= bv@.take(j as int));
            assert(bv@.take(j + 1).last() == v);
            lemma_concat_contains(av, fresh, v);
            lemma_fresh_vars(av, bv@.take(j as int));
        }
        merge_term(vars, coeffs, v, c, plus);
        proof {
            let tb = bv@.take(j as int);
            let tc = bc@.take(j as int);
            let tb1 = bv@.take(j + 1);
            let tc1 = bc@.take(j + 1);
            assert(tb1.drop_last() =~= tb);
            assert(tc1.drop_last() =~= tc);
            assert(tb1.last() == v);
            assert(tc1.last() == c);
            assert(forall|u: Var|
                #[trigger] coeffs_for(u, tb1, tc1) == if u == v {
                    coeffs_for(u, tb, tc).push(c)
                } else {
                    coeffs_for(u, tb, tc)
                });
            if sv.contains(v) {
                assert(vars@ =~= av + fresh_vars(av, tb1));
                assert forall|i: int| 0 <= i < av.len() implies sums_to(
                    *plus,
                    ac[i],
                    coeffs_for(av[i], tb1, tc1),
                    #[trigger] coeffs@[i],
                ) by {
                    assert(sv[i] == av[i]);
                    assert(sums_to(*plus, ac[i], coeffs_for(av[i], tb, tc), sc[i]));
                    if av[i] == v {
                        lemma_sums_to_push(*plus, ac[i], coeffs_for(v, tb, tc), sc[i], c, coeffs@[i]);
                    }
                }
                assert forall|k: int| av.len() <= k < vars@.len() implies sums_from_first(
                    *plus,
                    coeffs_for(vars@[k], tb1, tc1),
                    #[trigger] coeffs@[k],
                ) by {
                    assert(sv[k] == vars@[k]);
                    let cs = coeffs_for(sv[k], tb, tc);
                    assert(sums_from_first(*plus, cs, sc[k]));
                    if vars@[k] == v {
                        assert(cs.push(c)[0] == cs[0]);
                        assert(cs.push(c).drop_first() =~= cs.drop_first().push(c));
                        lemma_sums_to_push(*plus, cs[0], cs.drop_first(), sc[k], c, coeffs@[k]);
                    }
                }
            } else {
                assert(vars@ =~= av + fresh_vars(av, tb1));
                assert(!av.contains(v));
                assert(!fresh.contains(v));
                assert(!tb.contains(v)) by {
                    if tb.contains(v) {
                        lemma_fresh_vars_complete(av, tb, v);
                    }
                }
                lemma_coeffs_for_absent(v, tb, tc);
                assert forall|i: int| 0 <= i < av.len() implies sums_to(
                    *plus,
                    ac[i],
                    coeffs_for(av[i], tb1, tc1),
                    #[trigger] coeffs@[i],
                ) by {
                    assert(sv[i] == av[i]);
                    assert(av[i] != v);
                    assert(sums_to(*plus, ac[i], coeffs_for(av[i], tb, tc), sc[i]));
                }
                assert forall|k: int| av.len() <= k < vars@.len() implies sums_from_first(
                    *plus,
                    coeffs_for(vars@[k], tb1, tc1),
                    #[trigger] coeffs@[k],
                ) by {
                    if k < sv.len() {
                        assert(sv[k] == vars@[k]);
                        assert(sv.contains(sv[k]));
                        let cs = coeffs_for(sv[k], tb, tc);
                        assert(sums_from_first(*plus, cs, sc[k]));
                    } else {
                        let cs = Seq::<C>::empty().push(c);
                        assert(cs.drop_first() =~= Seq::<C>::empty());
                        lemma_sums_to_empty(*plus, c, c);
                    }
                }
            }
        }
        j = j + 1;
    }
    proof {
        assert(bv@.take(bv@.len() as int) =~= bv@);
        assert(bc@.take(bc@.len() as int) =~= bc@);
    }
}

/// Applies `f` to each coefficient.
fn map_coeffs<C: Copy, G: Fn(C) -> C>(coeffs: &mut Vec<C>, f: &G)
    requires
        forall|x: C| f.requires((x,)),
    ensures
        final(coeffs)@.len() == old(coeffs)@.len(),
        forall|i: int|
            0 <= i < old(coeffs)@.len() ==> f.ensures((old(coeffs)@[i],), #[trigger] final(coeffs)@[i]),
{
    let mut i: usize = 0;
    while i < coeffs.len()
        invariant
            0 <= i <= coeffs@.len(),
            coeffs@.len() == old(coeffs)@.len(),
            forall|x: C| f.requires((x,)),
            forall|k: int| i <= k < coeffs@.len() ==> #[trigger] coeffs@[k] == old(coeffs)@[k],
            forall|k: int| 0 <= k < i ==> f.ensures((old(coeffs)@[k],), #[trigger] coeffs@[k]),
        decreases coeffs@.len() - i,
    {
        let c = f(coeffs[i]);
        coeffs.set(i, c);
        i = i + 1;
    }
}

/// Applies `f` to each coefficient, with `k` as its second argument.
fn map_coeffs_with<C: Copy, F: Fn(C, C) -> C>(coeffs: &mut Vec<C>, k: C, f: &F)
    requires
        forall|x: C, y: C| f.requires((x, y)),
    ensures
        final(coeffs)@.len() == old(coeffs)@.len(),
        forall|i: int|
            0 <= i < old(coeffs)@.len() ==> f.ensures((old(coeffs)@[i], k), #[trigger] final(coeffs)@[i]),
{
    let mut i: usize = 0;
    while i < coeffs.len()
        invariant
            0 <= i <= coeffs@.len(),
            coeffs@.len() == old(coeffs)@.len(),
            forall|x: C, y: C| f.requires((x, y)),
            forall|j: int| i <= j < coeffs@.len() ==> #[trigger] coeffs@[j] == old(coeffs)@[j],
            forall|j: int| 0 <= j < i ==> f.ensures((old(coeffs)@[j], k), #[trigger] coeffs@[j]),
        decreases coeffs@.len() - i,
    {
        let c = f(coeffs[i], k);
        coeffs.set(i, c);
        i = i + 1;
    }
}

/// A linear expression: a sum of coefficient-times-variable terms plus a
/// constant offset, with at most one term per variable.
///
/// The expression is generic over its coefficient type; the arithmetic on
/// coefficients is handed in by the caller of each operation. A term whose
/// coefficient sums to zero is kept as an explicit zero entry.
pub struct LinExpr<C> {
    vars: Vec<Var>,
    coeffs: Vec<C>,
    offset: C,
}

impl<C> LinExpr<C> {
    #[verifier::type_invariant]
    spec fn inv(&self) -> bool {
        &&& self.vars@.len() == self.coeffs@.len()
        &&& self.vars@.no_duplicates()
    }
}

impl<C: Copy> LinExpr<C> {
    /// The variables of the terms, in order.
    pub closed spec fn spec_vars(&self) -> Seq<Var> {
        self.vars@
    }

    /// The coefficients of the terms, parallel to `spec_vars`.
    pub closed spec fn spec_coeffs(&self) -> Seq<C> {
        self.coeffs@
    }

    /// The constant offset.
    pub closed spec fn spec_offset(&self) -> C {
        self.offset
    }

    /// The expression with no terms and offset `zero`.
    pub fn new(zero: C) -> (r: Self)
        ensures
            r.spec_vars() == Seq::<Var>::empty(),
            r.spec_coeffs() == Seq::<C>::empty(),
            r.spec_offset() == zero,
    {
        LinExpr { vars: Vec::new(), coeffs: Vec::new(), offset: zero }
    }

    /// Adds the term `coeff * var`: summed into the term of `var` where there
    /// is one, appended otherwise.
    pub fn add_term<F: Fn(C, C) -> C>(self, coeff: C, var: Var, plus: F) -> (r: Self)
        requires
            forall|x: C, y: C| plus.requires((x, y)),
        ensures
            merged(
                self.spec_vars(),
                self.spec_coeffs(),
                seq![var],
                seq![coeff],
                r.spec_vars(),
                r.spec_coeffs(),
                plus,
            ),
            merged_distinct(
                self.spec_vars(),
                self.spec_coeffs(),
                seq![var],
                seq![coeff],
                r.spec_vars(),
                r.spec_coeffs(),
                plus,
            ),
            r.spec_offset() == self.spec_offset(),
    {
        proof {
            use_type_invariant(&self);
        }
        let LinExpr { mut vars, mut coeffs, offset } = self;
        let vs: Vec<Var> = vec![var];
        let cs: Vec<C> = vec![coeff];
        assert(vs@ =~= seq![var]);
        assert(cs@ =~= seq![coeff]);
        let ghost av = vars@;
        let ghost ac = coeffs@;
        merge_terms(&mut vars, &mut coeffs, vs.as_slice(), cs.as_slice(), &plus);
        proof {
            lemma_merged_distinct(av, ac, seq![var], seq![coeff], vars@, coeffs@, plus);
        }
        LinExpr { vars, coeffs, offset }
    }

    /// Adds the terms `coeffs[i] * vars[i]` in order, each as `add_term`
    /// does. Fails with `DimensionMismatch`, and adds nothing, when the two
    /// slices differ in length.
    pub fn add_terms<F: Fn(C, C) -> C>(self, coeffs: &[C], vars: &[Var], plus: F) -> (r: Result<
        Self,
    >)
        requires
            forall|x: C, y: C| plus.requires((x, y)),
        ensures
            r is Err <==> coeffs@.len() != vars@.len(),
            r is Err ==> r == Err::<Self, Error>(Error::DimensionMismatch),
            r matches Ok(e) ==> merged(
                self.spec_vars(),
                self.spec_coeffs(),
                vars@,
                coeffs@,
                e.spec_vars(),
                e.spec_coeffs(),
                plus,
            ) && e.spec_offset() == self.spec_offset(),
    {
        if coeffs.len() != vars.len() {
            return Err(Error::DimensionMismatch);
        }
        proof {
            use_type_invariant(&self);
        }
        let LinExpr { vars: mut vs, coeffs: mut cs, offset } = self;
        merge_terms(&mut vs, &mut cs, vars, coeffs, &plus);
        Ok(LinExpr { vars: vs, coeffs: cs, offset })
    }

    /// Adds `constant` to the offset.
    pub fn add_constant<F: Fn(C, C) -> C>(self, constant: C, plus: F) -> (r: Self)
        requires
            forall|x: C, y: C| plus.requires((x, y)),
        ensures
            r.spec_vars() == self.spec_vars(),
            r.spec_coeffs() == self.spec_coeffs(),
            plus.ensures((self.spec_offset(), constant), r.spec_offset()),
    {
        proof {
            use_type_invariant(&self);
        }
        let LinExpr { vars, coeffs, offset } = self;
        let offset = plus(offset, constant);
        LinExpr { vars, coeffs, offset }
    }

    /// Adds `other` into this expression: the coefficients of shared
    /// variables are summed in place, the other terms of `other` are
    /// appended in their order, and the offsets are summed.
    pub fn combine<F: Fn(C, C) -> C>(self, other: Self, plus: F) -> (r: Self)
        requires
            forall|x: C, y: C| plus.requires((x, y)),
        ensures
            merged(
                self.spec_vars(),
                self.spec_coeffs(),
                other.spec_vars(),
                other.spec_coeffs(),
                r.spec_vars(),
                r.spec_coeffs(),
                plus,
            ),
            merged_distinct(
                self.spec_vars(),
                self.spec_coeffs(),
                other.spec_vars(),
                other.spec_coeffs(),
                r.spec_vars(),
                r.spec_coeffs(),
                plus,
            ),
            other.spec_vars().no_duplicates(),
            plus.ensures((self.spec_offset(), other.spec_offset()), r.spec_offset()),
    {
        proof {
            use_type_invariant(&self);
            use_type_invariant(&other);
        }
        let LinExpr { mut vars, mut coeffs, offset } = self;
        let ghost av = vars@;
        let ghost ac = coeffs@;
        merge_terms(&mut vars, &mut coeffs, other.vars.as_slice(), other.coeffs.as_slice(), &plus);
        proof {
            lemma_merged_distinct(av, ac, other.vars@, other.coeffs@, vars@, coeffs@, plus);
        }
        let offset = plus(offset, other.offset);
        LinExpr { vars, coeffs, offset }
    }

    /// Applies `negate` to every coefficient and to the offset.
    pub fn negate<G: Fn(C) -> C>(self, negate: G) -> (r: Self)
        requires
            forall|x: C| negate.requires((x,)),
        ensures
            r.spec_vars() == self.spec_vars(),
            r.spec_coeffs().len() == self.spec_coeffs().len(),
            forall|i: int|
                0 <= i < self.spec_coeffs().len() ==> negate.ensures(
                    (self.spec_coeffs()[i],),
                    #[trigger] r.spec_coeffs()[i],
                ),
            negate.ensures((self.spec_offset(),), r.spec_offset()),
    {
        proof {
            use_type_invariant(&self);
        }
        let LinExpr { vars, mut coeffs, offset } = self;
        map_coeffs(&mut coeffs, &negate);
        let offset = negate(offset);
        LinExpr { vars, coeffs, offset }
    }

    /// Multiplies every coefficient and the offset by `factor`.
    pub fn scale<F: Fn(C, C) -> C>(self, factor: C, times: F) -> (r: Self)
        requires
            forall|x: C, y: C| times.requires((x, y)),
        ensures
            r.spec_vars() == self.spec_vars(),
            r.spec_coeffs().len() == self.spec_coeffs().len(),
            forall|i: int|
                0 <= i < self.spec_coeffs().len() ==> times.ensures(
                    (self.spec_coeffs()[i], factor),
                    #[trigger] r.spec_coeffs()[i],
                ),
            times.ensures((self.spec_offset(), factor), r.spec_offset()),
    {
        proof {
            use_type_invariant(&self);
        }
        let LinExpr { vars, mut coeffs, offset } = self;
        map_coeffs_with(&mut coeffs, factor, &times);
        let offset = times(offset, factor);
        LinExpr { vars, coeffs, offset }
    }

    /// Divides every coefficient and the offset by `divisor`. A zero divisor
    /// is handed to `over` like any other: the result is whatever `over`
    /// gives for it (for IEEE floating point, infinities or NaN).
    pub fn divide<F: Fn(C, C) -> C>(self, divisor: C, over: F) -> (r: Self)
        requires
            forall|x: C, y: C| over.requires((x, y)),
        ensures
            r.spec_vars() == self.spec_vars(),
            r.spec_coeffs().len() == self.spec_coeffs().len(),
            forall|i: int|
                0 <= i < self.spec_coeffs().len() ==> over.ensures(
                    (self.spec_coeffs()[i], divisor),
                    #[trigger] r.spec_coeffs()[i],
                ),
            over.ensures((self.spec_offset(), divisor), r.spec_offset()),
    {
        proof {
            use_type_invariant(&self);
        }
        let LinExpr { vars, mut coeffs, offset } = self;
        map_coeffs_with(&mut coeffs, divisor, &over);
        let offset = over(offset, divisor);
        LinExpr { vars, coeffs, offset }
    }

    /// The variables of the terms, in order.
    pub fn vars(&self) -> (r: &[Var])
        ensures
            r@ == self.spec_vars(),
    {
        self.vars.as_slice()
    }

    /// The coefficients of the terms, parallel to `vars`.
    pub fn coeffs(&self) -> (r: &[C])
        ensures
            r@ == self.spec_coeffs(),
    {
        self.coeffs.as_slice()
    }

    /// The constant offset.
    pub fn offset(&self) -> (r: C)
        ensures
            r == self.spec_offset(),
    {
        self.offset
    }

    /// Splits the expression into the column indices of its variables, their
    /// coefficients, and the offset: the shape the native layer takes.
    pub fn into_parts(self) -> (r: (Vec<i32>, Vec<C>, C))
        ensures
            r.0@.len() == self.spec_vars().len(),
            forall|i: int| 0 <= i < r.0@.len() ==> #[trigger] r.0@[i] == self.spec_vars()[i].0,
            r.1@ == self.spec_coeffs(),
            r.2 == self.spec_offset(),
    {
        let LinExpr { vars, coeffs, offset } = self;
        let mut indices: Vec<i32> = Vec::new();
        let mut i: usize = 0;
        while i < vars.len()
            invariant
                0 <= i <= vars@.len(),
                indices@.len() == i,
                forall|k: int| 0 <= k < i ==> #[trigger] indices@[k] == vars@[k].0,
            decreases vars@.len() - i,
        {
            indices.push(vars[i].0);
            i = i + 1;
        }
        (indices, coeffs, offset)
    }
}

} // verus!
