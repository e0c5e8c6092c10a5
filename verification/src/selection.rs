//! Selection policy: which lenses of the catalog take part in a run.
//!
//! The selection always begins with every mandatory lens, in catalog order.
//! When more members are requested than there are mandatory lenses, the
//! optional lenses are shuffled uniformly and the first of them fill the
//! remaining places; otherwise the mandatory set alone is returned, even if
//! it exceeds the requested count.

use vstd::prelude::*;
use rand::seq::SliceRandom;
use crate::catalog::{Lens, LensView, lens_views, lens_names};

verus! {

/// The mandatory lenses of a catalog, in catalog order.
pub open spec fn mandatory_of(s: Seq<LensView>) -> Seq<LensView> {
    s.filter(|l: LensView| l.mandatory)
}

/// The optional lenses of a catalog, in catalog order.
pub open spec fn optional_of(s: Seq<LensView>) -> Seq<LensView> {
    s.filter(|l: LensView| !l.mandatory)
}

/// How many lenses a request for `n` members selects from catalog `cat`:
/// never fewer than the mandatory set, never more than the whole catalog.
pub open spec fn selection_len(n: int, cat: Seq<LensView>) -> int {
    let m = mandatory_of(cat).len() as int;
    if n <= m {
        m
    } else if n <= cat.len() {
        n
    } else {
        cat.len() as int
    }
}

/// Every catalog entry is either mandatory or optional, so the two parts
/// together are exactly as long as the catalog.
proof fn lemma_partition_len(s: Seq<LensView>)
    ensures
        mandatory_of(s).len() + optional_of(s).len() == s.len(),
    decreases s.len(),
{
    reveal(Seq::filter);
    if s.len() != 0 {
        lemma_partition_len(s.drop_last());
    }
}

/// A filtered sequence draws its elements from the original, and keeps
/// them free of duplicates if the original was.
proof fn lemma_filter_sub(s: Seq<LensView>, pred: spec_fn(LensView) -> bool)
    ensures
        forall|x: LensView| #[trigger] s.filter(pred).contains(x) ==> s.contains(x),
        s.no_duplicates() ==> s.filter(pred).no_duplicates(),
    decreases s.len(),
{
    reveal(Seq::filter);
    if s.len() != 0 {
        let dl = s.drop_last();
        assert forall|x: LensView| #[trigger] dl.contains(x) implies s.contains(x) by {
            let i = choose|i: int| 0 <= i < dl.len() && dl[i] == x;
            assert(s[i] == x);
        }
        lemma_filter_sub(dl, pred);
        if s.no_duplicates() {
            assert(dl.no_duplicates());
            if pred(s.last()) {
                assert(s.filter(pred) == dl.filter(pred).push(s.last()));
                assert(!dl.contains(s.last()));
                assert(!dl.filter(pred).contains(s.last()));
                assert(s.filter(pred).no_duplicates());
            }
        }
    }
}

/// Relies on `rand::seq::SliceRandom::shuffle` with `rand::thread_rng`:
/// a Fisher-Yates shuffle permutes the slice in place, so the multiset of
/// lenses is unchanged, whatever the drawn permutation.
#[verifier::external_body]
fn shuffle_lenses(v: &mut Vec<Lens>)
    ensures
        final(v)@.len() == old(v)@.len(),
        lens_views(final(v)@).to_multiset() == lens_views(old(v)@).to_multiset(),
{
    let mut rng = rand::thread_rng();
    v.as_mut_slice().shuffle(&mut rng);
}

/// Picks the lenses for a run of `n` members.
///
/// The result always begins with the full mandatory set in catalog order;
/// it never repeats a lens; for `n` at or below the mandatory count it is
/// exactly the mandatory set, deterministically; beyond that, randomly
/// chosen optional lenses fill the remaining places.
pub fn select_constraints(catalog: &Vec<Lens>, n: usize) -> (r: Vec<Lens>)
    ensures
        ({
            let c = lens_views(catalog@);
            let v = lens_views(r@);
            let m = mandatory_of(c).len() as int;
            &&& v.len() == selection_len(n as int, c)
            &&& v.take(m) == mandatory_of(c)
            &&& forall|i: int|
                m <= i < v.len() ==> optional_of(c).contains(#[trigger] v[i]) && !v[i].mandatory
            &&& forall|i: int| 0 <= i < v.len() ==> c.contains(#[trigger] v[i])
            &&& n <= m ==> v == mandatory_of(c)
            &&& lens_names(c).no_duplicates() ==> lens_names(v).no_duplicates()
        }),
{
    broadcast use vstd::seq_lib::group_filter_ensures;
    broadcast use vstd::seq_lib::group_to_multiset_ensures;

    let ghost c = lens_views(catalog@);
    let mut selected: Vec<Lens> = Vec::new();
    let mut optional: Vec<Lens> = Vec::new();
    let mut k: usize = 0;
    while k < catalog.len()
        invariant
            k <= catalog.len(),
            c == lens_views(catalog@),
            lens_views(selected@) == mandatory_of(c.take(k as int)),
            lens_views(optional@) == optional_of(c.take(k as int)),
        decreases catalog.len() - k,
    {
        let l = catalog[k];
        proof {
            reveal(Seq::filter);
            assert(c.take(k + 1).drop_last() =~= c.take(k as int));
            assert(c.take(k + 1).last() == c[k as int]);
            assert(l@ == c[k as int]);
        }
        if l.mandatory {
            selected.push(l);
            proof {
                reveal(Seq::filter);
                assert(mandatory_of(c.take(k + 1)) == mandatory_of(c.take(k as int)).push(
                    c[k as int],
                ));
                assert(optional_of(c.take(k + 1)) == optional_of(c.take(k as int)));
                assert(lens_views(selected@) =~= mandatory_of(c.take(k + 1)));
            }
        } else {
            optional.push(l);
            proof {
                reveal(Seq::filter);
                assert(optional_of(c.take(k + 1)) == optional_of(c.take(k as int)).push(
                    c[k as int],
                ));
                assert(mandatory_of(c.take(k + 1)) == mandatory_of(c.take(k as int)));
                assert(lens_views(optional@) =~= optional_of(c.take(k + 1)));
            }
        }
        k += 1;
    }
    proof {
        assert(c.take(catalog@.len() as int) =~= c);
        lemma_partition_len(c);
    }
    let m = selected.len();
    let ghost opt0 = lens_views(optional@);
    if n > m {
        shuffle_lenses(&mut optional);
        let want = n - m;
        let mut i: usize = 0;
        while i < want && i < optional.len()
            invariant
                i <= want,
                i <= optional.len(),
                selected@.len() == m + i,
                m == mandatory_of(c).len(),
                lens_views(optional@).len() == optional_of(c).len(),
                lens_views(optional@).to_multiset() == optional_of(c).to_multiset(),
                lens_views(selected@) == mandatory_of(c) + lens_views(optional@).take(i as int),
            decreases optional.len() - i,
        {
            let ghost sv = selected@;
            selected.push(optional[i]);
            proof {
                assert(selected@ =~= sv.push(optional@[i as int]));
                assert(lens_views(selected@) =~= lens_views(sv).push(optional@[i as int]@));
                assert(lens_views(optional@).take(i + 1) =~= lens_views(optional@).take(
                    i as int,
                ).push(optional@[i as int]@));
                assert(lens_views(selected@) =~= mandatory_of(c) + lens_views(optional@).take(
                    i + 1,
                ));
            }
            i += 1;
        }
        proof {
            lemma_select_ensures(c, lens_views(optional@), i as int, lens_views(selected@));
            assert(lens_views(selected@).len() == selection_len(n as int, c));
        }
    } else {
        proof {
            assert(lens_views(selected@) =~= mandatory_of(c) + opt0.take(0));
            lemma_select_ensures(c, opt0, 0, lens_views(selected@));
            assert(lens_views(selected@) == mandatory_of(c));
        }
    }
    selected
}

/// Every mandatory lens of the catalog stands in the selection: the
/// selection's prefix is exactly the mandatory part of the catalog, so a
/// catalog entry flagged mandatory is found at some selected place. With
/// the selection's names free of duplicates, it stands there exactly once.
pub proof fn lemma_every_mandatory_lens_selected(c: Seq<LensView>, v: Seq<LensView>)
    requires
        mandatory_of(c).len() <= v.len(),
        v.take(mandatory_of(c).len() as int) == mandatory_of(c),
    ensures
        forall|j: int|
            0 <= j < c.len() && c[j].mandatory ==> exists|k: int|
                0 <= k < v.len() && #[trigger] v[k] == c[j],
{
    broadcast use vstd::seq_lib::group_filter_ensures;

    let mand = mandatory_of(c);
    assert forall|j: int| 0 <= j < c.len() && c[j].mandatory implies exists|k: int|
        0 <= k < v.len() && #[trigger] v[k] == c[j] by {
        assert(mand.contains(c[j]));
        let k = choose|k: int| 0 <= k < mand.len() && mand[k] == c[j];
        assert(v.take(mand.len() as int)[k] == c[j]);
        assert(v[k] == c[j]);
    }
}

/// The shape every selection has: a mandatory prefix from the catalog
/// followed by distinct optional lenses, with no name selected twice when
/// the catalog names are distinct.
proof fn lemma_select_ensures(c: Seq<LensView>, opt: Seq<LensView>, i: int, v: Seq<LensView>)
    requires
        0 <= i <= opt.len(),
        opt.len() == optional_of(c).len(),
        opt.to_multiset() == optional_of(c).to_multiset(),
        v == mandatory_of(c) + opt.take(i),
    ensures
        v.take(mandatory_of(c).len() as int) == mandatory_of(c),
        forall|j: int|
            mandatory_of(c).len() <= j < v.len()
                ==> optional_of(c).contains(#[trigger] v[j]) && !v[j].mandatory,
        forall|j: int| 0 <= j < v.len() ==> c.contains(#[trigger] v[j]),
        lens_names(c).no_duplicates() ==> lens_names(v).no_duplicates(),
{
    broadcast use vstd::seq_lib::group_filter_ensures;
    broadcast use vstd::seq_lib::group_to_multiset_ensures;

    let mand = mandatory_of(c);
    let m = mand.len() as int;
    assert(v.take(m) =~= mand);
    lemma_filter_sub(c, |l: LensView| l.mandatory);
    lemma_filter_sub(c, |l: LensView| !l.mandatory);
    assert forall|j: int| m <= j < v.len()
        implies optional_of(c).contains(#[trigger] v[j]) && !v[j].mandatory by {
        assert(v[j] == opt.take(i)[j - m]);
        assert(opt.contains(v[j]));
        assert(opt.to_multiset().count(v[j]) > 0);
        assert(optional_of(c).contains(v[j]));
        let x = choose|x: int| 0 <= x < optional_of(c).len() && optional_of(c)[x] == v[j];
        assert(!optional_of(c)[x].mandatory);
    }
    assert forall|j: int| 0 <= j < v.len() implies c.contains(#[trigger] v[j]) by {
        if j < m {
            assert(mand.contains(v[j]));
        } else {
            assert(optional_of(c).contains(v[j]));
        }
    }
    if lens_names(c).no_duplicates() {
        // distinct names make the catalog views themselves distinct
        assert(c.no_duplicates()) by {
            assert forall|a: int, b: int| 0 <= a < b < c.len() implies c[a] != c[b] by {
                assert(lens_names(c)[a] == c[a].name);
                assert(lens_names(c)[b] == c[b].name);
            }
        }
        assert(mand.no_duplicates());
        assert(optional_of(c).no_duplicates());
        optional_of(c).lemma_multiset_has_no_duplicates();
        opt.lemma_multiset_has_no_duplicates_conv();
        assert(opt.no_duplicates());
        // the selection's views are pairwise distinct
        assert(v.no_duplicates()) by {
            assert forall|a: int, b: int| 0 <= a < b < v.len() implies v[a] != v[b] by {
                if b < m {
                    assert(v[a] == mand[a] && v[b] == mand[b]);
                } else if a >= m {
                    assert(v[a] == opt.take(i)[a - m] && v[b] == opt.take(i)[b - m]);
                    assert(v[a] == opt[a - m] && v[b] == opt[b - m]);
                } else {
                    // a mandatory lens never equals an optional one
                    assert(mand.contains(v[a]));
                    assert(v[a].mandatory);
                    assert(optional_of(c).contains(v[b]));
                    let x = choose|x: int|
                        0 <= x < optional_of(c).len() && optional_of(c)[x] == v[b];
                    assert(!optional_of(c)[x].mandatory);
                }
            }
        }
        // and with catalog names distinct, so are the selected names
        assert forall|a: int, b: int| 0 <= a < b < lens_names(v).len()
            implies lens_names(v)[a] != lens_names(v)[b] by {
            if v[a].name == v[b].name {
                assert(c.contains(v[a]));
                assert(c.contains(v[b]));
                let pa = choose|p: int| 0 <= p < c.len() && c[p] == v[a];
                let pb = choose|p: int| 0 <= p < c.len() && c[p] == v[b];
                assert(lens_names(c)[pa] == c[pa].name);
                assert(lens_names(c)[pb] == c[pb].name);
                assert(pa == pb);
                assert(v[a] == v[b]);
                assert(false);
            }
            assert(lens_names(v)[a] == v[a].name);
            assert(lens_names(v)[b] == v[b].name);
        }
    }
}

} // verus!
