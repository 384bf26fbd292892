//! Sorted, duplicate-free lists of strings, in `str`'s order (which is
//! byte order on UTF-8, and so code-point order).
use crate::text::str_eq;
use vstd::prelude::*;

verus! {

/// `a` sorts before `b`: the first differing character decides, and a
/// proper prefix comes first.
pub open spec fn text_lt(a: Seq<char>, b: Seq<char>) -> bool
    decreases a.len(),
{
    if a.len() == 0 {
        b.len() > 0
    } else if b.len() == 0 {
        false
    } else if a[0] == b[0] {
        text_lt(a.drop_first(), b.drop_first())
    } else {
        (a[0] as int) < (b[0] as int)
    }
}

/// The texts of a list of strings.
pub open spec fn views(v: Seq<String>) -> Seq<Seq<char>> {
    Seq::new(v.len(), |i: int| v[i]@)
}

/// Every text sorts strictly before the ones after it (so none repeats).
pub open spec fn strictly_sorted(s: Seq<Seq<char>>) -> bool {
    forall|i: int, j: int| 0 <= i < j < s.len() ==> text_lt(#[trigger] s[i], #[trigger] s[j])
}

pub proof fn lemma_text_lt_irreflexive(a: Seq<char>)
    ensures
        !text_lt(a, a),
    decreases a.len(),
{
    if a.len() > 0 {
        lemma_text_lt_irreflexive(a.drop_first());
    }
}

pub proof fn lemma_text_lt_transitive(a: Seq<char>, b: Seq<char>, c: Seq<char>)
    requires
        text_lt(a, b),
        text_lt(b, c),
    ensures
        text_lt(a, c),
    decreases a.len(),
{
    if a.len() > 0 && b.len() > 0 && c.len() > 0 {
        if a[0] == b[0] && b[0] == c[0] {
            lemma_text_lt_transitive(a.drop_first(), b.drop_first(), c.drop_first());
        }
    }
}

pub proof fn lemma_text_lt_total(a: Seq<char>, b: Seq<char>)
    requires
        a != b,
    ensures
        text_lt(a, b) || text_lt(b, a),
    decreases a.len(),
{
    if a.len() > 0 && b.len() > 0 {
        if a[0] == b[0] {
            if a.drop_first() == b.drop_first() {
                assert(a =~= seq![a[0]] + a.drop_first());
                assert(b =~= seq![b[0]] + b.drop_first());
            }
            lemma_text_lt_total(a.drop_first(), b.drop_first());
        } else {
            assert((a[0] as int) != (b[0] as int));
        }
    } else if a.len() == 0 && b.len() == 0 {
        assert(a =~= b);
    }
}

pub proof fn lemma_text_lt_asymmetric(a: Seq<char>, b: Seq<char>)
    requires
        text_lt(a, b),
    ensures
        !text_lt(b, a),
{
    if text_lt(b, a) {
        lemma_text_lt_transitive(a, b, a);
        lemma_text_lt_irreflexive(a);
    }
}

/// What a list holds after a push.
pub proof fn lemma_push_contains<A>(s: Seq<A>, v: A, x: A)
    ensures
        s.push(v).contains(x) <==> (s.contains(x) || x == v),
{
    if s.push(v).contains(x) {
        let k = choose|k: int| 0 <= k < s.push(v).len() && s.push(v)[k] == x;
        if k < s.len() {
            assert(s[k] == x);
        }
    }
    if s.contains(x) {
        let k = choose|k: int| 0 <= k < s.len() && s[k] == x;
        assert(s.push(v)[k] == x);
    }
    if x == v {
        assert(s.push(v)[s.len() as int] == x);
    }
}

/// Whether `a` sorts before `b` (`a < b` on `str`).
pub fn text_less(a: &str, b: &str) -> (r: bool)
    ensures
        r == text_lt(a@, b@),
{
    let la = a.unicode_len();
    let lb = b.unicode_len();
    let mut i: usize = 0;
    assert(a@.skip(0) =~= a@);
    assert(b@.skip(0) =~= b@);
    while i < la && i < lb
        invariant
            la == a@.len(),
            lb == b@.len(),
            i <= la,
            i <= lb,
            text_lt(a@, b@) == text_lt(a@.skip(i as int), b@.skip(i as int)),
        decreases la - i,
    {
        let ca = a.get_char(i);
        let cb = b.get_char(i);
        assert(a@.skip(i as int)[0] == ca);
        assert(b@.skip(i as int)[0] == cb);
        if ca != cb {
            return (ca as u32) < (cb as u32);
        }
        assert(a@.skip(i as int).drop_first() =~= a@.skip(i + 1));
        assert(b@.skip(i as int).drop_first() =~= b@.skip(i + 1));
        i = i + 1;
    }
    i == la && i < lb
}

/// Insert `s` into a strictly sorted list, unless it is already there.
pub fn insert_sorted(v: &mut Vec<String>, s: String)
    requires
        strictly_sorted(views(old(v)@)),
    ensures
        strictly_sorted(views(final(v)@)),
        forall|x: Seq<char>|
            views(final(v)@).contains(x) <==> (views(old(v)@).contains(x) || x == s@),
{
    let ghost old_views = views(v@);
    let mut i: usize = 0;
    while i < v.len() && text_less(v[i].as_str(), s.as_str())
        invariant
            i <= v@.len(),
            old_views == views(v@),
            strictly_sorted(old_views),
            forall|k: int| 0 <= k < i ==> text_lt(#[trigger] old_views[k], s@),
        decreases v@.len() - i,
    {
        i = i + 1;
    }
    if i < v.len() && str_eq(v[i].as_str(), s.as_str()) {
        assert(old_views[i as int] == s@);
        assert forall|x: Seq<char>|
            views(v@).contains(x) <==> (old_views.contains(x) || x == s@) by {
            if x == s@ {
                assert(old_views[i as int] == x);
            }
        }
        return;
    }
    let ghost sv = s@;
    proof {
        if i < old_views.len() {
            assert(!text_lt(old_views[i as int], sv));
            assert(old_views[i as int] != sv);
            lemma_text_lt_total(old_views[i as int], sv);
            assert forall|k: int| i <= k < old_views.len() implies text_lt(
                sv,
                #[trigger] old_views[k],
            ) by {
                if k > i {
                    assert(text_lt(old_views[i as int], old_views[k]));
                    lemma_text_lt_transitive(sv, old_views[i as int], old_views[k]);
                }
            }
        }
    }
    v.insert(i, s);
    let ghost nv = views(v@);
    assert(nv =~= old_views.insert(i as int, sv));
    assert forall|p: int, q: int| 0 <= p < q < nv.len() implies text_lt(
        #[trigger] nv[p],
        #[trigger] nv[q],
    ) by {
        if q < i {
            assert(nv[p] == old_views[p] && nv[q] == old_views[q]);
        } else if q == i {
            assert(nv[p] == old_views[p]);
        } else if p < i {
            assert(nv[p] == old_views[p] && nv[q] == old_views[q - 1]);
            lemma_text_lt_transitive(nv[p], sv, nv[q]);
        } else if p == i {
            assert(nv[q] == old_views[q - 1]);
        } else {
            assert(nv[p] == old_views[p - 1] && nv[q] == old_views[q - 1]);
        }
    }
    assert forall|x: Seq<char>| nv.contains(x) <==> (old_views.contains(x) || x == sv) by {
        if nv.contains(x) {
            let k = choose|k: int| 0 <= k < nv.len() && nv[k] == x;
            if k < i {
                assert(old_views[k] == x);
            } else if k > i {
                assert(old_views[k - 1] == x);
            }
        }
        if old_views.contains(x) {
            let k = choose|k: int| 0 <= k < old_views.len() && old_views[k] == x;
            if k < i {
                assert(nv[k] == x);
            } else {
                assert(nv[k + 1] == x);
            }
        }
        if x == sv {
            assert(nv[i as int] == x);
        }
    }
}

/// The distinct strings of `items`, sorted (`sort` then `dedup`).
pub fn sorted_distinct(items: &Vec<String>) -> (r: Vec<String>)
    ensures
        strictly_sorted(views(r@)),
        forall|x: Seq<char>| views(r@).contains(x) <==> views(items@).contains(x),
{
    let mut r: Vec<String> = Vec::new();
    let mut i: usize = 0;
    while i < items.len()
        invariant
            i <= items@.len(),
            strictly_sorted(views(r@)),
            forall|x: Seq<char>|
                views(r@).contains(x) <==> views(items@).take(i as int).contains(x),
        decreases items@.len() - i,
    {
        let ghost before = views(r@);
        insert_sorted(&mut r, items[i].clone());
        assert forall|x: Seq<char>|
            views(r@).contains(x) <==> views(items@).take(i + 1).contains(x) by {
            let t0 = views(items@).take(i as int);
            let t1 = views(items@).take(i + 1);
            assert(t1 =~= t0.push(items@[i as int]@));
            if t0.contains(x) {
                let k = choose|k: int| 0 <= k < t0.len() && t0[k] == x;
                assert(t1[k] == x);
            }
            if x == items@[i as int]@ {
                assert(t1[i as int] == x);
            }
            if t1.contains(x) {
                let k = choose|k: int| 0 <= k < t1.len() && t1[k] == x;
                if k < i {
                    assert(t0[k] == x);
                }
            }
        }
        i = i + 1;
    }
    assert(views(items@).take(items@.len() as int) =~= views(items@));
    r
}

/// The position of `s` in `v`, which holds it.
pub fn position_of(v: &Vec<String>, s: &str) -> (i: usize)
    requires
        views(v@).contains(s@),
    ensures
        i < v@.len(),
        v@[i as int]@ == s@,
{
    let mut i: usize = 0;
    while i < v.len()
        invariant
            i <= v@.len(),
            views(v@).contains(s@),
            forall|k: int| 0 <= k < i ==> v@[k]@ != s@,
        decreases v@.len() - i,
    {
        if str_eq(v[i].as_str(), s) {
            return i;
        }
        i = i + 1;
    }
    proof {
        let k = choose|k: int| 0 <= k < views(v@).len() && views(v@)[k] == s@;
        assert(v@[k]@ == s@);
    }
    0
}

} // verus!
