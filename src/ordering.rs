//! Deterministic order of table keys: every emission loop walks keys sorted.
use vstd::prelude::*;
use vstd::relations::{sorted_by, total_ordering};
use crate::text::{text_lt, text_less, lemma_text_lt_irreflexive, lemma_text_lt_transitive,
    lemma_text_lt_total, lemma_text_lt_asymmetric};

verus! {

pub open spec fn strictly_sorted(q: Seq<Seq<char>>) -> bool {
    forall|i: int, j: int| 0 <= i < j < q.len() ==> text_lt(#[trigger] q[i], #[trigger] q[j])
}

/// `q` lists the names of `s` in increasing order, each once.
pub open spec fn lists_sorted(q: Seq<Seq<char>>, s: Set<Seq<char>>) -> bool {
    strictly_sorted(q) && q.to_set() == s
}

/// The names of `s` in increasing order.
pub open spec fn sorted_names(s: Set<Seq<char>>) -> Seq<Seq<char>> {
    choose|q: Seq<Seq<char>>| lists_sorted(q, s)
}

/// The keys of a table of exec entries, in the order held.
pub open spec fn entry_keys<V>(es: Seq<(String, V)>) -> Seq<Seq<char>> {
    es.map_values(|e: (String, V)| e.0@)
}

/// A set has at most one increasing listing.
pub proof fn lemma_sorted_listing_unique(q1: Seq<Seq<char>>, q2: Seq<Seq<char>>, s: Set<Seq<char>>)
    requires
        lists_sorted(q1, s),
        lists_sorted(q2, s),
    ensures
        q1 == q2,
    decreases q1.len(),
{
    if q1.len() == 0 {
        if q2.len() > 0 {
            assert(q2.to_set().contains(q2[0]));
        }
        assert(q1 =~= q2);
    } else {
        assert(q1.to_set().contains(q1[0]));
        assert(q2.to_set().contains(q1[0]));
        let a = q1[0];
        let b = q2[0];
        assert(q2.to_set().contains(b));
        assert(q1.to_set().contains(b));
        if a != b {
            let j = choose|j: int| 0 <= j < q2.len() && q2[j] == a;
            let i = choose|i: int| 0 <= i < q1.len() && q1[i] == b;
            assert(j > 0 && i > 0);
            assert(text_lt(q2[0], q2[j]));
            assert(text_lt(q1[0], q1[i]));
            lemma_text_lt_asymmetric(a, b);
        }
        let t1 = q1.drop_first();
        let t2 = q2.drop_first();
        let s2 = s.remove(a);
        assert forall|k: Seq<char>| #[trigger] t1.to_set().contains(k) == s2.contains(k) by {
            if t1.contains(k) {
                let i = choose|i: int| 0 <= i < t1.len() && t1[i] == k;
                assert(q1[i + 1] == k);
                assert(text_lt(q1[0], q1[i + 1]));
                lemma_text_lt_irreflexive(a);
                assert(q1.to_set().contains(k));
            }
            if s2.contains(k) {
                assert(q1.to_set().contains(k));
                let i = choose|i: int| 0 <= i < q1.len() && q1[i] == k;
                assert(i > 0);
                assert(t1[i - 1] == k);
            }
        }
        assert forall|k: Seq<char>| #[trigger] t2.to_set().contains(k) == s2.contains(k) by {
            if t2.contains(k) {
                let i = choose|i: int| 0 <= i < t2.len() && t2[i] == k;
                assert(q2[i + 1] == k);
                assert(text_lt(q2[0], q2[i + 1]));
                lemma_text_lt_irreflexive(a);
                assert(q2.to_set().contains(k));
            }
            if s2.contains(k) {
                assert(q2.to_set().contains(k));
                let i = choose|i: int| 0 <= i < q2.len() && q2[i] == k;
                assert(i > 0);
                assert(t2[i - 1] == k);
            }
        }
        assert(t1.to_set() =~= s2);
        assert(t2.to_set() =~= s2);
        assert forall|i: int, j: int| 0 <= i < j < t1.len() implies text_lt(
            #[trigger] t1[i],
            #[trigger] t1[j],
        ) by {
            assert(t1[i] == q1[i + 1] && t1[j] == q1[j + 1]);
        }
        assert forall|i: int, j: int| 0 <= i < j < t2.len() implies text_lt(
            #[trigger] t2[i],
            #[trigger] t2[j],
        ) by {
            assert(t2[i] == q2[i + 1] && t2[j] == q2[j + 1]);
        }
        lemma_sorted_listing_unique(t1, t2, s2);
        assert(q1 =~= seq![a] + t1);
        assert(q2 =~= seq![b] + t2);
    }
}

/// A sorted listing is the one that `sorted_names` picks.
pub proof fn lemma_sorted_names(q: Seq<Seq<char>>, s: Set<Seq<char>>)
    requires
        lists_sorted(q, s),
    ensures
        sorted_names(s) == q,
{
    lemma_sorted_listing_unique(sorted_names(s), q, s);
}

pub open spec fn text_leq(a: Seq<char>, b: Seq<char>) -> bool {
    a == b || text_lt(a, b)
}

proof fn lemma_text_leq_total()
    ensures
        total_ordering(|a: Seq<char>, b: Seq<char>| text_leq(a, b)),
{
    let leq = |a: Seq<char>, b: Seq<char>| text_leq(a, b);
    assert forall|a: Seq<char>, b: Seq<char>| #[trigger] leq(a, b) && #[trigger] leq(b, a) implies a
        == b by {
        if a != b {
            lemma_text_lt_asymmetric(a, b);
        }
    }
    assert forall|a: Seq<char>, b: Seq<char>, c: Seq<char>| #[trigger] leq(a, b) && #[trigger] leq(
        b,
        c,
    ) implies leq(a, c) by {
        if a != b && b != c {
            lemma_text_lt_transitive(a, b, c);
        }
    }
    assert forall|a: Seq<char>, b: Seq<char>| #[trigger] leq(a, b) || #[trigger] leq(b, a) by {
        if a != b {
            lemma_text_lt_total(a, b);
        }
    }
}

/// The distinct names of a sequence have an increasing listing.
pub proof fn lemma_sorted_listing_exists(ks: Seq<Seq<char>>)
    requires
        ks.no_duplicates(),
    ensures
        lists_sorted(sorted_names(ks.to_set()), ks.to_set()),
{
    broadcast use vstd::seq_lib::to_multiset_contains;

    let leq = |a: Seq<char>, b: Seq<char>| text_leq(a, b);
    lemma_text_leq_total();
    ks.lemma_sort_by_ensures(leq);
    let q = ks.sort_by(leq);
    ks.lemma_multiset_has_no_duplicates();
    assert forall|x: Seq<char>| q.to_multiset().contains(x) implies q.to_multiset().count(x)
        == 1 by {
        assert(ks.to_multiset().contains(x));
    }
    q.lemma_multiset_has_no_duplicates_conv();
    assert forall|i: int, j: int| 0 <= i < j < q.len() implies text_lt(
        #[trigger] q[i],
        #[trigger] q[j],
    ) by {
        assert(sorted_by(q, leq));
        assert(leq(q[i], q[j]));
    }
    assert forall|x: Seq<char>| #[trigger] q.to_set().contains(x) == ks.to_set().contains(x) by {
        assert(q.to_multiset().count(x) == ks.to_multiset().count(x));
    }
    assert(q.to_set() =~= ks.to_set());
    lemma_sorted_names(q, ks.to_set());
}

/// The keys of a table, sorted in increasing code-point order.
pub fn sorted_keys<V>(entries: &Vec<(String, V)>) -> (r: Vec<String>)
    requires
        entry_keys(entries@).no_duplicates(),
    ensures
        lists_sorted(r.deep_view(), entry_keys(entries@).to_set()),
        r.deep_view() == sorted_names(entry_keys(entries@).to_set()),
{
    let ghost ek = entry_keys(entries@);
    let mut keys: Vec<String> = Vec::new();
    let mut i: usize = 0;
    while i < entries.len()
        invariant
            i <= entries.len(),
            ek == entry_keys(entries@),
            ek.no_duplicates(),
            strictly_sorted(keys.deep_view()),
            forall|k: Seq<char>| #[trigger]
                keys.deep_view().contains(k) <==> ek.take(i as int).contains(k),
        decreases entries.len() - i,
    {
        let key = entries[i].0.clone();
        let ghost old_keys = keys.deep_view();
        assert(key@ == ek[i as int]);
        assert(!old_keys.contains(key@)) by {
            if old_keys.contains(key@) {
                assert(ek.take(i as int).contains(key@));
                let j = choose|j: int| 0 <= j < i && ek.take(i as int)[j] == key@;
                assert(ek[j] == ek[i as int]);
            }
        }
        let mut p: usize = 0;
        while p < keys.len() && !text_less(key.as_str(), keys[p].as_str())
            invariant
                p <= keys.len(),
                keys.deep_view() == old_keys,
                !old_keys.contains(key@),
                forall|j: int| 0 <= j < p ==> text_lt(#[trigger] old_keys[j], key@),
            decreases keys.len() - p,
        {
            assert(old_keys[p as int] == keys[p as int]@);
            assert(old_keys[p as int] != key@);
            proof {
                lemma_text_lt_total(old_keys[p as int], key@);
            }
            p += 1;
        }
        if p < keys.len() {
            assert(text_lt(key@, old_keys[p as int]));
        }
        assert forall|j: int| p <= j < old_keys.len() implies text_lt(
            key@,
            #[trigger] old_keys[j],
        ) by {
            if j > p {
                assert(text_lt(old_keys[p as int], old_keys[j]));
                lemma_text_lt_transitive(key@, old_keys[p as int], old_keys[j]);
            }
        }
        keys.insert(p, key);
        let ghost nk = keys.deep_view();
        assert(nk =~= old_keys.insert(p as int, key@));
        assert forall|a: int, b: int| 0 <= a < b < nk.len() implies text_lt(
            #[trigger] nk[a],
            #[trigger] nk[b],
        ) by {
            if b < p {
            } else if b == p {
            } else if a < p {
                assert(nk[b] == old_keys[b - 1]);
                lemma_text_lt_transitive(nk[a], key@, nk[b]);
            } else if a == p {
            } else {
                assert(nk[a] == old_keys[a - 1] && nk[b] == old_keys[b - 1]);
            }
        }
        assert forall|k: Seq<char>| #[trigger]
            nk.contains(k) <==> ek.take(i + 1).contains(k) by {
            assert(ek.take(i + 1) =~= ek.take(i as int).push(key@));
            if nk.contains(k) {
                let j = choose|j: int| 0 <= j < nk.len() && nk[j] == k;
                if j < p {
                    assert(old_keys[j] == k);
                } else if j > p {
                    assert(old_keys[j - 1] == k);
                }
            }
            if old_keys.contains(k) {
                let j = choose|j: int| 0 <= j < old_keys.len() && old_keys[j] == k;
                if j < p {
                    assert(nk[j] == k);
                } else {
                    assert(nk[j + 1] == k);
                }
            }
            if k == key@ {
                assert(nk[p as int] == k);
            }
            let t0 = ek.take(i as int);
            let t1 = ek.take(i + 1);
            if t1.contains(k) {
                let j = choose|j: int| 0 <= j < t1.len() && t1[j] == k;
                if j < i {
                    assert(t0[j] == k);
                    assert(t0.contains(k));
                    assert(old_keys.contains(k));
                }
            }
            if t0.contains(k) {
                let j = choose|j: int| 0 <= j < t0.len() && t0[j] == k;
                assert(t1[j] == k);
            }
            if nk.contains(k) && k != key@ {
                assert(old_keys.contains(k));
                assert(t0.contains(k));
            }
            if k == key@ {
                assert(t1[i as int] == k);
            }
        }
        i += 1;
    }
    assert(ek.take(i as int) =~= ek);
    assert(keys.deep_view().to_set() =~= ek.to_set());
    proof {
        lemma_sorted_names(keys.deep_view(), ek.to_set());
    }
    keys
}

/// The position of the entry keyed `name`, if there is one.
pub fn find_key<V>(entries: &Vec<(String, V)>, name: &str) -> (r: Option<usize>)
    ensures
        r is Some ==> r->0 < entries@.len() && entries@[r->0 as int].0@ == name@,
        r is None ==> !entry_keys(entries@).contains(name@),
{
    let mut i: usize = 0;
    while i < entries.len()
        invariant
            i <= entries.len(),
            forall|j: int| 0 <= j < i ==> #[trigger] entries@[j].0@ != name@,
        decreases entries.len() - i,
    {
        if crate::text::same_text(entries[i].0.as_str(), name) {
            return Some(i);
        }
        i += 1;
    }
    proof {
        if entry_keys(entries@).contains(name@) {
            let j = choose|j: int| 0 <= j < entries@.len() && entry_keys(entries@)[j] == name@;
            assert(entries@[j].0@ != name@);
        }
    }
    None
}

/// Whether every key of the table stands once.
pub fn keys_distinct<V>(entries: &Vec<(String, V)>) -> (r: bool)
    ensures
        r == entry_keys(entries@).no_duplicates(),
{
    let ghost ks = entry_keys(entries@);
    let mut i: usize = 0;
    while i < entries.len()
        invariant
            i <= entries.len(),
            ks == entry_keys(entries@),
            forall|a: int, b: int| 0 <= a < b < i ==> #[trigger] ks[a] != #[trigger] ks[b],
        decreases entries.len() - i,
    {
        let mut j: usize = 0;
        while j < i
            invariant
                j <= i,
                i < entries.len(),
                ks == entry_keys(entries@),
                forall|a: int, b: int| 0 <= a < b < i ==> #[trigger] ks[a] != #[trigger] ks[b],
                forall|a: int| 0 <= a < j ==> #[trigger] ks[a] != ks[i as int],
            decreases i - j,
        {
            if crate::text::same_text(entries[j].0.as_str(), entries[i].0.as_str()) {
                assert(ks[j as int] == ks[i as int]);
                return false;
            }
            j += 1;
        }
        i += 1;
    }
    true
}

} // verus!
