//! Lexicographic ordering of text keys, and a sort of records by a two-part key.

use vstd::prelude::*;

verus! {

broadcast use {vstd::seq_lib::group_seq_properties, vstd::multiset::group_multiset_axioms};

/// `a` comes strictly before `b` in code-point (equivalently, UTF-8 byte) order.
pub open spec fn chars_lt(a: Seq<char>, b: Seq<char>) -> bool
    decreases a.len(),
{
    if b.len() == 0 {
        false
    } else if a.len() == 0 {
        true
    } else if a[0] != b[0] {
        (a[0] as u32) < (b[0] as u32)
    } else {
        chars_lt(a.drop_first(), b.drop_first())
    }
}

pub proof fn lemma_chars_lt_transitive(a: Seq<char>, b: Seq<char>, c: Seq<char>)
    requires
        chars_lt(a, b),
        chars_lt(b, c),
    ensures
        chars_lt(a, c),
    decreases a.len(),
{
    if a.len() > 0 && b.len() > 0 && c.len() > 0 && a[0] == b[0] && b[0] == c[0] {
        lemma_chars_lt_transitive(a.drop_first(), b.drop_first(), c.drop_first());
    }
}

pub proof fn lemma_chars_lt_irreflexive(a: Seq<char>)
    ensures
        !chars_lt(a, a),
    decreases a.len(),
{
    if a.len() > 0 {
        lemma_chars_lt_irreflexive(a.drop_first());
    }
}

/// Whether `a` comes before `b`.
pub fn chars_less(a: &[char], b: &[char]) -> (r: bool)
    ensures
        r == chars_lt(a@, b@),
{
    let mut i: usize = 0;
    assert(a@.subrange(0, a@.len() as int) =~= a@);
    assert(b@.subrange(0, b@.len() as int) =~= b@);
    while i < a.len() && i < b.len() && a[i] == b[i]
        invariant
            i <= a@.len(),
            i <= b@.len(),
            chars_lt(a@, b@) == chars_lt(
                a@.subrange(i as int, a@.len() as int),
                b@.subrange(i as int, b@.len() as int),
            ),
        decreases a@.len() - i,
    {
        assert(a@.subrange(i as int, a@.len() as int).drop_first() =~= a@.subrange(
            i + 1,
            a@.len() as int,
        ));
        assert(b@.subrange(i as int, b@.len() as int).drop_first() =~= b@.subrange(
            i + 1,
            b@.len() as int,
        ));
        i = i + 1;
    }
    if i >= b.len() {
        false
    } else if i >= a.len() {
        true
    } else {
        (a[i] as u32) < (b[i] as u32)
    }
}

/// A two-part sort key: first the primary text, then the secondary text.
pub open spec fn key_lt(a: (Seq<char>, Seq<char>), b: (Seq<char>, Seq<char>)) -> bool {
    chars_lt(a.0, b.0) || (a.0 == b.0 && chars_lt(a.1, b.1))
}

pub proof fn lemma_key_lt_transitive(
    a: (Seq<char>, Seq<char>),
    b: (Seq<char>, Seq<char>),
    c: (Seq<char>, Seq<char>),
)
    requires
        key_lt(a, b),
        key_lt(b, c),
    ensures
        key_lt(a, c),
{
    if chars_lt(a.0, b.0) && chars_lt(b.0, c.0) {
        lemma_chars_lt_transitive(a.0, b.0, c.0);
    } else if chars_lt(a.0, b.0) {
    } else if chars_lt(b.0, c.0) {
    } else {
        lemma_chars_lt_transitive(a.1, b.1, c.1);
    }
}

/// Records that are ordered by a two-part text key.
pub trait SortKey {
    spec fn sort_key(&self) -> (Seq<char>, Seq<char>);

    fn exec_sort_key(&self) -> (r: (Vec<char>, Vec<char>))
        ensures
            r.0@ == self.sort_key().0,
            r.1@ == self.sort_key().1,
    ;
}

/// No record is followed by one with a smaller key.
pub open spec fn sorted_by_key<T: SortKey>(s: Seq<T>) -> bool {
    forall|i: int, j: int|
        0 <= i < j < s.len() ==> !key_lt(#[trigger] s[j].sort_key(), #[trigger] s[i].sort_key())
}

fn key_less<T: SortKey>(a: &T, b: &T) -> (r: bool)
    ensures
        r == key_lt(a.sort_key(), b.sort_key()),
{
    let ka = a.exec_sort_key();
    let kb = b.exec_sort_key();
    if chars_less(ka.0.as_slice(), kb.0.as_slice()) {
        true
    } else if crate::text::chars_equal(ka.0.as_slice(), kb.0.as_slice()) {
        chars_less(ka.1.as_slice(), kb.1.as_slice())
    } else {
        false
    }
}

/// The records whose key is `k`.
pub open spec fn key_is<T: SortKey>(k: (Seq<char>, Seq<char>)) -> spec_fn(T) -> bool {
    |t: T| t.sort_key() == k
}

proof fn lemma_filter_insert_other<T>(s: Seq<T>, p: int, x: T, pred: spec_fn(T) -> bool)
    requires
        0 <= p <= s.len(),
        !pred(x),
    ensures
        s.insert(p, x).filter(pred) == s.filter(pred),
    decreases s.len(),
{
    if p == s.len() {
        assert(s.insert(p, x) =~= s.push(x));
        s.lemma_filter_push(x, pred);
    } else {
        let init = s.drop_last();
        lemma_filter_insert_other(init, p, x, pred);
        assert(s.insert(p, x) =~= init.insert(p, x).push(s.last()));
        assert(s =~= init.push(s.last()));
        init.insert(p, x).lemma_filter_push(s.last(), pred);
        init.lemma_filter_push(s.last(), pred);
    }
}

proof fn lemma_filter_insert_last_match<T>(s: Seq<T>, p: int, x: T, pred: spec_fn(T) -> bool)
    requires
        0 <= p <= s.len(),
        pred(x),
        forall|j: int| p <= j < s.len() ==> !pred(#[trigger] s[j]),
    ensures
        s.insert(p, x).filter(pred) == s.filter(pred).push(x),
    decreases s.len(),
{
    if p == s.len() {
        assert(s.insert(p, x) =~= s.push(x));
        s.lemma_filter_push(x, pred);
    } else {
        let init = s.drop_last();
        assert forall|j: int| p <= j < init.len() implies !pred(#[trigger] init[j]) by {
            assert(init[j] == s[j]);
        }
        lemma_filter_insert_last_match(init, p, x, pred);
        assert(s.insert(p, x) =~= init.insert(p, x).push(s.last()));
        assert(s =~= init.push(s.last()));
        assert(!pred(s[s.len() - 1]));
        init.insert(p, x).lemma_filter_push(s.last(), pred);
        init.lemma_filter_push(s.last(), pred);
    }
}

/// Sorts records by key. Records with equal keys keep their input order: for every key,
/// the records with that key come out in the order they went in.
pub fn sort_by_key<T: SortKey>(v: Vec<T>) -> (r: Vec<T>)
    ensures
        r@.to_multiset() == v@.to_multiset(),
        sorted_by_key(r@),
        forall|k: (Seq<char>, Seq<char>)| #[trigger] r@.filter(key_is(k)) == v@.filter(key_is(k)),
{
    let mut rest = v;
    let mut out: Vec<T> = Vec::new();
    let ghost initial = rest@;
    let ghost mut done: Seq<T> = Seq::empty();
    assert(initial =~= done + rest@);
    while rest.len() > 0
        invariant
            out@.to_multiset().add(rest@.to_multiset()) == initial.to_multiset(),
            sorted_by_key(out@),
            initial == done + rest@,
            forall|k: (Seq<char>, Seq<char>)| #[trigger] out@.filter(key_is(k)) == done.filter(
                key_is(k),
            ),
        decreases rest@.len(),
    {
        let ghost before = rest@;
        let x = rest.remove(0);
        proof {
            vstd::seq_lib::to_multiset_remove(before, 0);
            assert(before.remove(0) == rest@);
        }
        let mut k: usize = 0;
        while k < out.len() && !key_less(&x, &out[k])
            invariant
                k <= out@.len(),
                forall|i: int| 0 <= i < k ==> !key_lt(x.sort_key(), #[trigger] out@[i].sort_key()),
            decreases out@.len() - k,
        {
            k = k + 1;
        }
        let ghost prev = out@;
        proof {
            assert forall|j: int| k <= j < prev.len() implies !key_lt(
                #[trigger] prev[j].sort_key(),
                x.sort_key(),
            ) by {
                if key_lt(prev[j].sort_key(), x.sort_key()) {
                    assert(key_lt(x.sort_key(), prev[k as int].sort_key()));
                    lemma_key_lt_transitive(
                        prev[j].sort_key(),
                        x.sort_key(),
                        prev[k as int].sort_key(),
                    );
                    if j == k {
                        lemma_chars_lt_irreflexive(prev[j].sort_key().0);
                        lemma_chars_lt_irreflexive(prev[j].sort_key().1);
                    } else {
                        assert(!key_lt(prev[j].sort_key(), prev[k as int].sort_key()));
                    }
                }
            }
            assert forall|j: int| k <= j < prev.len() implies #[trigger] prev[j].sort_key()
                != x.sort_key() by {
                if prev[j].sort_key() == x.sort_key() {
                    assert(key_lt(x.sort_key(), prev[k as int].sort_key()));
                    if j == k {
                        lemma_chars_lt_irreflexive(x.sort_key().0);
                        lemma_chars_lt_irreflexive(x.sort_key().1);
                    } else {
                        assert(!key_lt(prev[j].sort_key(), prev[k as int].sort_key()));
                    }
                }
            }
        }
        let ghost xv = x;
        out.insert(k, x);
        proof {
            vstd::seq_lib::to_multiset_insert(prev, k as int, xv);
            assert(out@ == prev.insert(k as int, xv));
            assert forall|i: int, j: int| 0 <= i < j < out@.len() implies !key_lt(
                #[trigger] out@[j].sort_key(),
                #[trigger] out@[i].sort_key(),
            ) by {
                if j < k {
                    assert(out@[i] == prev[i] && out@[j] == prev[j]);
                } else if j == k {
                    assert(out@[i] == prev[i]);
                } else if i == k {
                    assert(out@[j] == prev[j - 1]);
                } else if i < k {
                    assert(out@[i] == prev[i] && out@[j] == prev[j - 1]);
                } else {
                    assert(out@[i] == prev[i - 1] && out@[j] == prev[j - 1]);
                }
            }
            let old_done = done;
            done = done.push(xv);
            assert(initial =~= done + rest@) by {
                assert(before =~= seq![xv] + rest@);
            }
            assert forall|key: (Seq<char>, Seq<char>)| #[trigger] out@.filter(key_is(key))
                == done.filter(key_is(key)) by {
                old_done.lemma_filter_push(xv, key_is(key));
                if xv.sort_key() == key {
                    assert forall|j: int| k <= j < prev.len() implies !(key_is::<T>(key))(
                        #[trigger] prev[j],
                    ) by {
                        assert(prev[j].sort_key() != xv.sort_key());
                    }
                    lemma_filter_insert_last_match(prev, k as int, xv, key_is(key));
                } else {
                    lemma_filter_insert_other(prev, k as int, xv, key_is(key));
                }
            }
        }
    }
    assert(rest@.to_multiset() =~= vstd::multiset::Multiset::empty());
    assert(done =~= initial);
    out
}

/// Two sequences that hold the same elements, counted, still do once each element is mapped
/// by `f`.
pub proof fn lemma_map_values_multiset<A, B>(a: Seq<A>, b: Seq<A>, f: spec_fn(A) -> B)
    requires
        a.to_multiset() == b.to_multiset(),
    ensures
        a.map_values(f).to_multiset() == b.map_values(f).to_multiset(),
    decreases a.len(),
{
    broadcast use vstd::seq_lib::group_to_multiset_ensures;

    if a.len() == 0 {
        assert(b.len() == b.to_multiset().len());
        assert(a.map_values(f) =~= b.map_values(f));
    } else {
        let x = a.last();
        let rest = a.drop_last();
        assert(rest.push(x) =~= a);
        assert(a.to_multiset().count(x) > 0);
        assert(b.contains(x));
        let k = choose|k: int| 0 <= k < b.len() && b[k] == x;
        let br = b.remove(k);
        assert(rest.to_multiset() =~= a.to_multiset().remove(x));
        assert(br.to_multiset() == b.to_multiset().remove(b[k]));
        lemma_map_values_multiset(rest, br, f);
        let ma = a.map_values(f);
        let mb = b.map_values(f);
        assert(ma =~= rest.map_values(f).push(f(x)));
        assert(br.map_values(f) =~= mb.remove(k));
        assert(mb.remove(k).to_multiset() == mb.to_multiset().remove(mb[k]));
        assert(mb.to_multiset().count(f(x)) > 0) by {
            assert(mb[k] == f(x));
            assert(mb.contains(f(x)));
        }
        assert(mb.to_multiset() =~= mb.to_multiset().remove(f(x)).insert(f(x)));
    }
}

} // verus!
