//! Records keyed by a string, read as a map.

use vstd::prelude::*;

verus! {

/// One record of a table.
#[derive(Debug)]
pub struct TextEntry<V> {
    pub key: String,
    pub value: V,
}

/// The map that a list of records stands for; a later record of a key wins.
pub open spec fn text_map<V>(s: Seq<TextEntry<V>>) -> Map<Seq<char>, V>
    decreases s.len(),
{
    if s.len() == 0 {
        Map::empty()
    } else {
        text_map(s.drop_last()).insert(s.last().key@, s.last().value)
    }
}

proof fn lemma_text_last<V>(s: Seq<TextEntry<V>>, k: Seq<char>, i: int)
    requires
        0 <= i < s.len(),
        s[i].key@ == k,
        forall|j: int| i < j < s.len() ==> (#[trigger] s[j]).key@ != k,
    ensures
        text_map(s).contains_key(k),
        text_map(s)[k] == s[i].value,
    decreases s.len(),
{
    if i < s.len() - 1 {
        let t = s.drop_last();
        assert forall|j: int| i < j < t.len() implies (#[trigger] t[j]).key@ != k by {
            assert(t[j] == s[j]);
        }
        lemma_text_last(t, k, i);
    }
}

proof fn lemma_text_absent<V>(s: Seq<TextEntry<V>>, k: Seq<char>)
    requires
        forall|j: int| 0 <= j < s.len() ==> (#[trigger] s[j]).key@ != k,
    ensures
        !text_map(s).contains_key(k),
    decreases s.len(),
{
    if s.len() > 0 {
        let t = s.drop_last();
        assert forall|j: int| 0 <= j < t.len() implies (#[trigger] t[j]).key@ != k by {
            assert(t[j] == s[j]);
        }
        lemma_text_absent(t, k);
    }
}

proof fn lemma_text_remove<V>(s: Seq<TextEntry<V>>, i: int, k: Seq<char>)
    requires
        0 <= i < s.len(),
        s[i].key@ == k,
    ensures
        text_map(s.remove(i)).remove(k) == text_map(s).remove(k),
    decreases s.len(),
{
    let last = s.last();
    if i == s.len() - 1 {
        assert(s.remove(i) =~= s.drop_last());
        assert(text_map(s).remove(k) =~= text_map(s.drop_last()).remove(k));
    } else {
        let t = s.drop_last();
        assert(s.remove(i).drop_last() =~= t.remove(i));
        assert(s.remove(i).last() == last);
        lemma_text_remove(t, i, k);
        if last.key@ == k {
            assert(text_map(s.remove(i)).remove(k) =~= text_map(t.remove(i)).remove(k));
            assert(text_map(s).remove(k) =~= text_map(t).remove(k));
        } else {
            assert(text_map(s.remove(i)).remove(k) =~= text_map(t.remove(i)).remove(k).insert(
                last.key@,
                last.value,
            ));
            assert(text_map(s).remove(k) =~= text_map(t).remove(k).insert(last.key@, last.value));
        }
    }
}

/// Records keyed by a string.
#[verifier::reject_recursive_types(V)]
#[derive(Debug)]
pub struct TextTable<V> {
    entries: Vec<TextEntry<V>>,
}

impl<V> View for TextTable<V> {
    type V = Map<Seq<char>, V>;

    closed spec fn view(&self) -> Map<Seq<char>, V> {
        text_map(self.entries@)
    }
}

impl<V> TextTable<V> {
    /// An empty table.
    pub fn new() -> (t: Self)
        ensures
            t@ == Map::<Seq<char>, V>::empty(),
    {
        TextTable { entries: Vec::new() }
    }

    /// The value recorded for `key`.
    pub fn get(&self, key: &str) -> (r: Option<&V>)
        ensures
            r matches Some(v) ==> self@.contains_key(key@) && *v == self@[key@],
            r is None ==> !self@.contains_key(key@),
    {
        let target = String::from_str(key);
        let mut i: usize = self.entries.len();
        while i > 0
            invariant
                i <= self.entries@.len(),
                target@ == key@,
                forall|j: int| i <= j < self.entries@.len() ==> (#[trigger] self.entries@[j]).key@ != key@,
            decreases i,
        {
            i = i - 1;
            if self.entries[i].key == target {
                proof {
                    lemma_text_last(self.entries@, key@, i as int);
                }
                return Some(&self.entries[i].value);
            }
        }
        proof {
            lemma_text_absent(self.entries@, key@);
        }
        None
    }

    /// Drops the record of `key`.
    pub fn remove(&mut self, key: &str)
        ensures
            final(self)@ == old(self)@.remove(key@),
    {
        let target = String::from_str(key);
        let ghost start = self.entries@;
        let mut i: usize = 0;
        while i < self.entries.len()
            invariant
                i <= self.entries@.len(),
                target@ == key@,
                text_map(self.entries@).remove(key@) == text_map(start).remove(key@),
                forall|j: int| 0 <= j < i ==> (#[trigger] self.entries@[j]).key@ != key@,
            decreases self.entries@.len() - i,
        {
            if self.entries[i].key == target {
                proof {
                    lemma_text_remove(self.entries@, i as int, key@);
                }
                let ghost before = self.entries@;
                self.entries.remove(i);
                assert forall|j: int| 0 <= j < i implies (#[trigger] self.entries@[j]).key@ != key@ by {
                    assert(self.entries@[j] == before[j]);
                }
            } else {
                i = i + 1;
            }
        }
        proof {
            lemma_text_absent(self.entries@, key@);
            assert(text_map(self.entries@).remove(key@) =~= text_map(self.entries@));
        }
    }

    /// Records `value` for `key`, replacing any earlier record.
    pub fn insert(&mut self, key: &str, value: V)
        ensures
            final(self)@ == old(self)@.insert(key@, value),
    {
        self.remove(key);
        let ghost mid = self.entries@;
        self.entries.push(TextEntry { key: String::from_str(key), value });
        assert(self.entries@.drop_last() =~= mid);
        assert(old(self)@.remove(key@).insert(key@, value) =~= old(self)@.insert(key@, value));
    }
}

} // verus!
