//! Per-stream, per-leg records of the native audio runtime: the media a started leg reports
//! and the failure recorded for a leg that could not start.

use vstd::prelude::*;
use crate::audio_protocol::AudioBackendLeg;

verus! {

/// The key of a record: a stream id and a leg.
pub type LegKey = (Seq<char>, AudioBackendLeg);

/// One record of a table.
pub struct LegEntry<V> {
    pub stream_id: String,
    pub leg: AudioBackendLeg,
    pub value: V,
}

pub open spec fn entry_key<V>(e: LegEntry<V>) -> LegKey {
    (e.stream_id@, e.leg)
}

/// The map that a list of records stands for; a later record of a key wins.
pub open spec fn table_map<V>(s: Seq<LegEntry<V>>) -> Map<LegKey, V>
    decreases s.len(),
{
    if s.len() == 0 {
        Map::empty()
    } else {
        table_map(s.drop_last()).insert(entry_key(s.last()), s.last().value)
    }
}

/// The keys of one stream.
pub open spec fn stream_keys(id: Seq<char>) -> Set<LegKey> {
    Set::new(|k: LegKey| k.0 == id)
}

/// The keys of one stream, or of one leg of it.
pub open spec fn key_set(id: Seq<char>, leg: Option<AudioBackendLeg>) -> Set<LegKey> {
    match leg {
        Some(l) => set![(id, l)],
        None => stream_keys(id),
    }
}

/// The record at `i` is the last one with key `k`, so its value is the one the map holds.
pub proof fn lemma_table_last<V>(s: Seq<LegEntry<V>>, k: LegKey, i: int)
    requires
        0 <= i < s.len(),
        entry_key(s[i]) == k,
        forall|j: int| i < j < s.len() ==> entry_key(#[trigger] s[j]) != k,
    ensures
        table_map(s).contains_key(k),
        table_map(s)[k] == s[i].value,
    decreases s.len(),
{
    if i < s.len() - 1 {
        assert(entry_key(s[s.len() - 1]) != k);
        let t = s.drop_last();
        assert forall|j: int| i < j < t.len() implies entry_key(#[trigger] t[j]) != k by {
            assert(t[j] == s[j]);
        }
        lemma_table_last(t, k, i);
    }
}

/// Keys of no record are not in the map.
pub proof fn lemma_table_absent<V>(s: Seq<LegEntry<V>>, keys: Set<LegKey>)
    requires
        forall|j: int| 0 <= j < s.len() ==> !keys.contains(entry_key(#[trigger] s[j])),
    ensures
        forall|k: LegKey| keys.contains(k) ==> !table_map(s).contains_key(k),
    decreases s.len(),
{
    if s.len() > 0 {
        let t = s.drop_last();
        assert forall|j: int| 0 <= j < t.len() implies !keys.contains(entry_key(#[trigger] t[j])) by {
            assert(t[j] == s[j]);
        }
        lemma_table_absent(t, keys);
        assert(!keys.contains(entry_key(s[s.len() - 1])));
    }
}

/// Dropping a record whose key is among `keys` leaves the map outside `keys` unchanged.
pub proof fn lemma_table_remove<V>(s: Seq<LegEntry<V>>, i: int, keys: Set<LegKey>)
    requires
        0 <= i < s.len(),
        keys.contains(entry_key(s[i])),
    ensures
        table_map(s.remove(i)).remove_keys(keys) == table_map(s).remove_keys(keys),
    decreases s.len(),
{
    let last = s.last();
    if i == s.len() - 1 {
        assert(s.remove(i) =~= s.drop_last());
        assert(table_map(s).remove_keys(keys) =~= table_map(s.drop_last()).remove_keys(keys));
    } else {
        let t = s.drop_last();
        assert(s.remove(i).drop_last() =~= t.remove(i));
        assert(s.remove(i).last() == last);
        lemma_table_remove(t, i, keys);
        if keys.contains(entry_key(last)) {
            assert(table_map(s.remove(i)).remove_keys(keys) =~= table_map(t.remove(i)).remove_keys(
                keys,
            ));
            assert(table_map(s).remove_keys(keys) =~= table_map(t).remove_keys(keys));
        } else {
            assert(table_map(s.remove(i)).remove_keys(keys) =~= table_map(t.remove(i)).remove_keys(
                keys,
            ).insert(entry_key(last), last.value));
            assert(table_map(s).remove_keys(keys) =~= table_map(t).remove_keys(keys).insert(
                entry_key(last),
                last.value,
            ));
        }
    }
}

/// Records keyed by stream and leg, read as a map.
#[verifier::reject_recursive_types(V)]
pub struct LegTable<V> {
    entries: Vec<LegEntry<V>>,
}

impl<V> View for LegTable<V> {
    type V = Map<LegKey, V>;

    closed spec fn view(&self) -> Map<LegKey, V> {
        table_map(self.entries@)
    }
}

impl<V> LegTable<V> {
    /// An empty table.
    pub fn new() -> (t: Self)
        ensures
            t@ == Map::<LegKey, V>::empty(),
    {
        LegTable { entries: Vec::new() }
    }

    /// The value recorded for `leg` of stream `id`.
    pub fn get(&self, id: &str, leg: AudioBackendLeg) -> (r: Option<&V>)
        ensures
            r matches Some(v) ==> self@.contains_key((id@, leg)) && *v == self@[(id@, leg)],
            r is None ==> !self@.contains_key((id@, leg)),
    {
        let target = String::from_str(id);
        let ghost k: LegKey = (id@, leg);
        let mut i: usize = self.entries.len();
        while i > 0
            invariant
                i <= self.entries@.len(),
                target@ == id@,
                k == (id@, leg),
                forall|j: int| i <= j < self.entries@.len() ==> entry_key(#[trigger] self.entries@[j]) != k,
            decreases i,
        {
            i = i - 1;
            if self.entries[i].stream_id == target && self.entries[i].leg == leg {
                proof {
                    lemma_table_last(self.entries@, k, i as int);
                }
                return Some(&self.entries[i].value);
            }
        }
        proof {
            let ks = set![k];
            assert forall|j: int| 0 <= j < self.entries@.len() implies !ks.contains(
                entry_key(#[trigger] self.entries@[j]),
            ) by {}
            lemma_table_absent(self.entries@, ks);
            assert(ks.contains(k));
        }
        None
    }

    /// Drops the records of stream `id` (of one leg of it, when `leg` is given).
    fn remove_where(&mut self, id: &str, leg: Option<AudioBackendLeg>)
        ensures
            final(self)@ == old(self)@.remove_keys(key_set(id@, leg)),
    {
        let target = String::from_str(id);
        let ghost keys = key_set(id@, leg);
        let ghost start = self.entries@;
        let mut i: usize = 0;
        while i < self.entries.len()
            invariant
                i <= self.entries@.len(),
                target@ == id@,
                keys == key_set(id@, leg),
                table_map(self.entries@).remove_keys(keys) == table_map(start).remove_keys(keys),
                forall|j: int| 0 <= j < i ==> !keys.contains(entry_key(#[trigger] self.entries@[j])),
            decreases self.entries@.len() - i,
        {
            let same_leg = match leg {
                Some(l) => self.entries[i].leg == l,
                None => true,
            };
            let hit = self.entries[i].stream_id == target && same_leg;
            assert(hit == keys.contains(entry_key(self.entries@[i as int])));
            if hit {
                proof {
                    lemma_table_remove(self.entries@, i as int, keys);
                }
                let ghost before = self.entries@;
                self.entries.remove(i);
                assert forall|j: int| 0 <= j < i implies !keys.contains(
                    entry_key(#[trigger] self.entries@[j]),
                ) by {
                    assert(self.entries@[j] == before[j]);
                }
            } else {
                i = i + 1;
            }
        }
        proof {
            lemma_table_absent(self.entries@, keys);
            assert(table_map(self.entries@).remove_keys(keys) =~= table_map(self.entries@));
        }
    }

    /// Drops the record of `leg` of stream `id`.
    pub fn remove(&mut self, id: &str, leg: AudioBackendLeg)
        ensures
            final(self)@ == old(self)@.remove((id@, leg)),
    {
        self.remove_where(id, Some(leg));
        assert(old(self)@.remove_keys(set![(id@, leg)]) =~= old(self)@.remove((id@, leg)));
    }

    /// Drops every record of stream `id`.
    pub fn remove_stream(&mut self, id: &str)
        ensures
            final(self)@ == old(self)@.remove_keys(stream_keys(id@)),
    {
        self.remove_where(id, None);
    }

    /// Records `value` for `leg` of stream `id`, replacing any earlier record.
    pub fn insert(&mut self, id: &str, leg: AudioBackendLeg, value: V)
        ensures
            final(self)@ == old(self)@.insert((id@, leg), value),
    {
        self.remove_where(id, Some(leg));
        let ghost mid = self.entries@;
        self.entries.push(LegEntry { stream_id: String::from_str(id), leg, value });
        assert(self.entries@.drop_last() =~= mid);
        assert(old(self)@.remove_keys(set![(id@, leg)]).insert((id@, leg), value) =~= old(self)@.insert(
            (id@, leg),
            value,
        ));
    }
}

} // verus!
