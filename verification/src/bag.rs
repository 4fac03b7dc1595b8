//! The property bag: a map from text keys to text values.

use vstd::prelude::*;

verus! {

/// The map that a list of entries stands for. Of several entries with one key the last counts.
pub open spec fn entries_map(s: Seq<(Seq<char>, Seq<char>)>) -> Map<Seq<char>, Seq<char>>
    decreases s.len(),
{
    if s.len() == 0 {
        Map::empty()
    } else {
        entries_map(s.drop_last()).insert(s.last().0, s.last().1)
    }
}

/// No key occurs twice in the list.
pub open spec fn distinct_keys(s: Seq<(Seq<char>, Seq<char>)>) -> bool {
    forall|i: int, j: int| 0 <= i < j < s.len() ==> s[i].0 != s[j].0
}

/// A key is in the map of a list exactly when some entry of the list has it.
pub proof fn lemma_entries_map_contains(s: Seq<(Seq<char>, Seq<char>)>, key: Seq<char>)
    ensures
        entries_map(s).contains_key(key) <==> exists|i: int| 0 <= i < s.len() && s[i].0 == key,
    decreases s.len(),
{
    if s.len() > 0 {
        let front = s.drop_last();
        lemma_entries_map_contains(front, key);
        if entries_map(s).contains_key(key) {
            if s.last().0 == key {
                assert(s[s.len() - 1].0 == key);
            } else {
                let i = choose|i: int| 0 <= i < front.len() && front[i].0 == key;
                assert(s[i].0 == key);
            }
        }
        if exists|i: int| 0 <= i < s.len() && s[i].0 == key {
            let i = choose|i: int| 0 <= i < s.len() && s[i].0 == key;
            if i < s.len() - 1 {
                assert(front[i].0 == key);
            }
        }
    }
}

/// The map of a list gives a key the value of the last entry that has the key.
pub proof fn lemma_entries_map_value(s: Seq<(Seq<char>, Seq<char>)>, i: int)
    requires
        0 <= i < s.len(),
        forall|j: int| i < j < s.len() ==> s[j].0 != s[i].0,
    ensures
        entries_map(s).contains_key(s[i].0),
        entries_map(s)[s[i].0] == s[i].1,
    decreases s.len(),
{
    if i < s.len() - 1 {
        let front = s.drop_last();
        assert(front[i] == s[i]);
        assert forall|j: int| i < j < front.len() implies front[j].0 != front[i].0 by {
            assert(front[j] == s[j]);
        }
        lemma_entries_map_value(front, i);
    }
}

/// Looks `key` up in a list of entries. Of several entries with this key the last counts.
pub fn lookup<'a>(entries: &'a Vec<(String, String)>, key: &str) -> (found: Option<&'a String>)
    ensures
        match found {
            Some(value) => entries_map(entries.deep_view()).contains_key(key@) && entries_map(
                entries.deep_view(),
            )[key@] == value@,
            None => !entries_map(entries.deep_view()).contains_key(key@),
        },
{
    let wanted = key.to_string();
    let ghost s = entries.deep_view();
    let mut i: usize = entries.len();
    while i > 0
        invariant
            i <= entries.len(),
            s == entries.deep_view(),
            wanted@ == key@,
            forall|j: int| i <= j < s.len() ==> s[j].0 != key@,
        decreases i,
    {
        i = i - 1;
        if entries[i].0 == wanted {
            proof {
                assert(s[i as int].0 == key@);
                lemma_entries_map_value(s, i as int);
            }
            return Some(&entries[i].1);
        }
    }
    proof {
        lemma_entries_map_contains(s, key@);
    }
    None
}

/// The place of the first entry with `key`, if there is one.
fn position(entries: &Vec<(String, String)>, key: &String) -> (place: Option<usize>)
    ensures
        match place {
            Some(i) => i < entries.len() && entries.deep_view()[i as int].0 == key@,
            None => forall|j: int| 0 <= j < entries.len() ==> entries.deep_view()[j].0 != key@,
        },
{
    let mut i: usize = 0;
    while i < entries.len()
        invariant
            i <= entries.len(),
            forall|j: int| 0 <= j < i ==> entries.deep_view()[j].0 != key@,
        decreases entries.len() - i,
    {
        if entries[i].0 == *key {
            return Some(i);
        }
        i = i + 1;
    }
    None
}

/// A map from text keys to text values. Each key is held once; writing a key
/// that is there replaces its value.
#[derive(Debug)]
pub struct PropertyBag {
    entries: Vec<(String, String)>,
}

impl View for PropertyBag {
    type V = Map<Seq<char>, Seq<char>>;

    closed spec fn view(&self) -> Map<Seq<char>, Seq<char>> {
        entries_map(self.entries.deep_view())
    }
}

impl PropertyBag {
    #[verifier::type_invariant]
    spec fn keys_held_once(self) -> bool {
        distinct_keys(self.entries.deep_view())
    }

    /// An empty bag.
    pub fn new() -> (bag: PropertyBag)
        ensures
            bag@ == Map::<Seq<char>, Seq<char>>::empty(),
    {
        PropertyBag { entries: Vec::new() }
    }

    /// Whether the bag holds `key`.
    pub fn contains_key(&self, key: &str) -> (held: bool)
        ensures
            held == self@.contains_key(key@),
    {
        lookup(&self.entries, key).is_some()
    }

    /// The value under `key`, if the bag holds the key.
    pub fn get(&self, key: &str) -> (found: Option<&String>)
        ensures
            match found {
                Some(value) => self@.contains_key(key@) && self@[key@] == value@,
                None => !self@.contains_key(key@),
            },
    {
        lookup(&self.entries, key)
    }

    /// Puts `value` under `key`, in place of what was there.
    pub fn insert(&mut self, key: String, value: String)
        ensures
            final(self)@ == old(self)@.insert(key@, value@),
    {
        proof {
            use_type_invariant(&*self);
        }
        let place = position(&self.entries, &key);
        let mut entries: Vec<(String, String)> = Vec::new();
        std::mem::swap(&mut self.entries, &mut entries);
        let ghost before = entries.deep_view();
        match place {
            Some(i) => {
                entries.set(i, (key, value));
                proof {
                    assert(entries.deep_view() =~= before.update(i as int, (key@, value@)));
                    lemma_update_entry(before, i as int, value@);
                }
            },
            None => {
                entries.push((key, value));
                proof {
                    let after = entries.deep_view();
                    assert(after =~= before.push((key@, value@)));
                    assert(after.drop_last() =~= before);
                }
            },
        }
        std::mem::swap(&mut self.entries, &mut entries);
    }

    /// The entries of the bag, each key once.
    pub fn entries(&self) -> (list: &Vec<(String, String)>)
        ensures
            entries_map(list.deep_view()) == self@,
            distinct_keys(list.deep_view()),
    {
        proof {
            use_type_invariant(self);
        }
        &self.entries
    }
}

/// In a list that holds each key once, a new value for the entry at `i` is a new
/// value under its key in the map, and the keys stay apart.
proof fn lemma_update_entry(s: Seq<(Seq<char>, Seq<char>)>, i: int, value: Seq<char>)
    requires
        0 <= i < s.len(),
        distinct_keys(s),
    ensures
        distinct_keys(s.update(i, (s[i].0, value))),
        entries_map(s.update(i, (s[i].0, value))) == entries_map(s).insert(s[i].0, value),
    decreases s.len(),
{
    let key = s[i].0;
    let t = s.update(i, (key, value));
    assert forall|a: int, b: int| 0 <= a < b < t.len() implies t[a].0 != t[b].0 by {
        assert(t[a].0 == s[a].0);
        assert(t[b].0 == s[b].0);
    }
    if i == s.len() - 1 {
        assert(t.drop_last() =~= s.drop_last());
        assert(entries_map(t) =~= entries_map(s).insert(key, value));
    } else {
        let front = s.drop_last();
        assert forall|a: int, b: int| 0 <= a < b < front.len() implies front[a].0 != front[b].0 by {
            assert(front[a] == s[a]);
            assert(front[b] == s[b]);
        }
        lemma_update_entry(front, i, value);
        assert(front[i] == s[i]);
        assert(t.drop_last() =~= front.update(i, (key, value)));
        assert(t.last() == s.last());
        assert(s.last().0 != key);
        assert(entries_map(t) =~= entries_map(s).insert(key, value));
    }
}

} // verus!
