use vstd::prelude::*;

use crate::json::{json_object_text, JsonMap};

verus! {

/// Free-form string parameters of one query, keyed by name.
///
/// Entries are kept in the order their keys were first inserted; a key occurs
/// at most once.
pub struct QueryOptions {
    entries: Vec<(String, String)>,
    contents: Ghost<Map<Seq<char>, Seq<char>>>,
}

impl View for QueryOptions {
    type V = Map<Seq<char>, Seq<char>>;

    closed spec fn view(&self) -> Map<Seq<char>, Seq<char>> {
        self.contents@
    }
}

impl QueryOptions {
    /// Each stored entry is in the map, each key of the map is stored, and no
    /// key is stored twice.
    pub closed spec fn wf(&self) -> bool {
        &&& forall|i: int|
            0 <= i < self.entries@.len() ==> {
                &&& #[trigger] self.contents@.contains_key(self.entries@[i].0@)
                &&& self.contents@[self.entries@[i].0@] == self.entries@[i].1@
            }
        &&& forall|k: Seq<char>|
            #[trigger] self.contents@.contains_key(k) ==> exists|i: int|
                0 <= i < self.entries@.len() && #[trigger] self.entries@[i].0@ == k
        &&& forall|i: int, j: int|
            0 <= i < j < self.entries@.len() ==> #[trigger] self.entries@[i].0@
                != #[trigger] self.entries@[j].0@
    }

    /// No options at all.
    pub fn new() -> (r: QueryOptions)
        ensures
            r.wf(),
            r@ == Map::<Seq<char>, Seq<char>>::empty(),
    {
        QueryOptions { entries: Vec::new(), contents: Ghost(Map::empty()) }
    }

    /// Position of the entry stored under `key`, if any.
    fn position(&self, key: &String) -> (r: Option<usize>)
        requires
            self.wf(),
        ensures
            r is None <==> !self@.contains_key(key@),
            match r {
                Some(i) => i < self.entries@.len() && self.entries@[i as int].0@ == key@,
                None => true,
            },
    {
        let mut i: usize = 0;
        while i < self.entries.len()
            invariant
                self.wf(),
                i <= self.entries@.len(),
                forall|j: int| 0 <= j < i ==> self.entries@[j].0@ != key@,
            decreases self.entries@.len() - i,
        {
            if self.entries[i].0.eq(key) {
                return Some(i);
            }
            i = i + 1;
        }
        None
    }

    /// Sets `key` to `value`, returning the value it replaced.
    pub fn insert(&mut self, key: String, value: String) -> (r: Option<String>)
        requires
            old(self).wf(),
        ensures
            final(self).wf(),
            final(self)@ == old(self)@.insert(key@, value@),
            match r {
                Some(v) => old(self)@.contains_key(key@) && v@ == old(self)@[key@],
                None => !old(self)@.contains_key(key@),
            },
    {
        match self.position(&key) {
            Some(i) => {
                let ghost prev = self.entries@;
                let previous = self.entries[i].1.clone();
                self.entries.set(i, (key, value));
                self.contents = Ghost(self.contents@.insert(key@, value@));
                assert forall|j: int| 0 <= j < self.entries@.len() implies #[trigger] prev[j].0@
                    == self.entries@[j].0@ by {}
                Some(previous)
            },
            None => {
                let ghost prev = self.entries@;
                self.entries.push((key, value));
                self.contents = Ghost(self.contents@.insert(key@, value@));
                assert forall|k: Seq<char>| #[trigger]
                    self.contents@.contains_key(k) implies exists|i: int|
                    0 <= i < self.entries@.len() && #[trigger] self.entries@[i].0@ == k by {
                    if k != key@ {
                        let i = choose|i: int| 0 <= i < prev.len() && #[trigger] prev[i].0@ == k;
                        assert(self.entries@[i] == prev[i]);
                    } else {
                        assert(self.entries@[prev.len() as int].0@ == k);
                    }
                }
                None
            },
        }
    }

    /// Takes out the entry stored under `key`, returning its value.
    pub fn remove(&mut self, key: &str) -> (r: Option<String>)
        requires
            old(self).wf(),
        ensures
            final(self).wf(),
            final(self)@ == old(self)@.remove(key@),
            match r {
                Some(v) => old(self)@.contains_key(key@) && v@ == old(self)@[key@],
                None => !old(self)@.contains_key(key@),
            },
    {
        let owned = key.to_owned();
        match self.position(&owned) {
            Some(i) => {
                let ghost prev = self.entries@;
                let (_, value) = self.entries.remove(i);
                self.contents = Ghost(self.contents@.remove(key@));
                assert forall|j: int| 0 <= j < self.entries@.len() implies #[trigger]
                    self.contents@.contains_key(self.entries@[j].0@) by {
                    if j < i {
                        assert(self.entries@[j] == prev[j]);
                    } else {
                        assert(self.entries@[j] == prev[j + 1]);
                    }
                }
                assert forall|k: Seq<char>| #[trigger]
                    self.contents@.contains_key(k) implies exists|j: int|
                    0 <= j < self.entries@.len() && #[trigger] self.entries@[j].0@ == k by {
                    let j = choose|j: int| 0 <= j < prev.len() && #[trigger] prev[j].0@ == k;
                    if j < i {
                        assert(self.entries@[j] == prev[j]);
                    } else {
                        assert(self.entries@[j - 1] == prev[j]);
                    }
                }
                Some(value)
            },
            None => {
                assert(self.contents@.remove(key@) =~= self.contents@);
                None
            },
        }
    }

    /// The value stored under `key`.
    pub fn get(&self, key: &str) -> (r: Option<&String>)
        requires
            self.wf(),
        ensures
            match r {
                Some(v) => self@.contains_key(key@) && v@ == self@[key@],
                None => !self@.contains_key(key@),
            },
    {
        let owned = key.to_owned();
        match self.position(&owned) {
            Some(i) => Some(&self.entries[i].1),
            None => None,
        }
    }

    /// Relies on serde_json::to_vec over a serde_json::Map of string values:
    /// that map is ordered by key, so the text depends on the entries alone.
    #[verifier::external_body]
    pub(crate) fn encode_json(&self) -> (r: Vec<u8>)
        requires
            self.wf(),
        ensures
            r@ == json_object_text(self@),
    {
        let object: JsonMap = self.entries.iter().map(
            |(k, v)| (k.clone(), serde_json::Value::String(v.clone())),
        ).collect();
        serde_json::to_vec(&object).unwrap_or_default()
    }
}

} // verus!
