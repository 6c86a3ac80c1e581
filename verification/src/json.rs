//! A flat JSON object model: string keys bound to scalar values.
//!
//! Request parameter maps and decoded response bodies are both held in
//! [`JsonObject`], whose mathematical value is a `Map<Seq<char>, ScalarValue>`.
//! Keys are unique; inserting an existing key overwrites its value, as a JSON
//! object insert does.

use vstd::prelude::*;

verus! {

/// A JSON-compatible scalar carried in a parameter map or a response body:
/// a string, a non-negative integer, a byte array, a boolean, or any other
/// JSON value that the library never reads (`Other`).
pub enum JsonScalar {
    Str(String),
    UInt(u64),
    Bytes(Vec<u8>),
    Bool(bool),
    Other,
}

/// The mathematical value of a [`JsonScalar`].
pub enum ScalarValue {
    Str(Seq<char>),
    UInt(u64),
    Bytes(Seq<u8>),
    Bool(bool),
    Other,
}

impl View for JsonScalar {
    type V = ScalarValue;

    open spec fn view(&self) -> ScalarValue {
        match self {
            JsonScalar::Str(s) => ScalarValue::Str(s@),
            JsonScalar::UInt(n) => ScalarValue::UInt(*n),
            JsonScalar::Bytes(b) => ScalarValue::Bytes(b@),
            JsonScalar::Bool(b) => ScalarValue::Bool(*b),
            JsonScalar::Other => ScalarValue::Other,
        }
    }
}

/// The map described by a sequence of key-value entries: later entries win.
pub open spec fn map_of(entries: Seq<(String, JsonScalar)>) -> Map<Seq<char>, ScalarValue>
    decreases entries.len(),
{
    if entries.len() == 0 {
        Map::empty()
    } else {
        map_of(entries.drop_last()).insert(entries.last().0@, entries.last().1@)
    }
}

/// No two entries share a key.
pub open spec fn unique_keys(entries: Seq<(String, JsonScalar)>) -> bool {
    forall|i: int, j: int|
        0 <= i < j < entries.len() ==> entries[i].0@ != entries[j].0@
}

/// An ordered-irrelevant mapping from string keys to JSON scalars, as sent
/// to or received from the API.
pub struct JsonObject {
    entries: Vec<(String, JsonScalar)>,
}

impl View for JsonObject {
    type V = Map<Seq<char>, ScalarValue>;

    closed spec fn view(&self) -> Map<Seq<char>, ScalarValue> {
        map_of(self.entries@)
    }
}

/// The key of every entry is in the map, bound to that entry's value, and
/// every map key comes from some entry.
proof fn lemma_map_of_entries(entries: Seq<(String, JsonScalar)>)
    requires
        unique_keys(entries),
    ensures
        forall|k: Seq<char>|
            #[trigger] map_of(entries).contains_key(k) <==> exists|i: int|
                0 <= i < entries.len() && entries[i].0@ == k,
        forall|i: int|
            0 <= i < entries.len() ==> map_of(entries).contains_key(#[trigger] entries[i].0@)
                && map_of(entries)[entries[i].0@] == entries[i].1@,
    decreases entries.len(),
{
    if entries.len() > 0 {
        let prefix = entries.drop_last();
        lemma_map_of_entries(prefix);
        assert forall|k: Seq<char>| #[trigger] map_of(entries).contains_key(k) implies exists|i: int|
            0 <= i < entries.len() && entries[i].0@ == k by {
            if k != entries.last().0@ {
                assert(map_of(prefix).contains_key(k));
                let i = choose|i: int| 0 <= i < prefix.len() && prefix[i].0@ == k;
                assert(prefix[i] == entries[i]);
            } else {
                assert(entries[entries.len() - 1].0@ == k);
            }
        }
        assert forall|i: int| 0 <= i < entries.len() implies map_of(entries).contains_key(
            #[trigger] entries[i].0@,
        ) && map_of(entries)[entries[i].0@] == entries[i].1@ by {
            if i < entries.len() - 1 {
                assert(prefix[i] == entries[i]);
                assert(entries[i].0@ != entries.last().0@);
            }
        }
    }
}

impl JsonObject {
    /// The entry list is well formed: keys are unique.
    pub closed spec fn wf(&self) -> bool {
        unique_keys(self.entries@)
    }

    /// An empty object.
    pub fn new() -> (r: Self)
        ensures
            r.wf(),
            r@ == Map::<Seq<char>, ScalarValue>::empty(),
    {
        JsonObject { entries: Vec::new() }
    }

    /// The index of the entry holding `key`, if any.
    fn find(&self, key: &String) -> (r: Option<usize>)
        requires
            self.wf(),
        ensures
            match r {
                Some(i) => i < self.entries@.len() && self.entries@[i as int].0@ == key@,
                None => forall|i: int|
                    0 <= i < self.entries@.len() ==> self.entries@[i].0@ != key@,
            },
    {
        let mut i: usize = 0;
        while i < self.entries.len()
            invariant
                i <= self.entries@.len(),
                forall|j: int| 0 <= j < i ==> self.entries@[j].0@ != key@,
            decreases self.entries@.len() - i,
        {
            if self.entries[i].0 == *key {
                return Some(i);
            }
            i = i + 1;
        }
        None
    }

    /// Bind `key` to `value`, overwriting any previous binding.
    pub fn insert(&mut self, key: String, value: JsonScalar)
        requires
            old(self).wf(),
        ensures
            final(self).wf(),
            final(self)@ == old(self)@.insert(key@, value@),
    {
        let ghost s0 = self.entries@;
        match self.find(&key) {
            Some(i) => {
                self.entries[i] = (key, value);
                proof {
                    let s1 = self.entries@;
                    assert(unique_keys(s1));
                    lemma_map_of_entries(s0);
                    lemma_map_of_entries(s1);
                    assert forall|k: Seq<char>| true implies map_of(s1).contains_key(k)
                        == map_of(s0).insert(s1[i as int].0@, s1[i as int].1@).contains_key(k) by {
                        if map_of(s1).contains_key(k) {
                            let j = choose|j: int| 0 <= j < s1.len() && s1[j].0@ == k;
                            if j != i {
                                assert(s0[j].0@ == k);
                            }
                        }
                        if map_of(s0).contains_key(k) {
                            let j = choose|j: int| 0 <= j < s0.len() && s0[j].0@ == k;
                            if j != i {
                                assert(s1[j].0@ == k);
                            }
                        }
                    }
                    assert forall|k: Seq<char>| map_of(s1).contains_key(k) implies map_of(s1)[k]
                        == map_of(s0).insert(s1[i as int].0@, s1[i as int].1@)[k] by {
                        if k != s1[i as int].0@ {
                            let j = choose|j: int| 0 <= j < s1.len() && s1[j].0@ == k;
                            assert(j != i);
                            assert(s0[j].0@ == k && s0[j].1@ == s1[j].1@);
                        }
                    }
                    assert(map_of(s1) =~= map_of(s0).insert(s1[i as int].0@, s1[i as int].1@));
                }
            },
            None => {
                proof {
                    lemma_map_of_entries(s0);
                }
                self.entries.push((key, value));
                proof {
                    assert(self.entries@.drop_last() =~= s0);
                    assert(unique_keys(self.entries@));
                }
            },
        }
    }

    /// The scalar bound to `key`, if any.
    pub fn get(&self, key: &str) -> (r: Option<&JsonScalar>)
        requires
            self.wf(),
        ensures
            match r {
                Some(v) => self@.contains_key(key@) && v@ == self@[key@],
                None => !self@.contains_key(key@),
            },
    {
        proof {
            lemma_map_of_entries(self.entries@);
        }
        let owned = key.to_owned();
        match self.find(&owned) {
            Some(i) => Some(&self.entries[i].1),
            None => {
                proof {
                    if self@.contains_key(key@) {
                        let j = choose|j: int|
                            0 <= j < self.entries@.len() && self.entries@[j].0@ == key@;
                        assert(self.entries@[j].0@ == owned@);
                    }
                }
                None
            },
        }
    }

    /// Whether `key` is bound.
    pub fn contains_key(&self, key: &str) -> (r: bool)
        requires
            self.wf(),
        ensures
            r == self@.contains_key(key@),
    {
        match self.get(key) {
            Some(_) => true,
            None => false,
        }
    }

    /// The entries themselves, for callers that serialize the object.
    pub fn entries(&self) -> (r: &Vec<(String, JsonScalar)>)
        ensures
            map_of(r@) == self@,
    {
        &self.entries
    }
}

} // verus!
