//! The per-handle device/topic map: a mapping from a logical device
//! identifier to its data record, used to validate subscribe and unsubscribe
//! requests.

use crate::model::data::{Data, DataModel};
use vstd::prelude::*;

verus! {

/// Whether some entry of the map carries the given key.
pub open spec fn map_has_key(m: Seq<(Seq<char>, DataModel)>, k: Seq<char>) -> bool {
    exists|j: int| 0 <= j < m.len() && m[j].0 == k
}

/// Whether `j` is the first entry carrying the given key.
pub open spec fn is_first_key(m: Seq<(Seq<char>, DataModel)>, k: Seq<char>, j: int) -> bool {
    &&& 0 <= j < m.len()
    &&& m[j].0 == k
    &&& forall|l: int| 0 <= l < j ==> m[l].0 != k
}

/// The first entry carrying the given key.
pub open spec fn first_key(m: Seq<(Seq<char>, DataModel)>, k: Seq<char>) -> int {
    choose|j: int| is_first_key(m, k, j)
}

/// Whether some device record's topic equals the requested one.
pub open spec fn topic_known(m: Seq<(Seq<char>, DataModel)>, t: Seq<char>) -> bool {
    exists|j: int| 0 <= j < m.len() && m[j].1.topic == Some(t)
}

/// Whether every device record's topic equals the requested one.
pub open spec fn all_topics_known(m: Seq<(Seq<char>, DataModel)>, t: Seq<char>) -> bool {
    forall|j: int| 0 <= j < m.len() ==> m[j].1.topic == Some(t)
}

/// Two first-key positions for one key are the same position.
pub proof fn lemma_first_key_unique(m: Seq<(Seq<char>, DataModel)>, k: Seq<char>, i: int, j: int)
    requires
        is_first_key(m, k, i),
        is_first_key(m, k, j),
    ensures
        i == j,
{
    if i < j {
        assert(m[i].0 == k);
    } else if j < i {
        assert(m[j].0 == k);
    }
}

/// The device/topic map of one handle. Entries keep their insertion order;
/// inserting an existing key replaces that key's record.
#[derive(Clone, Debug)]
pub struct DeviceMap {
    entries: Vec<(String, Data)>,
}

impl View for DeviceMap {
    type V = Seq<(Seq<char>, DataModel)>;

    closed spec fn view(&self) -> Seq<(Seq<char>, DataModel)> {
        self.entries@.map_values(|e: (String, Data)| (e.0@, e.1@))
    }
}

impl DeviceMap {
    /// An empty map.
    pub fn new() -> (m: DeviceMap)
        ensures
            m@ == Seq::<(Seq<char>, DataModel)>::empty(),
    {
        let m = DeviceMap { entries: Vec::new() };
        proof {
            assert(m@ =~= Seq::<(Seq<char>, DataModel)>::empty());
        }
        m
    }

    /// The number of entries.
    pub fn len(&self) -> (n: usize)
        ensures
            n == self@.len(),
    {
        self.entries.len()
    }

    /// The position of the first entry with the given key, if any.
    fn position_of(&self, key: &str) -> (r: Option<usize>)
        ensures
            match r {
                Some(j) => is_first_key(self@, key@, j as int),
                None => !map_has_key(self@, key@),
            },
    {
        let needle = key.to_owned();
        let mut j: usize = 0;
        while j < self.entries.len()
            invariant
                j <= self@.len(),
                needle@ == key@,
                self@.len() == self.entries@.len(),
                forall|l: int| 0 <= l < j ==> self@[l].0 != key@,
            decreases self.entries@.len() - j,
        {
            if self.entries[j].0 == needle {
                return Some(j);
            }
            j = j + 1;
        }
        None
    }

    /// Inserts a record under a key: replaces the first entry with that key,
    /// or appends a new entry when the key is absent.
    pub fn insert(&mut self, key: String, value: Data)
        ensures
            map_has_key(old(self)@, key@) ==> final(self)@ == old(self)@.update(
                first_key(old(self)@, key@),
                (key@, value@),
            ),
            !map_has_key(old(self)@, key@) ==> final(self)@ == old(self)@.push((key@, value@)),
    {
        let pos = self.position_of(key.as_str());
        match pos {
            Some(j) => {
                self.entries.remove(j);
                self.entries.insert(j, (key, value));
                proof {
                    lemma_first_key_unique(
                        old(self)@,
                        key@,
                        j as int,
                        first_key(old(self)@, key@),
                    );
                    assert(self@ =~= old(self)@.update(j as int, (key@, value@)));
                }
            },
            None => {
                self.entries.push((key, value));
                proof {
                    assert(self@ =~= old(self)@.push((key@, value@)));
                }
            },
        }
    }

    /// The record stored under the given key, if any.
    pub fn get(&self, key: &str) -> (r: Option<&Data>)
        ensures
            match r {
                Some(d) => map_has_key(self@, key@) && d@ == self@[first_key(self@, key@)].1,
                None => !map_has_key(self@, key@),
            },
    {
        let pos = self.position_of(key);
        match pos {
            Some(j) => {
                proof {
                    lemma_first_key_unique(self@, key@, j as int, first_key(self@, key@));
                }
                Some(&self.entries[j].1)
            },
            None => None,
        }
    }

    /// Whether any device record's topic equals the requested one.
    pub fn any_topic_found(&self, topic: &str) -> (b: bool)
        ensures
            b == topic_known(self@, topic@),
    {
        let mut j: usize = 0;
        while j < self.entries.len()
            invariant
                j <= self@.len(),
                self@.len() == self.entries@.len(),
                forall|l: int| 0 <= l < j ==> self@[l].1.topic != Some(topic@),
            decreases self.entries@.len() - j,
        {
            if self.entries[j].1.topic_is_found(topic) {
                proof {
                    assert(self@[j as int].1.topic == Some(topic@));
                }
                return true;
            }
            j = j + 1;
        }
        false
    }

    /// Whether every device record's topic equals the requested one.
    pub fn all_topics_found(&self, topic: &str) -> (b: bool)
        ensures
            b == all_topics_known(self@, topic@),
    {
        let mut j: usize = 0;
        while j < self.entries.len()
            invariant
                j <= self@.len(),
                self@.len() == self.entries@.len(),
                forall|l: int| 0 <= l < j ==> self@[l].1.topic == Some(topic@),
            decreases self.entries@.len() - j,
        {
            if !self.entries[j].1.topic_is_found(topic) {
                proof {
                    assert(self@[j as int].1.topic != Some(topic@));
                }
                return false;
            }
            j = j + 1;
        }
        true
    }
}

} // verus!
