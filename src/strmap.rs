//! A small map from strings to strings in which a later insert of a key
//! overrides an earlier one.
use vstd::prelude::*;
use vstd::string::*;

verus! {

/// The map that inserting `e` in order builds.
pub open spec fn map_of(e: Seq<(String, String)>) -> Map<Seq<char>, Seq<char>>
    decreases e.len(),
{
    if e.len() == 0 {
        Map::empty()
    } else {
        map_of(e.drop_last()).insert(e.last().0@, e.last().1@)
    }
}

pub struct StrMap {
    entries: Vec<(String, String)>,
}

impl View for StrMap {
    type V = Map<Seq<char>, Seq<char>>;

    closed spec fn view(&self) -> Map<Seq<char>, Seq<char>> {
        map_of(self.entries@)
    }
}

impl StrMap {
    pub fn new() -> (r: StrMap)
        ensures
            r@ == Map::<Seq<char>, Seq<char>>::empty(),
    {
        StrMap { entries: Vec::new() }
    }

    /// Sets `key` to `value`, replacing what it held.
    pub fn insert(&mut self, key: String, value: String)
        ensures
            final(self)@ == old(self)@.insert(key@, value@),
    {
        let ghost before = self.entries@;
        self.entries.push((key, value));
        assert(self.entries@.drop_last() == before);
    }

    /// The value held for `key`, if any.
    pub fn get(&self, key: &str) -> (r: Option<String>)
        ensures
            r is Some <==> self@.contains_key(key@),
            r matches Some(v) ==> self@[key@] == v@,
    {
        let k = String::from_str(key);
        let ghost e = self.entries@;
        let mut i = self.entries.len();
        assert(e.subrange(0, i as int) == e);
        while i > 0
            invariant
                i <= e.len(),
                e == self.entries@,
                k@ == key@,
                map_of(e).contains_key(k@) == map_of(e.subrange(0, i as int)).contains_key(k@),
                map_of(e).contains_key(k@) ==> map_of(e)[k@] == map_of(e.subrange(0, i as int))[k@],
            decreases i,
        {
            assert(e.subrange(0, i as int).drop_last() == e.subrange(0, i - 1));
            if self.entries[i - 1].0 == k {
                return Some(self.entries[i - 1].1.clone());
            }
            i = i - 1;
        }
        None
    }

    pub fn contains_key(&self, key: &str) -> (r: bool)
        ensures
            r == self@.contains_key(key@),
    {
        self.get(key).is_some()
    }
}

} // verus!
