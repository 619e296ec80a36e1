//! The adapter's profile configuration: the `key: value` entries of a
//! `profiles.yml` output, each value held as the text of its scalar.
use vstd::prelude::*;

use crate::text::str_eq;

verus! {

/// The value stored under `key`, the last entry for that key winning (as
/// when a YAML mapping is built from a list of pairs).
pub open spec fn config_get(entries: Seq<(Seq<char>, Seq<char>)>, key: Seq<char>) -> Option<
    Seq<char>,
>
    decreases entries.len(),
{
    if entries.len() == 0 {
        None
    } else if entries.last().0 == key {
        Some(entries.last().1)
    } else {
        config_get(entries.drop_last(), key)
    }
}

/// Profile fields of one adapter output, in the order they were given.
pub struct AdapterConfig {
    entries: Vec<(String, String)>,
}

impl View for AdapterConfig {
    type V = Seq<(Seq<char>, Seq<char>)>;

    closed spec fn view(&self) -> Seq<(Seq<char>, Seq<char>)> {
        Seq::new(self.entries@.len(), |i: int| (self.entries@[i].0@, self.entries@[i].1@))
    }
}

impl AdapterConfig {
    /// A configuration holding `entries` in order.
    pub fn new(entries: Vec<(String, String)>) -> (c: Self)
        ensures
            c@ == Seq::new(entries@.len(), |i: int| (entries@[i].0@, entries@[i].1@)),
    {
        AdapterConfig { entries }
    }

    /// The configuration with `(key, value)` added after the present entries.
    pub fn insert(&mut self, key: String, value: String)
        ensures
            final(self)@ == old(self)@.push((key@, value@)),
    {
        self.entries.push((key, value));
        assert(self@ =~= old(self)@.push((key@, value@)));
    }

    /// The text stored under `key`, if any.
    pub fn get_str(&self, key: &str) -> (r: Option<&str>)
        ensures
            r matches Some(v) ==> config_get(self@, key@) == Some(v@),
            r is None ==> config_get(self@, key@) is None,
    {
        let mut i = self.entries.len();
        proof {
            assert(self@.take(i as int) =~= self@);
        }
        while i > 0
            invariant
                i <= self.entries@.len(),
                self@.len() == self.entries@.len(),
                config_get(self@, key@) == config_get(self@.take(i as int), key@),
            decreases i,
        {
            let ghost prefix = self@.take(i as int);
            assert(prefix.last() == self@[i - 1]);
            assert(prefix.drop_last() =~= self@.take(i - 1));
            if str_eq(self.entries[i - 1].0.as_str(), key) {
                return Some(self.entries[i - 1].1.as_str());
            }
            i = i - 1;
        }
        None
    }

    /// An owned copy of the text stored under `key`, if any.
    pub fn get_string(&self, key: &str) -> (r: Option<String>)
        ensures
            r matches Some(v) ==> config_get(self@, key@) == Some(v@),
            r is None ==> config_get(self@, key@) is None,
    {
        match self.get_str(key) {
            Some(v) => Some(crate::text::owned(v)),
            None => None,
        }
    }
}

} // verus!
