//! A parameter bag: the JSON object of strategy parameters, as far as the
//! decision logic reads it.
//!
//! Each entry keeps what `serde_json::Value::as_bool`, `as_u64` and `as_str`
//! can see of a value; every other JSON value (null, negative or fractional
//! numbers, arrays, objects) is `Other`.  A key that is present with such a
//! value still counts as present, which matters where the logic falls back to
//! a second key only when the first one is absent.

use vstd::prelude::*;

verus! {

/// One parameter value.
pub enum ParamValue {
    Bool(bool),
    UInt(u64),
    Str(String),
    Other,
}

/// The parameter object: its entries in order, keys as given.
pub struct ParamBag {
    pub entries: Vec<(String, ParamValue)>,
}

/// The value stored under `key`: the first entry with that key.
pub open spec fn lookup(entries: Seq<(String, ParamValue)>, key: Seq<char>) -> Option<ParamValue>
    decreases entries.len(),
{
    if entries.len() == 0 {
        None
    } else if entries[0].0@ == key {
        Some(entries[0].1)
    } else {
        lookup(entries.drop_first(), key)
    }
}

/// Looking a key up finds the value of the first entry under that key, and
/// nothing when no entry has it.
pub proof fn lemma_lookup_finds_first_entry(entries: Seq<(String, ParamValue)>, key: Seq<char>)
    ensures
        lookup(entries, key) matches Some(v) ==> exists|i: int|
            0 <= i < entries.len() && (#[trigger] entries[i]).0@ == key && entries[i].1 == v && forall|j: int|
                0 <= j < i ==> (#[trigger] entries[j]).0@ != key,
        lookup(entries, key) is None ==> forall|i: int| 0 <= i < entries.len() ==> (#[trigger] entries[i]).0@ != key,
    decreases entries.len(),
{
    if entries.len() > 0 {
        let rest = entries.drop_first();
        lemma_lookup_finds_first_entry(rest, key);
        if entries[0].0@ == key {
            assert(entries[0].0@ == key);
        } else {
            if let Some(v) = lookup(rest, key) {
                let i = choose|i: int|
                    0 <= i < rest.len() && (#[trigger] rest[i]).0@ == key && rest[i].1 == v && forall|j: int|
                        0 <= j < i ==> (#[trigger] rest[j]).0@ != key;
                assert(entries[i + 1] == rest[i]);
                assert forall|j: int| 0 <= j < i + 1 implies (#[trigger] entries[j]).0@ != key by {
                    if j > 0 {
                        assert(entries[j] == rest[j - 1]);
                    }
                }
            } else {
                assert forall|i: int| 0 <= i < entries.len() implies (#[trigger] entries[i]).0@ != key by {
                    if i > 0 {
                        assert(entries[i] == rest[i - 1]);
                    }
                }
            }
        }
    }
}

/// `Value::as_bool`.
pub open spec fn value_as_bool(v: Option<ParamValue>) -> Option<bool> {
    match v {
        Some(ParamValue::Bool(b)) => Some(b),
        _ => None,
    }
}

/// `Value::as_u64`.
pub open spec fn value_as_u64(v: Option<ParamValue>) -> Option<u64> {
    match v {
        Some(ParamValue::UInt(n)) => Some(n),
        _ => None,
    }
}

/// `Value::as_str`, as characters.
pub open spec fn value_as_str(v: Option<ParamValue>) -> Option<Seq<char>> {
    match v {
        Some(ParamValue::Str(s)) => Some(s@),
        _ => None,
    }
}

impl ParamBag {
    /// An empty parameter object.
    pub fn new() -> (r: ParamBag)
        ensures
            r.entries@.len() == 0,
    {
        ParamBag { entries: Vec::new() }
    }

    /// Adds an entry at the end.
    pub fn push(&mut self, key: String, value: ParamValue)
        ensures
            final(self).entries@ == old(self).entries@.push((key, value)),
    {
        self.entries.push((key, value));
    }

    /// `params.get(key)`.
    pub fn get(&self, key: &str) -> (r: Option<&ParamValue>)
        ensures
            match r {
                Some(v) => lookup(self.entries@, key@) == Some(*v),
                None => lookup(self.entries@, key@) is None,
            },
    {
        let mut i: usize = 0;
        assert(self.entries@.skip(0) =~= self.entries@);
        while i < self.entries.len()
            invariant
                i <= self.entries@.len(),
                lookup(self.entries@, key@) == lookup(self.entries@.skip(i as int), key@),
            decreases self.entries@.len() - i,
        {
            let ghost rest = self.entries@.skip(i as int);
            if crate::text::str_eq(self.entries[i].0.as_str(), key) {
                return Some(&self.entries[i].1);
            }
            proof {
                assert(rest.drop_first() =~= self.entries@.skip(i + 1));
            }
            i = i + 1;
        }
        None
    }

    /// `params.get(key).and_then(Value::as_bool)`.
    pub fn get_bool(&self, key: &str) -> (r: Option<bool>)
        ensures
            r == value_as_bool(lookup(self.entries@, key@)),
    {
        match self.get(key) {
            Some(ParamValue::Bool(b)) => Some(*b),
            _ => None,
        }
    }

    /// `params.get(key).and_then(Value::as_u64)`.
    pub fn get_u64(&self, key: &str) -> (r: Option<u64>)
        ensures
            r == value_as_u64(lookup(self.entries@, key@)),
    {
        match self.get(key) {
            Some(ParamValue::UInt(n)) => Some(*n),
            _ => None,
        }
    }

    /// `params.get(key).and_then(Value::as_str)`.
    pub fn get_str(&self, key: &str) -> (r: Option<&str>)
        ensures
            match r {
                Some(s) => value_as_str(lookup(self.entries@, key@)) == Some(s@),
                None => value_as_str(lookup(self.entries@, key@)) is None,
            },
    {
        match self.get(key) {
            Some(ParamValue::Str(s)) => Some(s.as_str()),
            _ => None,
        }
    }
}

} // verus!
