//! A JSON-shaped tagged value: the open attribute model behind every
//! resource. Objects are key/value pair lists in which the newest entry for a
//! key shadows older ones, so `set_entry` behaves exactly like a map insert.

use vstd::prelude::*;

verus! {

/// One key/value entry of a JSON object.
#[derive(Debug, PartialEq, Eq)]
pub struct JsonEntry {
    pub key: String,
    pub value: JsonValue,
}

/// A JSON-like value: null, boolean, integer, string, array or object.
#[derive(Debug, PartialEq, Eq)]
pub enum JsonValue {
    Null,
    Bool(bool),
    Int(i64),
    Str(String),
    Arr(Vec<JsonValue>),
    Obj(Vec<JsonEntry>),
}

/// The value bound to `key` in a pair list: the earliest entry wins, so a
/// pair list is read as a map whose older duplicates are shadowed.
pub open spec fn lookup_pairs(s: Seq<JsonEntry>, key: Seq<char>) -> Option<JsonValue>
    decreases s.len(),
{
    if s.len() == 0 {
        None
    } else if s[0].key@ == key {
        Some(s[0].value)
    } else {
        lookup_pairs(s.drop_first(), key)
    }
}

impl JsonValue {
    /// The value bound to `key`, or `None` when this value is not an object
    /// or has no entry for `key`.
    pub open spec fn entry_spec(self, key: Seq<char>) -> Option<JsonValue> {
        match self {
            JsonValue::Obj(m) => lookup_pairs(m@, key),
            _ => None,
        }
    }

    /// Looks `key` up in an object. `None` both when this value is not an
    /// object and when the key is absent.
    pub fn get_entry(&self, key: &str) -> (r: Option<&JsonValue>)
        ensures
            match r {
                Some(v) => self.entry_spec(key@) == Some(*v),
                None => self.entry_spec(key@) is None,
            },
    {
        match self {
            JsonValue::Obj(m) => {
                let k = key.to_owned();
                let n = m.len();
                let mut i: usize = 0;
                proof {
                    assert(m@.skip(0) =~= m@);
                }
                while i < n
                    invariant
                        n == m@.len(),
                        i <= n,
                        k@ == key@,
                        self.entry_spec(key@) == lookup_pairs(m@, key@),
                        lookup_pairs(m@.skip(i as int), key@) == lookup_pairs(m@, key@),
                    decreases n - i,
                {
                    let pair = &m[i];
                    if pair.key == k {
                        proof {
                            assert(m@.skip(i as int).len() == n - i);
                            assert(m@.skip(i as int)[0] == m@[i as int]);
                            assert(lookup_pairs(m@.skip(i as int), key@) == Some(
                                m@[i as int].value,
                            ));
                        }
                        return Some(&pair.value);
                    }
                    proof {
                        assert(m@.skip(i as int).len() == n - i);
                        assert(m@.skip(i as int)[0] == m@[i as int]);
                        assert(lookup_pairs(m@.skip(i as int), key@) == lookup_pairs(
                            m@.skip(i as int).drop_first(),
                            key@,
                        ));
                        assert(m@.skip(i as int).drop_first() =~= m@.skip(i + 1));
                    }
                    i = i + 1;
                }
                assert(m@.skip(n as int) =~= Seq::<JsonEntry>::empty());
                None
            },
            _ => None,
        }
    }

    /// Binds `key` to `value` in an object, shadowing any previous entry.
    pub fn set_entry(&mut self, key: &str, value: JsonValue)
        requires
            *old(self) is Obj,
        ensures
            *final(self) is Obj,
            forall|k: Seq<char>|
                #[trigger] final(self).entry_spec(k) == if k == key@ {
                    Some(value)
                } else {
                    old(self).entry_spec(k)
                },
    {
        let ghost v = value;
        match self {
            JsonValue::Obj(m) => {
                m.insert(0, JsonEntry { key: key.to_owned(), value });
                proof {
                    let prev = (*old(self))->Obj_0@;
                    assert(m@[0].key@ == key@);
                    assert(m@.drop_first() =~= prev);
                    assert forall|k: Seq<char>| #[trigger] lookup_pairs(m@, k) == if k == key@ {
                        Some(v)
                    } else {
                        lookup_pairs(prev, k)
                    } by {
                        if k == key@ {
                            assert(lookup_pairs(m@, k) == Some(m@[0].value));
                        } else {
                            assert(lookup_pairs(m@, k) == lookup_pairs(m@.drop_first(), k));
                        }
                    };
                }
            },
            _ => {},
        }
    }

    /// The string bound to `key`; `None` when the key is absent or its value
    /// is not a string.
    pub fn get_str_entry(&self, key: &str) -> (r: Option<String>)
        ensures
            match r {
                Some(s) => self.entry_spec(key@) matches Some(JsonValue::Str(v)) && v@ == s@,
                None => !(self.entry_spec(key@) matches Some(JsonValue::Str(_))),
            },
    {
        match self.get_entry(key) {
            Some(JsonValue::Str(s)) => Some(s.clone()),
            _ => None,
        }
    }

    /// The boolean bound to `key`; `None` when absent or not a boolean.
    pub fn get_bool_entry(&self, key: &str) -> (r: Option<bool>)
        ensures
            match r {
                Some(b) => self.entry_spec(key@) == Some(JsonValue::Bool(b)),
                None => !(self.entry_spec(key@) matches Some(JsonValue::Bool(_))),
            },
    {
        match self.get_entry(key) {
            Some(JsonValue::Bool(b)) => Some(*b),
            _ => None,
        }
    }

    /// The integer bound to `key`; `None` when absent or not an integer.
    pub fn get_int_entry(&self, key: &str) -> (r: Option<i64>)
        ensures
            match r {
                Some(n) => self.entry_spec(key@) == Some(JsonValue::Int(n)),
                None => !(self.entry_spec(key@) matches Some(JsonValue::Int(_))),
            },
    {
        match self.get_entry(key) {
            Some(JsonValue::Int(n)) => Some(*n),
            _ => None,
        }
    }

    /// An empty JSON object.
    pub fn empty_object() -> (r: JsonValue)
        ensures
            r is Obj,
            forall|k: Seq<char>| #[trigger] r.entry_spec(k) is None,
    {
        JsonValue::Obj(Vec::new())
    }
}

/// Builds a JSON object from string pairs, later pairs shadowing earlier
/// ones with the same key, exactly as repeated `set_entry` calls would.
pub open spec fn object_of_strings_spec(pairs: Seq<(String, String)>, k: Seq<char>) -> Option<
    JsonValue,
>
    decreases pairs.len(),
{
    if pairs.len() == 0 {
        None
    } else if pairs.last().0@ == k {
        Some(JsonValue::Str(pairs.last().1))
    } else {
        object_of_strings_spec(pairs.drop_last(), k)
    }
}

/// Turns a list of string pairs into a JSON object of string entries; a
/// later pair wins over an earlier one with the same key.
pub fn object_of_strings(pairs: &Vec<(String, String)>) -> (r: JsonValue)
    ensures
        r is Obj,
        forall|k: Seq<char>| #[trigger] r.entry_spec(k) == object_of_strings_spec(pairs@, k),
{
    let mut out = JsonValue::empty_object();
    let n = pairs.len();
    let mut i: usize = 0;
    while i < n
        invariant
            n == pairs@.len(),
            i <= n,
            out is Obj,
            forall|k: Seq<char>| #[trigger] out.entry_spec(k) == object_of_strings_spec(
                pairs@.take(i as int),
                k,
            ),
        decreases n - i,
    {
        let key = pairs[i].0.clone();
        let val = pairs[i].1.clone();
        out.set_entry(key.as_str(), JsonValue::Str(val));
        assert(pairs@.take(i + 1).drop_last() =~= pairs@.take(i as int));
        assert(pairs@.take(i + 1).last() == pairs@[i as int]);
        i = i + 1;
    }
    assert(pairs@.take(n as int) =~= pairs@);
    out
}

} // verus!
