//! The argument map passed to tools and prompts.
use vstd::prelude::*;

use crate::error::Error;
use crate::json::{number_as_i64, JsonValue};
use crate::map::StrMap;

verus! {

/// Generic argument map used for passing parameters to tools and prompts.
#[derive(Debug)]
pub struct Arguments(pub StrMap<JsonValue>);

/// The text of the error for a value that is neither an object nor null.
pub open spec fn not_a_struct_text() -> Seq<char> {
    "arguments must be a struct"@
}

impl Arguments {
    /// Well-formedness: the underlying map has distinct keys.
    pub open spec fn wf(self) -> bool {
        self.0.wf()
    }

    /// The value stored under `key`, if any.
    pub open spec fn spec_get(self, key: Seq<char>) -> Option<JsonValue> {
        self.0.spec_get(key)
    }

    /// Creates an empty argument set.
    pub fn new() -> (a: Arguments)
        ensures
            a.wf(),
            a.0.entries().len() == 0,
    {
        Arguments(StrMap::new())
    }

    /// Builds arguments from a serialized value: an object gives its members,
    /// `null` gives no arguments, anything else is refused.
    pub fn from_json(value: JsonValue) -> (r: Result<Arguments, Error>)
        requires
            value matches JsonValue::Object(m) ==> m.wf(),
        ensures
            match value {
                JsonValue::Object(m) => r == Ok::<Arguments, Error>(Arguments(m)),
                JsonValue::Null => r matches Ok(a) && a.wf() && a.0.entries().len() == 0,
                _ => r matches Err(Error::JsonParse { message }) && message@
                    == not_a_struct_text(),
            },
    {
        match value {
            JsonValue::Object(m) => Ok(Arguments(m)),
            JsonValue::Null => Ok(Arguments::new()),
            _ => Err(Error::JsonParse { message: "arguments must be a struct".to_string() }),
        }
    }

    /// Inserts a single key/value pair, returning the updated arguments.
    pub fn set(self, key: &str, value: JsonValue) -> (r: Arguments)
        requires
            self.wf(),
        ensures
            r.wf(),
            r.spec_get(key@) == Some(value),
            forall|k: Seq<char>| k != key@ ==> #[trigger] r.spec_get(k) == self.spec_get(k),
    {
        let mut m = self.0;
        m.insert(key.to_string(), value);
        Arguments(m)
    }

    /// The raw JSON value for a key.
    pub fn get_value(&self, key: &str) -> (r: Option<&JsonValue>)
        requires
            self.wf(),
        ensures
            match r {
                Some(v) => self.spec_get(key@) == Some(*v),
                None => self.spec_get(key@) is None,
            },
    {
        self.0.get(key)
    }

    /// A string value by key: present when the key holds a JSON string.
    pub fn get_string(&self, key: &str) -> (r: Option<String>)
        requires
            self.wf(),
        ensures
            match self.spec_get(key@) {
                Some(JsonValue::String(s)) => r matches Some(t) && t@ == s@,
                _ => r is None,
            },
    {
        match self.0.get(key) {
            Some(v) => v.to_string_value(),
            None => None,
        }
    }

    /// An i64 value by key: present when the key holds a JSON integer that fits.
    pub fn get_i64(&self, key: &str) -> (r: Option<i64>)
        requires
            self.wf(),
        ensures
            match self.spec_get(key@) {
                Some(JsonValue::Number(n)) => r == number_as_i64(n),
                _ => r is None,
            },
    {
        match self.0.get(key) {
            Some(v) => v.to_i64_value(),
            None => None,
        }
    }

    /// A bool value by key: present when the key holds a JSON boolean.
    pub fn get_bool(&self, key: &str) -> (r: Option<bool>)
        requires
            self.wf(),
        ensures
            match self.spec_get(key@) {
                Some(JsonValue::Bool(b)) => r == Some(b),
                _ => r is None,
            },
    {
        match self.0.get(key) {
            Some(v) => v.to_bool_value(),
            None => None,
        }
    }

    /// Builds arguments from string pairs; each value becomes a JSON string,
    /// and a later pair replaces an earlier one with the same key.
    pub fn from_string_pairs(pairs: Vec<(String, String)>) -> (r: Arguments)
        ensures
            r.wf(),
            forall|k: Seq<char>|
                #![trigger r.spec_get(k)]
                (exists|i: int| 0 <= i < pairs@.len() && pairs@[i].0@ == k) <==> r.spec_get(k)
                    is Some,
            forall|i: int|
                #![trigger pairs@[i]]
                0 <= i < pairs@.len() && (forall|j: int|
                    i < j < pairs@.len() ==> pairs@[j].0@ != pairs@[i].0@) ==> (r.spec_get(
                    pairs@[i].0@,
                ) matches Some(JsonValue::String(s)) && s@ == pairs@[i].1@),
    {
        let mut m: StrMap<JsonValue> = StrMap::new();
        let ghost all = pairs@;
        let n = pairs.len();
        let mut idx: usize = 0;
        while idx < n
            invariant
                n == pairs@.len() == all.len(),
                pairs@ == all,
                idx <= n,
                m.wf(),
                forall|k: Seq<char>|
                    #![trigger m.spec_get(k)]
                    (exists|i: int| 0 <= i < idx && all[i].0@ == k) <==> m.spec_get(k) is Some,
                forall|i: int|
                    #![trigger all[i]]
                    0 <= i < idx && (forall|j: int| i < j < idx ==> all[j].0@ != all[i].0@) ==> (
                    m.spec_get(all[i].0@) matches Some(JsonValue::String(s)) && s@ == all[i].1@),
            decreases n - idx,
        {
            let pair: &(String, String) = &pairs[idx];
            let k: String = pair.0.clone();
            let v: String = pair.1.clone();
            assert(*pair == all[idx as int]);
            assert(k == pair.0);
            let ghost before = m;
            assert(k@ == all[idx as int].0@);
            let ghost kk = k@;
            m.insert(k, JsonValue::String(v));
            assert(forall|key: Seq<char>| key != kk ==> #[trigger] m.spec_get(key) == before.spec_get(key));
            proof {
                assert forall|key: Seq<char>|
                    #![trigger m.spec_get(key)]
                    (exists|i: int| 0 <= i < idx + 1 && all[i].0@ == key) <==> m.spec_get(key)
                        is Some by {
                    if key != all[idx as int].0@ {
                        assert(m.spec_get(key) == before.spec_get(key));
                        if exists|i: int| 0 <= i < idx + 1 && all[i].0@ == key {
                            let i = choose|i: int| 0 <= i < idx + 1 && all[i].0@ == key;
                            assert(i < idx);
                        }
                    } else {
                        assert(all[idx as int].0@ == key);
                    }
                }
                assert forall|i: int|
                    #![trigger all[i]]
                    0 <= i < idx + 1 && (forall|j: int| i < j < idx + 1 ==> all[j].0@ != all[i].0@)
                        implies (m.spec_get(all[i].0@) matches Some(JsonValue::String(s)) && s@
                    == all[i].1@) by {
                    if i < idx {
                        assert(all[idx as int].0@ != all[i].0@);
                        assert(m.spec_get(all[i].0@) == before.spec_get(all[i].0@));
                    }
                }
            }
            idx = idx + 1;
        }
        Arguments(m)
    }
}

} // verus!
