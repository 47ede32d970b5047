//! A weakly-typed associative document, the library's model of the opaque
//! provider-specific parameter bags and of JSON request/response bodies.
//!
//! Numbers carry no floating point: integral numbers are `Int`, fractional
//! numbers are `Dec`, a fixed-point value in hundredths (so `Dec(75)` stands
//! for 0.75). The embedding application converts between this document type
//! and its wire representation.

use vstd::prelude::*;
use crate::strutil::str_eq;

verus! {

/// One node of a parameter document.
#[derive(Debug, PartialEq)]
pub enum ParamValue {
    Null,
    Bool(bool),
    /// An integral number.
    Int(i64),
    /// A fractional number, in hundredths.
    Dec(i64),
    Str(String),
    Arr(Vec<ParamValue>),
    Obj(Vec<(String, ParamValue)>),
}

/// The value for `key` in an entry list: the first entry whose key matches.
/// Well-formed documents carry each key at most once, so this is the map
/// lookup of the object.
pub open spec fn spec_lookup(entries: Seq<(String, ParamValue)>, key: Seq<char>) -> Option<
    ParamValue,
>
    decreases entries.len(),
{
    if entries.len() == 0 {
        None
    } else if entries[0].0@ == key {
        Some(entries[0].1)
    } else {
        spec_lookup(entries.drop_first(), key)
    }
}

/// Field access: `Some` exactly when `v` is an object carrying `key`.
pub open spec fn spec_get(v: ParamValue, key: Seq<char>) -> Option<ParamValue> {
    match v {
        ParamValue::Obj(entries) => spec_lookup(entries@, key),
        _ => None,
    }
}

/// The string content of `v`, if `v` is a string node.
pub open spec fn spec_as_str(v: ParamValue) -> Option<Seq<char>> {
    match v {
        ParamValue::Str(s) => Some(s@),
        _ => None,
    }
}

/// String field of `v` with a default: the default applies when the field is
/// absent or is not a string.
pub open spec fn spec_str_or(v: ParamValue, key: Seq<char>, default: Seq<char>) -> Seq<char> {
    match spec_get(v, key) {
        Some(ParamValue::Str(s)) => s@,
        _ => default,
    }
}

/// Optional string field of `v`: `Some` exactly when the field is present
/// and is a string.
pub open spec fn spec_opt_str(v: ParamValue, key: Seq<char>) -> Option<Seq<char>> {
    match spec_get(v, key) {
        Some(ParamValue::Str(s)) => Some(s@),
        _ => None,
    }
}

/// Non-negative integer field of `v` with a default: the default applies
/// when the field is absent, not integral, or negative.
pub open spec fn spec_u64_or(v: ParamValue, key: Seq<char>, default: u64) -> u64 {
    match spec_get(v, key) {
        Some(ParamValue::Int(i)) => if i >= 0 {
            i as u64
        } else {
            default
        },
        _ => default,
    }
}

/// Integer field of `v` with a default.
pub open spec fn spec_i64_or(v: ParamValue, key: Seq<char>, default: i64) -> i64 {
    match spec_get(v, key) {
        Some(ParamValue::Int(i)) => i,
        _ => default,
    }
}

/// The largest integer whose value in hundredths still fits the fixed-point
/// range.
pub const CENTI_BOUND: i64 = 92233720368547758;

/// Fixed-point (hundredths) field of `v` with a default (also in
/// hundredths). A `Dec` node is read directly; an integral node is scaled,
/// when the scaling fits; anything else falls back to the default.
pub open spec fn spec_centi_or(v: ParamValue, key: Seq<char>, default: i64) -> i64 {
    match spec_get(v, key) {
        Some(ParamValue::Dec(d)) => d,
        Some(ParamValue::Int(i)) => if -CENTI_BOUND <= i <= CENTI_BOUND {
            (i * 100) as i64
        } else {
            default
        },
        _ => default,
    }
}

/// The value of a node as a non-negative integer, with a default.
pub open spec fn spec_val_u64_or(v: ParamValue, default: u64) -> u64 {
    match v {
        ParamValue::Int(i) => if i >= 0 {
            i as u64
        } else {
            default
        },
        _ => default,
    }
}

/// Boolean field of `v` with a default.
pub open spec fn spec_bool_or(v: ParamValue, key: Seq<char>, default: bool) -> bool {
    match spec_get(v, key) {
        Some(ParamValue::Bool(b)) => b,
        _ => default,
    }
}

/// Lookup yields the entry at `i` when every earlier key differs.
pub proof fn lemma_lookup_at(entries: Seq<(String, ParamValue)>, key: Seq<char>, i: int)
    requires
        0 <= i < entries.len(),
        forall|j: int| 0 <= j < i ==> entries[j].0@ != key,
        entries[i].0@ == key,
    ensures
        spec_lookup(entries, key) == Some(entries[i].1),
    decreases i,
{
    if i == 0 {
    } else {
        assert(entries.drop_first()[i - 1].0@ == key);
        lemma_lookup_at(entries.drop_first(), key, i - 1);
    }
}

/// Lookup misses when every key differs.
pub proof fn lemma_lookup_none(entries: Seq<(String, ParamValue)>, key: Seq<char>)
    requires
        forall|j: int| 0 <= j < entries.len() ==> entries[j].0@ != key,
    ensures
        spec_lookup(entries, key) is None,
    decreases entries.len(),
{
    if entries.len() > 0 {
        lemma_lookup_none(entries.drop_first(), key);
    }
}

/// Entry `i` of an object's entry list maps `key` to exactly `v`.
pub open spec fn spec_entry(
    es: Seq<(String, ParamValue)>,
    i: int,
    key: Seq<char>,
    v: ParamValue,
) -> bool {
    0 <= i < es.len() && es[i].0@ == key && es[i].1 == v
}

/// Entry `i` of an object's entry list maps `key` to the string `val`.
pub open spec fn spec_entry_str(
    es: Seq<(String, ParamValue)>,
    i: int,
    key: Seq<char>,
    val: Seq<char>,
) -> bool {
    0 <= i < es.len() && es[i].0@ == key && spec_as_str(es[i].1) == Some(val)
}

impl ParamValue {
    /// An object with no fields.
    pub fn empty_obj() -> (r: ParamValue)
        ensures
            (r matches ParamValue::Obj(es) && es@.len() == 0),
            forall|k: Seq<char>| spec_get(r, k) is None,
    {
        let entries: Vec<(String, ParamValue)> = Vec::new();
        proof {
            assert forall|k: Seq<char>| spec_get(ParamValue::Obj(entries), k) is None by {
                lemma_lookup_none(entries@, k);
            }
        }
        ParamValue::Obj(entries)
    }

    /// Field access, as `serde`-style `get`.
    pub fn get<'a>(&'a self, key: &str) -> (r: Option<&'a ParamValue>)
        ensures
            match r {
                Some(p) => spec_get(*self, key@) == Some(*p),
                None => spec_get(*self, key@) is None,
            },
    {
        match self {
            ParamValue::Obj(entries) => {
                let n = entries.len();
                let mut i: usize = 0;
                while i < n
                    invariant
                        *self == ParamValue::Obj(*entries),
                        n == entries.len(),
                        i <= n,
                        forall|j: int| 0 <= j < i ==> entries@[j].0@ != key@,
                    decreases n - i,
                {
                    if str_eq(entries[i].0.as_str(), key) {
                        proof {
                            lemma_lookup_at(entries@, key@, i as int);
                        }
                        return Some(&entries[i].1);
                    }
                    i += 1;
                }
                proof {
                    lemma_lookup_none(entries@, key@);
                }
                None
            },
            _ => None,
        }
    }

    /// The string content, if this node is a string.
    pub fn as_str(&self) -> (r: Option<&String>)
        ensures
            match r {
                Some(s) => spec_as_str(*self) == Some(s@),
                None => spec_as_str(*self) is None,
            },
    {
        match self {
            ParamValue::Str(s) => Some(s),
            _ => None,
        }
    }

    /// String field with a default, applied when the field is absent or not
    /// a string.
    pub fn str_or(&self, key: &str, default: &str) -> (r: String)
        ensures
            r@ == spec_str_or(*self, key@, default@),
    {
        match self.get(key) {
            Some(ParamValue::Str(s)) => s.clone(),
            _ => String::from_str(default),
        }
    }

    /// Optional string field.
    pub fn opt_str(&self, key: &str) -> (r: Option<String>)
        ensures
            match r {
                Some(s) => spec_opt_str(*self, key@) == Some(s@),
                None => spec_opt_str(*self, key@) is None,
            },
    {
        match self.get(key) {
            Some(ParamValue::Str(s)) => Some(s.clone()),
            _ => None,
        }
    }

    /// Non-negative integer field with a default.
    pub fn u64_or(&self, key: &str, default: u64) -> (r: u64)
        ensures
            r == spec_u64_or(*self, key@, default),
    {
        match self.get(key) {
            Some(ParamValue::Int(i)) => {
                if *i >= 0 {
                    *i as u64
                } else {
                    default
                }
            },
            _ => default,
        }
    }

    /// Integer field with a default.
    pub fn i64_or(&self, key: &str, default: i64) -> (r: i64)
        ensures
            r == spec_i64_or(*self, key@, default),
    {
        match self.get(key) {
            Some(ParamValue::Int(i)) => *i,
            _ => default,
        }
    }

    /// Fixed-point (hundredths) field with a default in hundredths.
    pub fn centi_or(&self, key: &str, default: i64) -> (r: i64)
        ensures
            r == spec_centi_or(*self, key@, default),
    {
        match self.get(key) {
            Some(ParamValue::Dec(d)) => *d,
            Some(ParamValue::Int(i)) => {
                if -CENTI_BOUND <= *i && *i <= CENTI_BOUND {
                    *i * 100
                } else {
                    default
                }
            },
            _ => default,
        }
    }

    /// This node as a non-negative integer, with a default.
    pub fn val_u64_or(&self, default: u64) -> (r: u64)
        ensures
            r == spec_val_u64_or(*self, default),
    {
        match self {
            ParamValue::Int(i) => {
                if *i >= 0 {
                    *i as u64
                } else {
                    default
                }
            },
            _ => default,
        }
    }

    /// Boolean field with a default.
    pub fn bool_or(&self, key: &str, default: bool) -> (r: bool)
        ensures
            r == spec_bool_or(*self, key@, default),
    {
        match self.get(key) {
            Some(ParamValue::Bool(b)) => *b,
            _ => default,
        }
    }

    /// Removes and returns the value for `key`, leaving the other fields in
    /// place. `None` when this node is not an object or lacks the field.
    pub fn take(&mut self, key: &str) -> (r: Option<ParamValue>)
        ensures
            match r {
                Some(p) => spec_get(*old(self), key@) == Some(p),
                None => spec_get(*old(self), key@) is None,
            },
    {
        match self {
            ParamValue::Obj(entries) => {
                let n = entries.len();
                let mut i: usize = 0;
                while i < n
                    invariant
                        *old(self) == ParamValue::Obj(*entries),
                        n == entries.len(),
                        i <= n,
                        forall|j: int| 0 <= j < i ==> entries@[j].0@ != key@,
                    decreases n - i,
                {
                    if str_eq(entries[i].0.as_str(), key) {
                        proof {
                            lemma_lookup_at(entries@, key@, i as int);
                        }
                        let entry = entries.remove(i);
                        return Some(entry.1);
                    }
                    i += 1;
                }
                proof {
                    lemma_lookup_none(entries@, key@);
                }
                None
            },
            _ => None,
        }
    }
}

/// An entry for an object under construction, with the key's view pinned.
pub fn kv(key: &str, v: ParamValue) -> (r: (String, ParamValue))
    ensures
        r.0@ == key@,
        r.1 == v,
{
    (String::from_str(key), v)
}

/// A string node built from a slice.
pub fn str_node(s: &str) -> (r: ParamValue)
    ensures
        r is Str,
        spec_as_str(r) == Some(s@),
{
    ParamValue::Str(String::from_str(s))
}

} // verus!
