use vstd::prelude::*;

verus! {

/// A node of a generic hierarchical document, as a YAML or JSON loader hands it over.
pub enum Value {
    Null,
    Bool(bool),
    Int(i64),
    Real(String),
    Str(String),
    List(Vec<Value>),
    Mapping(Vec<(Value, Value)>),
}

/// Whether `k` is the string key `key`.
pub open spec fn is_key(k: Value, key: Seq<char>) -> bool {
    match k {
        Value::Str(s) => s@ == key,
        _ => false,
    }
}

/// The first position at or after `i` whose key is `key`.
pub open spec fn find_from(entries: Seq<(Value, Value)>, key: Seq<char>, i: int) -> Option<int>
    decreases entries.len() - i,
{
    if i < 0 || i >= entries.len() {
        None
    } else if is_key(entries[i].0, key) {
        Some(i)
    } else {
        find_from(entries, key, i + 1)
    }
}

/// The value stored under the first occurrence of `key` among `entries`.
pub open spec fn entry(entries: Seq<(Value, Value)>, key: Seq<char>) -> Option<Value> {
    match find_from(entries, key, 0) {
        Some(i) => if 0 <= i < entries.len() {
            Some(entries[i].1)
        } else {
            None
        },
        None => None,
    }
}

/// The value under `key` when `v` is a mapping.
pub open spec fn lookup(v: Value, key: Seq<char>) -> Option<Value> {
    match v {
        Value::Mapping(entries) => entry(entries@, key),
        _ => None,
    }
}

/// The text under `key` when `v` is a mapping and that entry is a string.
pub open spec fn lookup_text(v: Value, key: Seq<char>) -> Option<Seq<char>> {
    match lookup(v, key) {
        Some(Value::Str(s)) => Some(s@),
        _ => None,
    }
}

pub proof fn lemma_find_in_range(entries: Seq<(Value, Value)>, key: Seq<char>, i: int)
    requires
        0 <= i,
    ensures
        match find_from(entries, key, i) {
            Some(k) => i <= k < entries.len() && is_key(entries[k].0, key),
            None => true,
        },
    decreases entries.len() - i,
{
    if i < entries.len() && !is_key(entries[i].0, key) {
        lemma_find_in_range(entries, key, i + 1);
    }
}

/// Compares two texts character by character.
pub fn same_text(a: &str, b: &str) -> (r: bool)
    ensures
        r == (a@ == b@),
{
    let n = a.unicode_len();
    if n != b.unicode_len() {
        return false;
    }
    let mut i: usize = 0;
    while i < n
        invariant
            n == a@.len(),
            n == b@.len(),
            i <= n,
            forall|j: int| 0 <= j < i ==> a@[j] == b@[j],
        decreases n - i,
    {
        if a.get_char(i) != b.get_char(i) {
            return false;
        }
        i = i + 1;
    }
    assert(a@ =~= b@);
    true
}

/// Whether `k` is the string key `key`.
pub fn key_matches(k: &Value, key: &str) -> (r: bool)
    ensures
        r == is_key(*k, key@),
{
    match k {
        Value::Str(s) => same_text(s.as_str(), key),
        _ => false,
    }
}

/// The position of the first entry whose key is `key`.
pub fn find_key(entries: &Vec<(Value, Value)>, key: &str) -> (r: Option<usize>)
    ensures
        r matches Some(i) ==> find_from(entries@, key@, 0) == Some(i as int) && i < entries@.len(),
        r is None ==> find_from(entries@, key@, 0) is None,
{
    let mut i: usize = 0;
    while i < entries.len()
        invariant
            i <= entries@.len(),
            find_from(entries@, key@, 0) == find_from(entries@, key@, i as int),
        decreases entries.len() - i,
    {
        if key_matches(&entries[i].0, key) {
            proof {
                lemma_find_in_range(entries@, key@, i as int);
            }
            return Some(i);
        }
        i = i + 1;
    }
    None
}

impl Value {
    /// The value under `key` when this is a mapping.
    pub fn get(&self, key: &str) -> (r: Option<&Value>)
        ensures
            r is Some == lookup(*self, key@) is Some,
            r matches Some(x) ==> *x == lookup(*self, key@)->Some_0,
    {
        match self {
            Value::Mapping(entries) => match find_key(entries, key) {
                Some(i) => Some(&entries[i].1),
                None => None,
            },
            _ => None,
        }
    }

    /// The text under `key` when this is a mapping and that entry is a string.
    pub fn get_text(&self, key: &str) -> (r: Option<&String>)
        ensures
            r is Some == lookup_text(*self, key@) is Some,
            r matches Some(x) ==> x@ == lookup_text(*self, key@)->Some_0,
    {
        match self.get(key) {
            Some(Value::Str(s)) => Some(s),
            _ => None,
        }
    }
}

} // verus!
