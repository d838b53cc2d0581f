use vstd::prelude::*;

verus! {

/// A JSON number as the metadata store keeps it: a non-negative integer, a
/// negative integer, or a finite float held by its IEEE-754 bit pattern.
#[derive(Debug)]
pub enum JsonNumber {
    PosInt(u64),
    NegInt(i64),
    Float(u64),
}

/// A JSON value. An object keeps its entries in order; a key is looked up at
/// its first occurrence.
#[derive(Debug)]
pub enum Json {
    Null,
    Bool(bool),
    Number(JsonNumber),
    String(String),
    Array(Vec<Json>),
    Object(Vec<(String, Json)>),
}

impl JsonNumber {
    /// The number as a `u64`, where it is a whole number in `u64`'s range.
    pub open spec fn u64_value(self) -> Option<u64> {
        match self {
            JsonNumber::PosInt(n) => Some(n),
            JsonNumber::NegInt(i) => if i >= 0 { Some(i as u64) } else { None },
            JsonNumber::Float(_) => None,
        }
    }

    pub fn as_u64(&self) -> (r: Option<u64>)
        ensures
            r == self.u64_value(),
    {
        match self {
            JsonNumber::PosInt(n) => Some(*n),
            JsonNumber::NegInt(i) => if *i >= 0 { Some(*i as u64) } else { None },
            JsonNumber::Float(_) => None,
        }
    }
}

/// The entries of an object with each key taken by its characters.
pub open spec fn keyed(entries: Seq<(String, Json)>) -> Seq<(Seq<char>, Json)> {
    entries.map_values(|e: (String, Json)| (e.0@, e.1))
}

/// The position of the first entry under `key`.
pub open spec fn key_position(entries: Seq<(Seq<char>, Json)>, key: Seq<char>) -> Option<int>
    decreases entries.len(),
{
    if entries.len() == 0 {
        None
    } else if entries[0].0 == key {
        Some(0)
    } else {
        match key_position(entries.drop_first(), key) {
            Some(i) => Some(i + 1),
            None => None,
        }
    }
}

/// The value stored under `key`: that of its first entry.
pub open spec fn entry_value(entries: Seq<(Seq<char>, Json)>, key: Seq<char>) -> Option<Json> {
    match key_position(entries, key) {
        Some(i) => Some(entries[i].1),
        None => None,
    }
}

/// The entries after storing `value` under `key`: the first entry under `key`
/// gets the value in place, or, with no such entry, a new one is appended.
pub open spec fn with_entry(entries: Seq<(Seq<char>, Json)>, key: Seq<char>, value: Json) -> Seq<
    (Seq<char>, Json),
> {
    match key_position(entries, key) {
        Some(i) => entries.update(i, (key, value)),
        None => entries.push((key, value)),
    }
}

/// No key occurs twice.
pub open spec fn distinct_keys(entries: Seq<(Seq<char>, Json)>) -> bool {
    forall|i: int, j: int|
        0 <= i < entries.len() && 0 <= j < entries.len() && i != j ==> entries[i].0 != entries[j].0
}

/// `key_position` finds the first entry whose key matches, and none when no
/// key matches.
pub proof fn lemma_key_position(entries: Seq<(Seq<char>, Json)>, key: Seq<char>)
    ensures
        match key_position(entries, key) {
            Some(i) => {
                &&& 0 <= i < entries.len()
                &&& entries[i].0 == key
                &&& forall|j: int| 0 <= j < i ==> entries[j].0 != key
            },
            None => forall|j: int| 0 <= j < entries.len() ==> entries[j].0 != key,
        },
    decreases entries.len(),
{
    if entries.len() > 0 && entries[0].0 != key {
        lemma_key_position(entries.drop_first(), key);
        let rest = entries.drop_first();
        assert forall|j: int| 1 <= j < entries.len() implies entries[j] == rest[j - 1] by {}
    }
}

/// The first entry under `key` is the one at `p` where that entry has the key
/// and none before it does.
pub proof fn lemma_key_position_at(entries: Seq<(Seq<char>, Json)>, key: Seq<char>, p: int)
    requires
        0 <= p < entries.len(),
        entries[p].0 == key,
        forall|j: int| 0 <= j < p ==> entries[j].0 != key,
    ensures
        key_position(entries, key) == Some(p),
{
    lemma_key_position(entries, key);
}

/// No entry is found under a key that no entry has.
pub proof fn lemma_key_position_none(entries: Seq<(Seq<char>, Json)>, key: Seq<char>)
    requires
        forall|j: int| 0 <= j < entries.len() ==> entries[j].0 != key,
    ensures
        key_position(entries, key) is None,
{
    lemma_key_position(entries, key);
}

/// After storing `value` under `key`, the key gives back `value`, and every
/// other key gives what it gave before.
pub proof fn law_with_entry_lookup(entries: Seq<(Seq<char>, Json)>, key: Seq<char>, value: Json, other: Seq<char>)
    ensures
        entry_value(with_entry(entries, key, value), key) == Some(value),
        other != key ==> entry_value(with_entry(entries, key, value), other) == entry_value(entries, other),
{
    let after = with_entry(entries, key, value);
    lemma_key_position(entries, key);
    lemma_key_position(entries, other);
    match key_position(entries, key) {
        Some(i) => {
            lemma_key_position_at(after, key, i);
            if other != key {
                match key_position(entries, other) {
                    Some(p) => {
                        lemma_key_position_at(after, other, p);
                    },
                    None => {
                        lemma_key_position_none(after, other);
                    },
                }
            }
        },
        None => {
            lemma_key_position_at(after, key, entries.len() as int);
            if other != key {
                match key_position(entries, other) {
                    Some(p) => {
                        lemma_key_position_at(after, other, p);
                    },
                    None => {
                        lemma_key_position_none(after, other);
                    },
                }
            }
        },
    }
}

/// Storing a value keeps the keys of an object distinct.
pub proof fn law_with_entry_distinct(entries: Seq<(Seq<char>, Json)>, key: Seq<char>, value: Json)
    requires
        distinct_keys(entries),
    ensures
        distinct_keys(with_entry(entries, key, value)),
{
    lemma_key_position(entries, key);
    let after = with_entry(entries, key, value);
    match key_position(entries, key) {
        Some(i) => {
            assert forall|j: int| 0 <= j < after.len() implies after[j].0 == entries[j].0 by {}
        },
        None => {
            assert forall|j: int| 0 <= j < entries.len() implies after[j] == entries[j] by {}
        },
    }
}

/// Storing under a key twice leaves what storing the second value alone
/// leaves.
pub proof fn law_with_entry_overwrite(entries: Seq<(Seq<char>, Json)>, key: Seq<char>, first: Json, second: Json)
    ensures
        with_entry(with_entry(entries, key, first), key, second) == with_entry(entries, key, second),
{
    lemma_key_position(entries, key);
    let once = with_entry(entries, key, first);
    match key_position(entries, key) {
        Some(i) => {
            lemma_key_position_at(once, key, i);
            assert(with_entry(once, key, second) =~= with_entry(entries, key, second));
        },
        None => {
            lemma_key_position_at(once, key, entries.len() as int);
            assert(with_entry(once, key, second) =~= with_entry(entries, key, second));
        },
    }
}

/// No key is found among no entries.
pub proof fn lemma_no_entries(key: Seq<char>)
    ensures
        entry_value(Seq::<(Seq<char>, Json)>::empty(), key) is None,
{
}

impl Json {
    /// The entries of an object; nothing for any other value.
    pub open spec fn entries(self) -> Seq<(Seq<char>, Json)> {
        match self {
            Json::Object(e) => keyed(e@),
            _ => Seq::empty(),
        }
    }

    /// What `get` finds under `key`: nothing unless the value is an object.
    pub open spec fn lookup(self, key: Seq<char>) -> Option<Json> {
        if self is Object {
            entry_value(self.entries(), key)
        } else {
            None
        }
    }

    /// The value as a `u64`, where it is a number that is one.
    pub open spec fn u64_value(self) -> Option<u64> {
        match self {
            Json::Number(n) => n.u64_value(),
            _ => None,
        }
    }

    pub fn is_object(&self) -> (b: bool)
        ensures
            b == (*self is Object),
    {
        match self {
            Json::Object(_) => true,
            _ => false,
        }
    }

    pub fn as_u64(&self) -> (r: Option<u64>)
        ensures
            r == self.u64_value(),
    {
        match self {
            Json::Number(n) => n.as_u64(),
            _ => None,
        }
    }

    /// The value under `key` of an object, at the key's first entry.
    pub fn get(&self, key: &str) -> (r: Option<&Json>)
        ensures
            match r {
                Some(v) => self.lookup(key@) == Some(*v),
                None => self.lookup(key@) is None,
            },
    {
        match self {
            Json::Object(entries) => {
                let pos = find_key(entries, key);
                proof {
                    lemma_key_position(keyed(entries@), key@);
                }
                match pos {
                    Some(i) => Some(&entries[i].1),
                    None => None,
                }
            },
            _ => None,
        }
    }
}

/// The position of the first entry under `key`.
pub fn find_key(entries: &Vec<(String, Json)>, key: &str) -> (r: Option<usize>)
    ensures
        match r {
            Some(i) => key_position(keyed(entries@), key@) == Some(i as int),
            None => key_position(keyed(entries@), key@) is None,
        },
{
    let target = key.to_owned();
    let ghost kv = keyed(entries@);
    proof {
        lemma_key_position(kv, key@);
    }
    let mut i: usize = 0;
    while i < entries.len()
        invariant
            i <= entries.len(),
            kv == keyed(entries@),
            target@ == key@,
            forall|j: int| 0 <= j < i ==> kv[j].0 != key@,
            match key_position(kv, key@) {
                Some(p) => {
                    &&& 0 <= p < kv.len()
                    &&& kv[p].0 == key@
                    &&& forall|j: int| 0 <= j < p ==> kv[j].0 != key@
                },
                None => forall|j: int| 0 <= j < kv.len() ==> kv[j].0 != key@,
            },
        decreases entries.len() - i,
    {
        if entries[i].0 == target {
            assert(kv[i as int].0 == key@);
            return Some(i);
        }
        assert(kv[i as int].0 != key@);
        i = i + 1;
    }
    None
}

/// Stores `value` under `key`: over the first entry under `key`, or as a new
/// last entry.
pub fn insert_entry(entries: &mut Vec<(String, Json)>, key: String, value: Json)
    ensures
        keyed(final(entries)@) == with_entry(keyed(old(entries)@), key@, value),
{
    let pos = find_key(entries, key.as_str());
    let ghost before = keyed(entries@);
    proof {
        lemma_key_position(before, key@);
    }
    match pos {
        Some(i) => {
            entries.remove(i);
            entries.insert(i, (key, value));
            assert(keyed(entries@) =~= before.update(i as int, (key@, value)));
        },
        None => {
            entries.push((key, value));
            assert(keyed(entries@) =~= before.push((key@, value)));
        },
    }
}

} // verus!
