//! Per-button configuration: a map from setting name to a small tagged value.
use vstd::prelude::*;
use crate::text::text_eq;

verus! {

/// One configured value.
pub enum SettingValue {
    Text(String),
    Number(i64),
    Flag(bool),
    /// A value of any other shape (a list, an object, a fraction, null).
    Other,
}

/// A button's settings. Keys are unique.
pub struct Settings {
    pub entries: Vec<(String, SettingValue)>,
}

/// The value stored under `key` in a list of entries, if any (the first one).
pub open spec fn lookup(entries: Seq<(String, SettingValue)>, key: Seq<char>) -> Option<SettingValue>
    decreases entries.len(),
{
    if entries.len() == 0 {
        None
    } else if entries[0].0@ == key {
        Some(entries[0].1)
    } else {
        lookup(entries.drop_first(), key)
    }
}

/// The text stored under `key`, or the empty text when the key is missing or
/// holds a value that is not text.
pub open spec fn text_or_empty(entries: Seq<(String, SettingValue)>, key: Seq<char>) -> Seq<char> {
    match lookup(entries, key) {
        Some(SettingValue::Text(s)) => s@,
        _ => Seq::empty(),
    }
}

/// The text under `key`, with `default` substituted when that is empty.
pub open spec fn text_or_default(
    entries: Seq<(String, SettingValue)>,
    key: Seq<char>,
    default: Seq<char>,
) -> Seq<char> {
    if text_or_empty(entries, key).len() == 0 {
        default
    } else {
        text_or_empty(entries, key)
    }
}

impl Settings {
    /// No key occurs twice.
    pub open spec fn wf(&self) -> bool {
        forall|i: int, j: int|
            0 <= i < j < self.entries@.len() ==> self.entries@[i].0@ != self.entries@[j].0@
    }

    /// Settings without any entry.
    pub fn new() -> (r: Settings)
        ensures
            r.wf(),
            r.entries@.len() == 0,
            forall|k: Seq<char>| lookup(r.entries@, k) is None,
    {
        Settings { entries: Vec::new() }
    }

    /// Position of `key` among the entries, if present.
    fn position(&self, key: &str) -> (r: Option<usize>)
        ensures
            match r {
                Some(i) => i < self.entries@.len() && self.entries@[i as int].0@ == key@
                    && forall|j: int| 0 <= j < i ==> self.entries@[j].0@ != key@,
                None => forall|j: int| 0 <= j < self.entries@.len() ==> self.entries@[j].0@ != key@,
            },
    {
        let mut i: usize = 0;
        while i < self.entries.len()
            invariant
                i <= self.entries@.len(),
                forall|j: int| 0 <= j < i ==> self.entries@[j].0@ != key@,
            decreases self.entries@.len() - i,
        {
            if text_eq(self.entries[i].0.as_str(), key) {
                return Some(i);
            }
            i = i + 1;
        }
        None
    }

    /// Stores `value` under `key`, replacing what was there.
    pub fn insert(&mut self, key: String, value: SettingValue)
        requires
            old(self).wf(),
        ensures
            final(self).wf(),
            lookup(final(self).entries@, key@) == Some(value),
            forall|k: Seq<char>| k != key@ ==> lookup(final(self).entries@, k) == lookup(old(self).entries@, k),
    {
        let pos = self.position(key.as_str());
        match pos {
            Some(i) => {
                let ghost before = self.entries@;
                let _ = self.entries.remove(i);
                self.entries.insert(i, (key, value));
                proof {
                    lemma_lookup_update(before, i as int, self.entries@);
                }
            },
            None => {
                let ghost before = self.entries@;
                self.entries.push((key, value));
                proof {
                    lemma_lookup_push(before, self.entries@);
                }
            },
        }
    }
}

proof fn lemma_lookup_unfold(entries: Seq<(String, SettingValue)>, key: Seq<char>)
    ensures
        entries.len() == 0 ==> lookup(entries, key) is None,
        entries.len() > 0 && entries[0].0@ == key ==> lookup(entries, key) == Some(entries[0].1),
        entries.len() > 0 && entries[0].0@ != key ==> lookup(entries, key) == lookup(entries.drop_first(), key),
{
}

/// Replacing the entry at `i` by one with the same key changes only that key.
proof fn lemma_lookup_update(before: Seq<(String, SettingValue)>, i: int, after: Seq<(String, SettingValue)>)
    requires
        0 <= i < before.len(),
        after.len() == before.len(),
        after[i].0@ == before[i].0@,
        forall|j: int| 0 <= j < before.len() && j != i ==> after[j] == before[j],
        forall|j: int| 0 <= j < i ==> before[j].0@ != before[i].0@,
    ensures
        lookup(after, after[i].0@) == Some(after[i].1),
        forall|k: Seq<char>| k != after[i].0@ ==> lookup(after, k) == lookup(before, k),
    decreases before.len(),
{
    if i > 0 {
        lemma_lookup_update(before.drop_first(), i - 1, after.drop_first());
        assert(after.drop_first()[i - 1] == after[i]);
        assert forall|k: Seq<char>| k != after[i].0@ implies lookup(after, k) == lookup(before, k) by {
            assert(after[0] == before[0]);
            lemma_lookup_unfold(after, k);
            lemma_lookup_unfold(before, k);
        }
    } else {
        assert(after.drop_first() =~= before.drop_first());
        assert forall|k: Seq<char>| k != after[i].0@ implies lookup(after, k) == lookup(before, k) by {
            assert(after[0].0@ == before[0].0@);
            lemma_lookup_unfold(after, k);
            lemma_lookup_unfold(before, k);
        }
    }
}

/// Appending an entry whose key is new.
proof fn lemma_lookup_push(before: Seq<(String, SettingValue)>, after: Seq<(String, SettingValue)>)
    requires
        after.len() == before.len() + 1,
        forall|j: int| 0 <= j < before.len() ==> after[j] == before[j],
        forall|j: int| 0 <= j < before.len() ==> before[j].0@ != after[before.len() as int].0@,
    ensures
        lookup(after, after[before.len() as int].0@) == Some(after[before.len() as int].1),
        forall|k: Seq<char>| k != after[before.len() as int].0@ ==> lookup(after, k) == lookup(before, k),
    decreases before.len(),
{
    let n = before.len() as int;
    if n > 0 {
        lemma_lookup_push(before.drop_first(), after.drop_first());
        assert(after.drop_first()[n - 1] == after[n]);
        assert forall|k: Seq<char>| k != after[n].0@ implies lookup(after, k) == lookup(before, k) by {
            assert(after[0] == before[0]);
            lemma_lookup_unfold(after, k);
            lemma_lookup_unfold(before, k);
        }
    } else {
        assert forall|k: Seq<char>| k != after[n].0@ implies lookup(after, k) == lookup(before, k) by {
            assert(after.drop_first().len() == 0);
            lemma_lookup_unfold(after, k);
            lemma_lookup_unfold(after.drop_first(), k);
        }
    }
}

/// The text stored under `key`, if the key is present and holds text.
pub open spec fn text_of(entries: Seq<(String, SettingValue)>, key: Seq<char>) -> Option<String> {
    match lookup(entries, key) {
        Some(SettingValue::Text(s)) => Some(s),
        _ => None,
    }
}

/// The text stored under `key`, if the key is present and holds text.
pub fn get_text(map: &Settings, key: &str) -> (r: Option<String>)
    ensures
        r == text_of(map.entries@, key@),
{
    let mut i: usize = 0;
    assert(map.entries@.subrange(0, map.entries@.len() as int) =~= map.entries@);
    while i < map.entries.len()
        invariant
            i <= map.entries@.len(),
            lookup(map.entries@, key@) == lookup(map.entries@.subrange(i as int, map.entries@.len() as int), key@),
        decreases map.entries@.len() - i,
    {
        let ghost rest = map.entries@.subrange(i as int, map.entries@.len() as int);
        assert(rest.drop_first() =~= map.entries@.subrange(i + 1, map.entries@.len() as int));
        if text_eq(map.entries[i].0.as_str(), key) {
            return match &map.entries[i].1 {
                SettingValue::Text(s) => Some(s.clone()),
                _ => None,
            };
        }
        i = i + 1;
    }
    None
}

/// The text stored under `key`, or the empty string when the key is missing
/// or holds a value that is not text.
pub fn get_value_or_empty(map: &Settings, key: &str) -> (r: String)
    ensures
        r@ == text_or_empty(map.entries@, key@),
{
    match get_text(map, key) {
        Some(s) => s,
        None => String::new(),
    }
}

/// The text under `key`, or `default` when that text is empty.
pub fn get_value_or_default(map: &Settings, key: &str, default: &str) -> (r: String)
    ensures
        r@ == text_or_default(map.entries@, key@, default@),
{
    let v = get_value_or_empty(map, key);
    if v.as_str().is_empty() {
        String::from_str(default)
    } else {
        v
    }
}

} // verus!
