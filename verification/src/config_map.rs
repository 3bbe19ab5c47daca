//! A flat key space of configuration values, as one source contributes it.

use crate::text::same_text;
use vstd::prelude::*;

verus! {

/// What a flat key space denotes: a mapping from keys to values.
pub type Mapping = Map<Seq<char>, Seq<char>>;

/// One key with the value bound to it.
#[derive(Debug)]
struct Entry {
    key: String,
    value: String,
}

/// The mapping that a run of entries denotes: an entry overrides every
/// earlier entry with the same key.
spec fn entries_view(entries: Seq<Entry>) -> Mapping
    decreases entries.len(),
{
    if entries.len() == 0 {
        Map::empty()
    } else {
        entries_view(entries.drop_last()).insert(entries.last().key@, entries.last().value@)
    }
}

/// Appending one run of entries to another overlays the second mapping on the first.
proof fn lemma_entries_view_concat(a: Seq<Entry>, b: Seq<Entry>)
    ensures
        entries_view(a + b) == entries_view(a).union_prefer_right(entries_view(b)),
    decreases b.len(),
{
    if b.len() == 0 {
        assert(a + b == a);
        assert(entries_view(a).union_prefer_right(Map::empty()) == entries_view(a));
    } else {
        let b0 = b.drop_last();
        lemma_entries_view_concat(a, b0);
        assert((a + b).drop_last() == a + b0);
        assert((a + b).last() == b.last());
        assert(entries_view(a).union_prefer_right(entries_view(b0)).insert(
            b.last().key@,
            b.last().value@,
        ) == entries_view(a).union_prefer_right(entries_view(b)));
    }
}

/// A flat mapping from configuration keys to values.
#[derive(Debug)]
pub struct ConfigMap {
    entries: Vec<Entry>,
}

impl View for ConfigMap {
    type V = Mapping;

    closed spec fn view(&self) -> Mapping {
        entries_view(self.entries@)
    }
}

impl DeepView for ConfigMap {
    type V = Mapping;

    open spec fn deep_view(&self) -> Mapping {
        self@
    }
}

impl ConfigMap {
    /// The empty mapping.
    pub fn new() -> (m: ConfigMap)
        ensures
            m@ == Mapping::empty(),
    {
        ConfigMap { entries: Vec::new() }
    }

    /// Binds `key` to `value`, replacing what `key` was bound to.
    pub fn insert(&mut self, key: String, value: String)
        ensures
            final(self)@ == old(self)@.insert(key@, value@),
    {
        let ghost before = self.entries@;
        self.entries.push(Entry { key, value });
        proof {
            assert(self.entries@.drop_last() == before);
        }
    }

    /// The value bound to `key`, if there is one.
    pub fn get(&self, key: &str) -> (r: Option<&String>)
        ensures
            r.deep_view() == self@.get(key@),
    {
        let mut i: usize = self.entries.len();
        proof {
            assert(self.entries@.take(i as int) == self.entries@);
        }
        while i > 0
            invariant
                i <= self.entries.len(),
                self@.contains_key(key@) == entries_view(self.entries@.take(i as int)).contains_key(
                    key@,
                ),
                self@.contains_key(key@) ==> self@[key@] == entries_view(
                    self.entries@.take(i as int),
                )[key@],
            decreases i,
        {
            proof {
                let head = self.entries@.take(i as int);
                assert(head.drop_last() == self.entries@.take(i - 1));
                assert(head.last() == self.entries@[i - 1]);
            }
            i = i - 1;
            if same_text(self.entries[i].key.as_str(), key) {
                return Some(&self.entries[i].value);
            }
        }
        None
    }

    /// Whether `key` is bound.
    pub fn contains_key(&self, key: &str) -> (r: bool)
        ensures
            r == self@.contains_key(key@),
    {
        self.get(key).is_some()
    }

    /// Lays `upper` over this mapping: a key of `upper` takes `upper`'s value,
    /// every other key keeps its own.
    pub fn overlay(&mut self, upper: &ConfigMap)
        ensures
            final(self)@ == old(self)@.union_prefer_right(upper@),
    {
        let ghost before = self.entries@;
        let mut i: usize = 0;
        while i < upper.entries.len()
            invariant
                i <= upper.entries.len(),
                self.entries@ == before + upper.entries@.take(i as int),
            decreases upper.entries.len() - i,
        {
            let entry = &upper.entries[i];
            self.entries.push(Entry { key: entry.key.clone(), value: entry.value.clone() });
            proof {
                assert(upper.entries@.take(i + 1) == upper.entries@.take(i as int).push(
                    upper.entries@[i as int],
                ));
            }
            i = i + 1;
        }
        proof {
            assert(upper.entries@.take(i as int) == upper.entries@);
            lemma_entries_view_concat(before, upper.entries@);
        }
    }
}

} // verus!
