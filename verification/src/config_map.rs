//! A map from setting names to values, for the salvo controller's free-form
//! configuration. Each name occurs once; the entries keep the order in which
//! names were first inserted.
use vstd::prelude::*;
use vstd::string::*;
use crate::text::str_equal;

verus! {

/// The names and values of `entries` as a map; a later entry for a name wins.
pub open spec fn entries_map(entries: Seq<(String, String)>) -> Map<Seq<char>, Seq<char>>
    decreases entries.len(),
{
    if entries.len() == 0 {
        Map::empty()
    } else {
        entries_map(entries.drop_last()).insert(entries.last().0@, entries.last().1@)
    }
}

/// No name occurs twice in `entries`.
pub open spec fn names_distinct(entries: Seq<(String, String)>) -> bool {
    forall|i: int, j: int|
        0 <= i < entries.len() && 0 <= j < entries.len() && i != j ==> #[trigger] entries[i].0@
            != #[trigger] entries[j].0@
}

proof fn lemma_entries_map_has(entries: Seq<(String, String)>, j: int)
    requires
        names_distinct(entries),
        0 <= j < entries.len(),
    ensures
        entries_map(entries).contains_key(entries[j].0@),
        entries_map(entries)[entries[j].0@] == entries[j].1@,
    decreases entries.len(),
{
    let last = entries.len() - 1;
    if j < last {
        let init = entries.drop_last();
        assert(init[j] == entries[j]);
        assert forall|a: int, b: int|
            0 <= a < init.len() && 0 <= b < init.len() && a != b implies #[trigger] init[a].0@
            != #[trigger] init[b].0@ by {
            assert(init[a] == entries[a] && init[b] == entries[b]);
        }
        lemma_entries_map_has(init, j);
        assert(entries[last].0@ != entries[j].0@);
    }
}

proof fn lemma_entries_map_lacks(entries: Seq<(String, String)>, name: Seq<char>)
    requires
        forall|j: int| 0 <= j < entries.len() ==> #[trigger] entries[j].0@ != name,
    ensures
        !entries_map(entries).contains_key(name),
    decreases entries.len(),
{
    if entries.len() > 0 {
        let init = entries.drop_last();
        assert forall|j: int| 0 <= j < init.len() implies #[trigger] init[j].0@ != name by {
            assert(init[j] == entries[j]);
        }
        lemma_entries_map_lacks(init, name);
    }
}

proof fn lemma_entries_map_update(entries: Seq<(String, String)>, j: int, entry: (String, String))
    requires
        names_distinct(entries),
        0 <= j < entries.len(),
        entry.0@ == entries[j].0@,
    ensures
        entries_map(entries.update(j, entry)) == entries_map(entries).insert(entry.0@, entry.1@),
    decreases entries.len(),
{
    let last = entries.len() - 1;
    let updated = entries.update(j, entry);
    if j == last {
        assert(updated.drop_last() =~= entries.drop_last());
        assert(entries_map(updated) =~= entries_map(entries).insert(entry.0@, entry.1@));
    } else {
        let init = entries.drop_last();
        assert forall|a: int, b: int|
            0 <= a < init.len() && 0 <= b < init.len() && a != b implies #[trigger] init[a].0@
            != #[trigger] init[b].0@ by {
            assert(init[a] == entries[a] && init[b] == entries[b]);
        }
        assert(init[j] == entries[j]);
        lemma_entries_map_update(init, j, entry);
        assert(updated.drop_last() =~= init.update(j, entry));
        assert(updated.last() == entries.last());
        assert(entries[last].0@ != entries[j].0@);
        assert(entries_map(updated) =~= entries_map(entries).insert(entry.0@, entry.1@));
    }
}

/// What `serde_json::to_string_pretty` writes for a `BTreeMap<&str, &str>`
/// holding these settings: a JSON object whose members come in the order of
/// their names.
pub uninterp spec fn settings_json(settings: Map<Seq<char>, Seq<char>>) -> Seq<char>;

/// Setting names and their values.
pub struct ConfigMap {
    entries: Vec<(String, String)>,
}

impl View for ConfigMap {
    type V = Map<Seq<char>, Seq<char>>;

    closed spec fn view(&self) -> Map<Seq<char>, Seq<char>> {
        entries_map(self.entries@)
    }
}

impl ConfigMap {
    #[verifier::type_invariant]
    closed spec fn wf(self) -> bool {
        names_distinct(self.entries@)
    }

    /// The entries, in the order in which their names were first inserted.
    pub closed spec fn entries_view(self) -> Seq<(String, String)> {
        self.entries@
    }

    pub fn new() -> (res: ConfigMap)
        ensures
            res@ == Map::<Seq<char>, Seq<char>>::empty(),
    {
        ConfigMap { entries: Vec::new() }
    }

    pub fn entries(&self) -> (res: &Vec<(String, String)>)
        ensures
            res@ == self.entries_view(),
            entries_map(res@) == self@,
            names_distinct(res@),
    {
        proof {
            use_type_invariant(self);
        }
        &self.entries
    }

    fn position(&self, name: &str) -> (res: Option<usize>)
        ensures
            match res {
                Some(j) => j < self.entries@.len() && self.entries@[j as int].0@ == name@,
                None => forall|j: int| 0 <= j < self.entries@.len() ==> #[trigger] self.entries@[j].0@ != name@,
            },
    {
        let mut i: usize = 0;
        while i < self.entries.len()
            invariant
                i <= self.entries@.len(),
                forall|j: int| 0 <= j < i ==> #[trigger] self.entries@[j].0@ != name@,
            decreases self.entries@.len() - i,
        {
            if str_equal(self.entries[i].0.as_str(), name) {
                return Some(i);
            }
            i = i + 1;
        }
        None
    }

    /// The value of `name`, if it is set.
    pub fn get(&self, name: &str) -> (res: Option<&String>)
        ensures
            match res {
                Some(v) => self@.contains_key(name@) && self@[name@] == v@,
                None => !self@.contains_key(name@),
            },
    {
        proof {
            use_type_invariant(self);
        }
        match self.position(name) {
            Some(j) => {
                proof {
                    lemma_entries_map_has(self.entries@, j as int);
                }
                Some(&self.entries[j].1)
            },
            None => {
                proof {
                    lemma_entries_map_lacks(self.entries@, name@);
                }
                None
            },
        }
    }

    /// Sets `name` to `value`.
    pub fn insert(&mut self, name: String, value: String)
        ensures
            final(self)@ == old(self)@.insert(name@, value@),
    {
        proof {
            use_type_invariant(&*self);
        }
        match self.position(name.as_str()) {
            Some(j) => {
                let ghost before = self.entries@;
                proof {
                    lemma_entries_map_update(before, j as int, (name, value));
                }
                let mut entries: Vec<(String, String)> = Vec::new();
                std::mem::swap(&mut entries, &mut self.entries);
                entries.set(j, (name, value));
                proof {
                    assert forall|a: int, b: int|
                        0 <= a < entries@.len() && 0 <= b < entries@.len() && a != b implies #[trigger] entries@[a].0@
                        != #[trigger] entries@[b].0@ by {
                        assert(entries@[a].0@ == before[a].0@ && entries@[b].0@ == before[b].0@);
                    }
                }
                self.entries = entries;
            },
            None => {
                let ghost before = self.entries@;
                let mut entries: Vec<(String, String)> = Vec::new();
                std::mem::swap(&mut entries, &mut self.entries);
                entries.push((name, value));
                proof {
                    assert(entries@.drop_last() =~= before);
                    assert forall|a: int, b: int|
                        0 <= a < entries@.len() && 0 <= b < entries@.len() && a != b implies #[trigger] entries@[a].0@
                        != #[trigger] entries@[b].0@ by {
                        if a < before.len() {
                            assert(entries@[a] == before[a]);
                        }
                        if b < before.len() {
                            assert(entries@[b] == before[b]);
                        }
                    }
                }
                self.entries = entries;
            },
        }
    }
}

/// Serialises the settings with `serde_json::to_string_pretty`, through a
/// `BTreeMap<&str, &str>`. Claims that this succeeds (serde_json fails only for
/// map keys that are not strings and for writer errors, and its string writer
/// does not fail) and that the text is the one `settings_json` names for these
/// settings, which the sorted map makes a function of the settings alone.
#[verifier::external_body]
pub(crate) fn settings_to_json(settings: &ConfigMap) -> (res: Result<String, serde_json::Error>)
    ensures
        res is Ok,
        res matches Ok(json) ==> json@ == settings_json(settings@),
{
    let map: std::collections::BTreeMap<&str, &str> =
        settings.entries.iter().map(|(k, v)| (k.as_str(), v.as_str())).collect();
    serde_json::to_string_pretty(&map)
}

} // verus!
