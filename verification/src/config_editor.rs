//! The environment editor: rows of key and value that the user edits, and
//! the configuration that saving them writes.
use vstd::prelude::*;
use crate::config::{ConfigFile, EnvMap, insert_sorted, keys_ascending};
use crate::text::{chars_of, string_from_range, trim, trim_bounds};

verus! {

/// One row of the key-value editor.
pub struct Entry {
    pub key: String,
    pub value: String,
}

impl Entry {
    /// The row as a pair of texts.
    pub open spec fn pair(self) -> (Seq<char>, Seq<char>) {
        (self.key@, self.value@)
    }
}

/// The rows as pairs of texts.
pub open spec fn rows(entries: Seq<Entry>) -> Seq<(Seq<char>, Seq<char>)> {
    entries.map_values(|e: Entry| e.pair())
}

/// What the user does in the editor.
pub enum Message {
    Back,
    AddEntry,
    RemoveEntry(usize),
    EditKey(usize, String),
    EditValue(usize, String),
}

/// The environment that saving `rows` writes: each row in turn sets its
/// trimmed key to its value; a row whose trimmed key is empty is skipped,
/// and a later row overrides an earlier one with the same key.
pub open spec fn saved_environment(rows: Seq<(Seq<char>, Seq<char>)>) -> Seq<(Seq<char>, Seq<char>)>
    decreases rows.len(),
{
    if rows.len() == 0 {
        Seq::empty()
    } else {
        let before = saved_environment(rows.drop_last());
        let key = trim(rows.last().0);
        if key.len() > 0 {
            insert_sorted(before, key, rows.last().1)
        } else {
            before
        }
    }
}

/// The runtime state of the editor screen.
pub struct State {
    pub entries: Vec<Entry>,
    pub original_config: ConfigFile,
}

impl State {
    /// The editor for `config`: one row per environment variable, in key
    /// order.
    pub fn new(config: ConfigFile) -> (s: State)
        ensures
            rows(s.entries@) == config.environment@,
            keys_ascending(rows(s.entries@)),
            s.original_config == config,
    {
        let pairs = config.environment.entries();
        let ghost env = config.environment@;
        let mut entries: Vec<Entry> = Vec::new();
        let mut i: usize = 0;
        while i < pairs.len()
            invariant
                i <= pairs@.len(),
                env == pairs@.map_values(|p: (String, String)| (p.0@, p.1@)),
                rows(entries@) == env.take(i as int),
            decreases pairs@.len() - i,
        {
            let key = pairs[i].0.clone();
            let value = pairs[i].1.clone();
            let ghost before = rows(entries@);
            entries.push(Entry { key, value });
            assert(rows(entries@) =~= before.push(env[i as int]));
            assert(env.take(i + 1) =~= env.take(i as int).push(env[i as int]));
            i = i + 1;
        }
        assert(env.take(pairs@.len() as int) =~= env);
        State { entries, original_config: config }
    }

    /// The configuration that saving the rows writes: the editor's
    /// configuration with its environment replaced by `saved_environment`.
    pub fn save(&self) -> (c: ConfigFile)
        ensures
            c.settings.game_path@ == self.original_config.settings.game_path@,
            c.environment@ == saved_environment(rows(self.entries@)),
            keys_ascending(c.environment@),
    {
        let mut config = self.original_config.duplicate();
        let mut env = EnvMap::new();
        let ghost rs = rows(self.entries@);
        let mut i: usize = 0;
        assert(rs.take(0) =~= Seq::<(Seq<char>, Seq<char>)>::empty());
        while i < self.entries.len()
            invariant
                i <= self.entries@.len(),
                rs == rows(self.entries@),
                env@ == saved_environment(rs.take(i as int)),
                keys_ascending(env@),
            decreases self.entries@.len() - i,
        {
            let entry = &self.entries[i];
            let key_chars = chars_of(entry.key.as_str());
            let (a, b) = trim_bounds(&key_chars);
            assert(rs.take(i + 1).drop_last() =~= rs.take(i as int));
            assert(rs.take(i + 1).last() == (entry.key@, entry.value@));
            if a < b {
                let key = string_from_range(&key_chars, a, b);
                env.insert(key, entry.value.clone());
            }
            i = i + 1;
        }
        assert(rs.take(self.entries@.len() as int) =~= rs);
        config.environment = env;
        config
    }

    /// Appends an empty row.
    pub fn add_entry(&mut self)
        ensures
            rows(final(self).entries@) == rows(old(self).entries@).push(
                (Seq::<char>::empty(), Seq::<char>::empty()),
            ),
            final(self).original_config == old(self).original_config,
    {
        let ghost before = rows(self.entries@);
        self.entries.push(Entry { key: String::new(), value: String::new() });
        assert(rows(self.entries@) =~= before.push((Seq::<char>::empty(), Seq::<char>::empty())));
    }

    /// Removes row `index`.
    pub fn remove_entry(&mut self, index: usize)
        requires
            index < old(self).entries@.len(),
        ensures
            rows(final(self).entries@) == rows(old(self).entries@).remove(index as int),
            final(self).original_config == old(self).original_config,
    {
        let ghost before = rows(self.entries@);
        let _ = self.entries.remove(index);
        assert(rows(self.entries@) =~= before.remove(index as int));
    }

    /// Sets the key of row `index` to `key`; nothing changes where there is
    /// no such row.
    pub fn edit_key(&mut self, index: usize, key: String)
        ensures
            rows(final(self).entries@) == (if index < old(self).entries@.len() {
                rows(old(self).entries@).update(index as int, (key@, old(self).entries@[index as int].value@))
            } else {
                rows(old(self).entries@)
            }),
            final(self).original_config == old(self).original_config,
    {
        if index < self.entries.len() {
            let ghost before = rows(self.entries@);
            let value = self.entries[index].value.clone();
            self.entries.set(index, Entry { key, value });
            assert(rows(self.entries@) =~= before.update(index as int, (key@, value@)));
        }
    }

    /// Sets the value of row `index` to `value`; nothing changes where
    /// there is no such row.
    pub fn edit_value(&mut self, index: usize, value: String)
        ensures
            rows(final(self).entries@) == (if index < old(self).entries@.len() {
                rows(old(self).entries@).update(index as int, (old(self).entries@[index as int].key@, value@))
            } else {
                rows(old(self).entries@)
            }),
            final(self).original_config == old(self).original_config,
    {
        if index < self.entries.len() {
            let ghost before = rows(self.entries@);
            let key = self.entries[index].key.clone();
            self.entries.set(index, Entry { key, value });
            assert(rows(self.entries@) =~= before.update(index as int, (key@, value@)));
        }
    }
}

} // verus!
