//! The configuration file's model: the game path setting and the map of
//! environment variables, kept in key order as the file stores them.
use vstd::prelude::*;
use crate::text::{chars_of, has_prefix, owned};

verus! {

/// Lexicographic order of texts by code point, the order in which the
/// configuration's environment map keeps its keys.
pub open spec fn text_less(a: Seq<char>, b: Seq<char>) -> bool
    decreases a.len(),
{
    if a.len() == 0 {
        b.len() > 0
    } else if b.len() == 0 {
        false
    } else if a[0] == b[0] {
        text_less(a.drop_first(), b.drop_first())
    } else {
        a[0] < b[0]
    }
}

/// No text comes before itself.
pub proof fn lemma_text_less_irreflexive(a: Seq<char>)
    ensures
        !text_less(a, a),
    decreases a.len(),
{
    if a.len() > 0 {
        lemma_text_less_irreflexive(a.drop_first());
    }
}

/// Of two texts, at most one comes before the other.
pub proof fn lemma_text_less_asymmetric(a: Seq<char>, b: Seq<char>)
    ensures
        text_less(a, b) ==> !text_less(b, a),
    decreases a.len(),
{
    if a.len() > 0 && b.len() > 0 && a[0] == b[0] {
        lemma_text_less_asymmetric(a.drop_first(), b.drop_first());
    }
}

/// Of two different texts, one comes before the other.
pub proof fn lemma_text_less_total(a: Seq<char>, b: Seq<char>)
    ensures
        a != b ==> text_less(a, b) || text_less(b, a),
    decreases a.len(),
{
    if a.len() == 0 && b.len() == 0 {
        assert(a =~= b);
    } else if a.len() > 0 && b.len() > 0 && a[0] == b[0] {
        lemma_text_less_total(a.drop_first(), b.drop_first());
        if a.drop_first() == b.drop_first() {
            assert(a =~= seq![a[0]] + a.drop_first());
            assert(b =~= seq![b[0]] + b.drop_first());
        }
    }
}

/// Whether `a` comes before `b` (see `text_less`).
pub fn text_before(a: &str, b: &str) -> (r: bool)
    ensures
        r == text_less(a@, b@),
{
    let x = chars_of(a);
    let y = chars_of(b);
    let mut i: usize = 0;
    assert(x@.skip(0) =~= x@);
    assert(y@.skip(0) =~= y@);
    while i < x.len() && i < y.len()
        invariant
            i <= x@.len(),
            i <= y@.len(),
            x@ == a@,
            y@ == b@,
            text_less(a@, b@) == text_less(x@.skip(i as int), y@.skip(i as int)),
        decreases x@.len() - i,
    {
        if x[i] != y[i] {
            return x[i] < y[i];
        }
        assert(x@.skip(i as int).drop_first() =~= x@.skip(i + 1));
        assert(y@.skip(i as int).drop_first() =~= y@.skip(i + 1));
        i = i + 1;
    }
    x.len() - i == 0 && y.len() - i > 0
}

/// Each key comes before the next one.
pub open spec fn keys_ascending(s: Seq<(Seq<char>, Seq<char>)>) -> bool {
    forall|i: int| 0 <= i < s.len() - 1 ==> #[trigger] text_less(s[i].0, s[i + 1].0)
}

/// The key-ordered entries `s` after setting `key` to `value`: an entry
/// with that key gets the new value, otherwise a new entry goes where the
/// key belongs.
pub open spec fn insert_sorted(s: Seq<(Seq<char>, Seq<char>)>, key: Seq<char>, value: Seq<char>) -> Seq<
    (Seq<char>, Seq<char>),
>
    decreases s.len(),
{
    if s.len() == 0 {
        seq![(key, value)]
    } else if s[0].0 == key {
        seq![(key, value)] + s.drop_first()
    } else if text_less(key, s[0].0) {
        seq![(key, value)] + s
    } else {
        seq![s[0]] + insert_sorted(s.drop_first(), key, value)
    }
}

/// The key-ordered entries that setting each pair of `list` in turn gives,
/// starting from no entries (a later pair overrides an earlier one).
pub open spec fn from_pairs(list: Seq<(Seq<char>, Seq<char>)>) -> Seq<(Seq<char>, Seq<char>)>
    decreases list.len(),
{
    if list.len() == 0 {
        Seq::empty()
    } else {
        insert_sorted(from_pairs(list.drop_last()), list.last().0, list.last().1)
    }
}

/// Where the search for `key` stops, `insert_sorted` splices the entry in.
proof fn lemma_insert_sorted_at(
    s: Seq<(Seq<char>, Seq<char>)>,
    key: Seq<char>,
    value: Seq<char>,
    i: int,
)
    requires
        0 <= i <= s.len(),
        forall|j: int| 0 <= j < i ==> text_less(#[trigger] s[j].0, key),
        i < s.len() ==> !text_less(s[i].0, key),
    ensures
        insert_sorted(s, key, value) == (if i < s.len() && s[i].0 == key {
            s.take(i) + seq![(key, value)] + s.skip(i + 1)
        } else {
            s.take(i) + seq![(key, value)] + s.skip(i)
        }),
    decreases i,
{
    if i == 0 {
        if s.len() > 0 && s[0].0 != key {
            lemma_text_less_total(s[0].0, key);
        }
        assert(s.take(0) + seq![(key, value)] + s.skip(1) =~= seq![(key, value)] + s.drop_first());
        assert(s.take(0) + seq![(key, value)] + s.skip(0) =~= seq![(key, value)] + s);
    } else {
        lemma_text_less_irreflexive(key);
        lemma_text_less_asymmetric(s[0].0, key);
        assert(s[0].0 != key);
        let t = s.drop_first();
        assert forall|j: int| 0 <= j < i - 1 implies text_less(#[trigger] t[j].0, key) by {
            assert(t[j] == s[j + 1]);
        }
        lemma_insert_sorted_at(t, key, value, i - 1);
        if i < s.len() && s[i].0 == key {
            assert(s.take(i) + seq![(key, value)] + s.skip(i + 1) =~= seq![s[0]] + (t.take(i - 1)
                + seq![(key, value)] + t.skip(i)));
        } else {
            assert(s.take(i) + seq![(key, value)] + s.skip(i) =~= seq![s[0]] + (t.take(i - 1)
                + seq![(key, value)] + t.skip(i - 1)));
        }
    }
}

/// The environment variables of the configuration, one entry per key, in
/// ascending key order (the order of a `BTreeMap<String, String>`). The
/// entries are kept in a sorted vector: vstd's contracts for `BTreeMap`
/// hold only for key types known to obey its comparison specification,
/// which vstd does not establish for `String`.
pub struct EnvMap {
    entries: Vec<(String, String)>,
}

impl View for EnvMap {
    type V = Seq<(Seq<char>, Seq<char>)>;

    closed spec fn view(&self) -> Seq<(Seq<char>, Seq<char>)> {
        self.entries@.map_values(|p: (String, String)| (p.0@, p.1@))
    }
}

impl EnvMap {
    #[verifier::type_invariant]
    closed spec fn ascending(self) -> bool {
        keys_ascending(self@)
    }

    /// A map with no entries.
    pub fn new() -> (m: EnvMap)
        ensures
            m@ == Seq::<(Seq<char>, Seq<char>)>::empty(),
    {
        let m = EnvMap { entries: Vec::new() };
        assert(m@ =~= Seq::<(Seq<char>, Seq<char>)>::empty());
        m
    }

    /// The entries in ascending key order.
    pub fn entries(&self) -> (r: &Vec<(String, String)>)
        ensures
            r@.map_values(|p: (String, String)| (p.0@, p.1@)) == self@,
            keys_ascending(self@),
    {
        proof {
            use_type_invariant(self);
        }
        &self.entries
    }

    /// Number of entries.
    pub fn len(&self) -> (n: usize)
        ensures
            n == self@.len(),
    {
        self.entries.len()
    }

    /// Sets `key` to `value` (`BTreeMap::insert`).
    pub fn insert(&mut self, key: String, value: String)
        ensures
            final(self)@ == insert_sorted(old(self)@, key@, value@),
            keys_ascending(final(self)@),
    {
        proof {
            use_type_invariant(&*self);
        }
        let ghost s = self@;
        let ghost k = key@;
        let ghost v = value@;
        let mut i: usize = 0;
        while i < self.entries.len()
            invariant
                i <= self.entries@.len(),
                s == self@,
                s.len() == self.entries@.len(),
                k == key@,
                forall|j: int| 0 <= j < i ==> text_less(#[trigger] s[j].0, k),
            ensures
                i <= s.len(),
                forall|j: int| 0 <= j < i ==> text_less(#[trigger] s[j].0, k),
                i < s.len() ==> !text_less(s[i as int].0, k),
            decreases self.entries@.len() - i,
        {
            assert(s[i as int].0 == self.entries@[i as int].0@);
            if !text_before(self.entries[i].0.as_str(), key.as_str()) {
                break;
            }
            i = i + 1;
        }
        proof {
            if i < s.len() {
                assert(s[i as int].0 == self.entries@[i as int].0@);
            }
            lemma_insert_sorted_at(s, k, v, i as int);
        }
        let ghost result: Seq<(Seq<char>, Seq<char>)>;
        if i < self.entries.len() && self.entries[i].0 == key {
            let mut entries: Vec<(String, String)> = Vec::new();
            std::mem::swap(&mut entries, &mut self.entries);
            entries.set(i, (key, value));
            proof {
                result = s.take(i as int) + seq![(k, v)] + s.skip(i + 1);
                assert(entries@.map_values(|p: (String, String)| (p.0@, p.1@)) =~= result);
                assert forall|j: int| 0 <= j < result.len() - 1 implies #[trigger] text_less(
                    result[j].0,
                    result[j + 1].0,
                ) by {
                    assert(result[j].0 == s[j].0);
                    assert(result[j + 1].0 == s[j + 1].0);
                }
            }
            *self = EnvMap { entries };
        } else {
            let mut entries: Vec<(String, String)> = Vec::new();
            std::mem::swap(&mut entries, &mut self.entries);
            entries.insert(i, (key, value));
            proof {
                result = s.take(i as int) + seq![(k, v)] + s.skip(i as int);
                assert(entries@.map_values(|p: (String, String)| (p.0@, p.1@)) =~= result);
                if i < s.len() {
                    lemma_text_less_total(s[i as int].0, k);
                    assert(text_less(k, s[i as int].0));
                }
                if i > 0 {
                    assert(text_less(s[i - 1].0, k));
                }
                assert(result.len() == s.len() + 1);
                assert forall|j: int| 0 <= j < result.len() - 1 implies #[trigger] text_less(
                    result[j].0,
                    result[j + 1].0,
                ) by {
                    if j < i - 1 {
                        assert(result[j] == s[j] && result[j + 1] == s[j + 1]);
                        assert(text_less(s[j].0, s[j + 1].0));
                    } else if j == i - 1 {
                        assert(result[j] == s[j]);
                        assert(result[j + 1] == (k, v));
                    } else if j == i {
                        assert(result[j] == (k, v));
                        assert(result[j + 1] == s[j]);
                    } else {
                        assert(result[j] == s[j - 1] && result[j + 1] == s[j]);
                        let jj = j - 1;
                        assert(keys_ascending(s));
                        assert(text_less(s[jj].0, s[jj + 1].0));
                    }
                }
            }
            *self = EnvMap { entries };
        }
    }

    /// The map that setting each pair of `pairs` in turn gives, starting
    /// from no entries (`BTreeMap::from`).
    pub fn from_pairs(pairs: Vec<(String, String)>) -> (m: EnvMap)
        ensures
            m@ == from_pairs(pairs@.map_values(|p: (String, String)| (p.0@, p.1@))),
            keys_ascending(m@),
    {
        let ghost list = pairs@.map_values(|p: (String, String)| (p.0@, p.1@));
        let mut m = EnvMap::new();
        let mut i: usize = 0;
        assert(list.take(0) =~= Seq::<(Seq<char>, Seq<char>)>::empty());
        while i < pairs.len()
            invariant
                i <= pairs@.len(),
                list == pairs@.map_values(|p: (String, String)| (p.0@, p.1@)),
                m@ == from_pairs(list.take(i as int)),
            decreases pairs@.len() - i,
        {
            let k = pairs[i].0.clone();
            let v = pairs[i].1.clone();
            proof {
                assert(list.take(i + 1).drop_last() =~= list.take(i as int));
                assert(list.take(i + 1).last() == list[i as int]);
            }
            m.insert(k, v);
            i = i + 1;
        }
        assert(list.take(pairs@.len() as int) =~= list);
        proof {
            use_type_invariant(&m);
        }
        m
    }

    /// A copy of this map.
    pub fn duplicate(&self) -> (m: EnvMap)
        ensures
            m@ == self@,
    {
        proof {
            use_type_invariant(self);
        }
        let mut entries: Vec<(String, String)> = Vec::new();
        let mut i: usize = 0;
        while i < self.entries.len()
            invariant
                i <= self.entries@.len(),
                entries@.map_values(|p: (String, String)| (p.0@, p.1@)) == self@.take(i as int),
            decreases self.entries@.len() - i,
        {
            let k = self.entries[i].0.clone();
            let v = self.entries[i].1.clone();
            let ghost before = entries@.map_values(|p: (String, String)| (p.0@, p.1@));
            entries.push((k, v));
            assert(entries@.map_values(|p: (String, String)| (p.0@, p.1@)) =~= before.push((k@, v@)));
            assert(self@.take(i + 1) =~= self@.take(i as int).push(self@[i as int]));
            i = i + 1;
        }
        assert(self@.take(self.entries@.len() as int) =~= self@);
        EnvMap { entries }
    }
}

/// The application's settings.
pub struct AppConfig {
    /// The Wine prefix that holds the game; empty where none is chosen.
    pub game_path: String,
}

impl AppConfig {
    /// A copy of these settings.
    pub fn duplicate(&self) -> (c: AppConfig)
        ensures
            c.game_path@ == self.game_path@,
    {
        AppConfig { game_path: self.game_path.clone() }
    }
}

impl Default for AppConfig {
    fn default() -> (c: AppConfig)
        ensures
            c.game_path@ == Seq::<char>::empty(),
    {
        AppConfig { game_path: String::new() }
    }
}

/// The whole configuration file: settings and environment variables.
pub struct ConfigFile {
    pub settings: AppConfig,
    pub environment: EnvMap,
}

impl ConfigFile {
    /// A copy of this configuration.
    pub fn duplicate(&self) -> (c: ConfigFile)
        ensures
            c.settings.game_path@ == self.settings.game_path@,
            c.environment@ == self.environment@,
    {
        ConfigFile { settings: self.settings.duplicate(), environment: self.environment.duplicate() }
    }
}

/// The variables that a new configuration sets, in the order written.
pub open spec fn default_environment_pairs() -> Seq<(Seq<char>, Seq<char>)> {
    seq![
        ("__GL_SHADER_DISK_CACHE"@, "1"@),
        ("__GL_SHADER_DISK_CACHE_SIZE"@, "10737418240"@),
        ("__GL_SHADER_DISK_CACHE_SKIP_CLEANUP"@, "1"@),
        ("MESA_SHADER_CACHE_MAX_SIZE"@, "10G"@),
        ("STEAM_LINUX_RUNTIME_LOG"@, "0"@),
        ("STEAM_LINUX_RUNTIME_VERBOSE"@, "0"@),
        ("PROTON_LOG"@, "0"@),
        ("MANGOHUD"@, "0"@),
        ("PROTON_ENABLE_WAYLAND"@, "0"@),
        ("MANGOHUD_CONFIG"@, "blacklist=rsi-maintenance"@),
    ]
}

/// The environment variables of a new configuration.
pub fn default_environment() -> (m: EnvMap)
    ensures
        m@ == from_pairs(default_environment_pairs()),
        keys_ascending(m@),
{
    let mut pairs: Vec<(String, String)> = Vec::new();
    pairs.push((owned("__GL_SHADER_DISK_CACHE"), owned("1")));
    pairs.push((owned("__GL_SHADER_DISK_CACHE_SIZE"), owned("10737418240")));
    pairs.push((owned("__GL_SHADER_DISK_CACHE_SKIP_CLEANUP"), owned("1")));
    pairs.push((owned("MESA_SHADER_CACHE_MAX_SIZE"), owned("10G")));
    pairs.push((owned("STEAM_LINUX_RUNTIME_LOG"), owned("0")));
    pairs.push((owned("STEAM_LINUX_RUNTIME_VERBOSE"), owned("0")));
    pairs.push((owned("PROTON_LOG"), owned("0")));
    pairs.push((owned("MANGOHUD"), owned("0")));
    pairs.push((owned("PROTON_ENABLE_WAYLAND"), owned("0")));
    pairs.push((owned("MANGOHUD_CONFIG"), owned("blacklist=rsi-maintenance")));
    assert(pairs@.map_values(|p: (String, String)| (p.0@, p.1@)) =~= default_environment_pairs());
    EnvMap::from_pairs(pairs)
}

/// A new configuration for the game in `game_path`.
pub fn default_config(game_path: String) -> (c: ConfigFile)
    ensures
        c.settings.game_path@ == game_path@,
        c.environment@ == from_pairs(default_environment_pairs()),
{
    ConfigFile { settings: AppConfig { game_path }, environment: default_environment() }
}

/// Whether an entry has a value.
pub open spec fn has_value() -> spec_fn((Seq<char>, Seq<char>)) -> bool {
    |p: (Seq<char>, Seq<char>)| p.1.len() > 0
}

/// The entries of `s` whose value is not empty, in order.
pub open spec fn nonempty_values(s: Seq<(Seq<char>, Seq<char>)>) -> Seq<(Seq<char>, Seq<char>)> {
    s.filter(has_value())
}

/// The variable assignments that applying a configuration makes, in order:
/// each environment entry with a value, then `WINEPREFIX` set to the game
/// path where one is configured.
pub open spec fn assignments_spec(game_path: Seq<char>, env: Seq<(Seq<char>, Seq<char>)>) -> Seq<
    (Seq<char>, Seq<char>),
> {
    if game_path.len() > 0 {
        nonempty_values(env).push(("WINEPREFIX"@, game_path))
    } else {
        nonempty_values(env)
    }
}

/// The process environment assignments that `config` and `environment`
/// call for, in the order to make them.
pub fn apply_config_to_environment(config: &AppConfig, environment: &EnvMap) -> (r: Vec<(String, String)>)
    ensures
        r@.map_values(|p: (String, String)| (p.0@, p.1@)) == assignments_spec(
            config.game_path@,
            environment@,
        ),
{
    let entries = environment.entries();
    let ghost s = environment@;
    let mut r: Vec<(String, String)> = Vec::new();
    let mut i: usize = 0;
    assert(s.take(0) =~= Seq::<(Seq<char>, Seq<char>)>::empty());
    reveal_with_fuel(Seq::filter, 1);
    while i < entries.len()
        invariant
            i <= entries@.len(),
            s == entries@.map_values(|p: (String, String)| (p.0@, p.1@)),
            r@.map_values(|p: (String, String)| (p.0@, p.1@)) == nonempty_values(s.take(i as int)),
        decreases entries@.len() - i,
    {
        let ghost before = r@.map_values(|p: (String, String)| (p.0@, p.1@));
        assert(s.take(i + 1) =~= s.take(i as int).push(s[i as int]));
        proof {
            s.take(i as int).lemma_filter_push(s[i as int], has_value());
        }
        assert(s[i as int] == (entries@[i as int].0@, entries@[i as int].1@));
        if !entries[i].1.as_str().is_empty() {
            let k = entries[i].0.clone();
            let v = entries[i].1.clone();
            r.push((k, v));
            assert(r@.map_values(|p: (String, String)| (p.0@, p.1@)) =~= before.push(s[i as int]));
        }
        i = i + 1;
    }
    assert(s.take(entries@.len() as int) =~= s);
    if !config.game_path.as_str().is_empty() {
        let ghost before = r@.map_values(|p: (String, String)| (p.0@, p.1@));
        r.push((owned("WINEPREFIX"), config.game_path.clone()));
        assert(r@.map_values(|p: (String, String)| (p.0@, p.1@)) =~= before.push(("WINEPREFIX"@, config.game_path@)));
    }
    r
}

/// Whether a variable of the starting environment is carried into the
/// launcher's environment: its name starts with `RSI_`, `WINE` or `PROTON`.
pub open spec fn forwarded_name(name: Seq<char>) -> bool {
    has_prefix(name, "RSI_"@) || has_prefix(name, "WINE"@) || has_prefix(name, "PROTON"@)
}

/// Whether an entry's name is carried into the launcher's environment.
pub open spec fn forwarded_entry() -> spec_fn((Seq<char>, Seq<char>)) -> bool {
    |p: (Seq<char>, Seq<char>)| forwarded_name(p.0)
}

/// Whether the variable `name` is carried into the launcher's environment.
pub fn is_forwarded_variable(name: &str) -> (b: bool)
    ensures
        b == forwarded_name(name@),
{
    let c = chars_of(name);
    let rsi = chars_of("RSI_");
    let wine = chars_of("WINE");
    let proton = chars_of("PROTON");
    assert(c@.skip(0) =~= c@);
    crate::text::starts_with_at(&c, 0, &rsi) || crate::text::starts_with_at(&c, 0, &wine)
        || crate::text::starts_with_at(&c, 0, &proton)
}

/// The variables of `vars` that are carried into the launcher's
/// environment, in order.
pub fn load_environment_from_current_process(vars: &Vec<(String, String)>) -> (r: Vec<(String, String)>)
    ensures
        r@.map_values(|p: (String, String)| (p.0@, p.1@)) == vars@.map_values(
            |p: (String, String)| (p.0@, p.1@),
        ).filter(forwarded_entry()),
{
    let ghost s = vars@.map_values(|p: (String, String)| (p.0@, p.1@));
    let mut r: Vec<(String, String)> = Vec::new();
    let mut i: usize = 0;
    assert(s.take(0) =~= Seq::<(Seq<char>, Seq<char>)>::empty());
    reveal_with_fuel(Seq::filter, 1);
    while i < vars.len()
        invariant
            i <= vars@.len(),
            s == vars@.map_values(|p: (String, String)| (p.0@, p.1@)),
            r@.map_values(|p: (String, String)| (p.0@, p.1@)) == s.take(i as int).filter(
                forwarded_entry(),
            ),
        decreases vars@.len() - i,
    {
        let ghost before = r@.map_values(|p: (String, String)| (p.0@, p.1@));
        assert(s.take(i + 1) =~= s.take(i as int).push(s[i as int]));
        proof {
            s.take(i as int).lemma_filter_push(s[i as int], forwarded_entry());
        }
        assert(s[i as int] == (vars@[i as int].0@, vars@[i as int].1@));
        if is_forwarded_variable(vars[i].0.as_str()) {
            let k = vars[i].0.clone();
            let v = vars[i].1.clone();
            r.push((k, v));
            assert(r@.map_values(|p: (String, String)| (p.0@, p.1@)) =~= before.push(s[i as int]));
        }
        i = i + 1;
    }
    assert(s.take(vars@.len() as int) =~= s);
    r
}

} // verus!
