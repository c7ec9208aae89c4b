//! Translations: choosing the language, finding its message file, and
//! looking messages up in a Fluent bundle.
use vstd::prelude::*;
use crate::paths::join;
use crate::text::{before_char, chars_of, concat, owned, replace_char, string_from};
use crate::bundle::{
    bundle_isolating, bundle_locale, bundle_sources, bundle_text_map, canonical_language, fluent_text,
    ftl_ids_distinct, ftl_parses, langid_accepts, parse_language, parse_resource, Language, MessageArgs,
    MessageBundle, ArgView,
};

verus! {

/// What `str::to_lowercase` returns for `s`.
pub uninterp spec fn lowercase(s: Seq<char>) -> Seq<char>;

/// What `str::to_uppercase` returns for `s`.
pub uninterp spec fn uppercase(s: Seq<char>) -> Seq<char>;

/// `str::to_lowercase`, taken as the name `lowercase`.
#[verifier::external_body]
fn to_lowercase(s: &str) -> (r: String)
    ensures
        r@ == lowercase(s@),
{
    s.to_lowercase()
}

/// `str::to_uppercase`, taken as the name `uppercase`.
#[verifier::external_body]
fn to_uppercase(s: &str) -> (r: String)
    ensures
        r@ == uppercase(s@),
{
    s.to_uppercase()
}

/// The locale text that a `LANG`-style value names: the part before any
/// `@` modifier, then before any `.` encoding, with `_` turned into `-`.
pub open spec fn normalized_locale(raw: Seq<char>) -> Seq<char> {
    replace_char(before_char(before_char(raw, '@'), '.'), '_', '-')
}

/// The locale text that the `LANG`-style value `raw` names.
pub fn normalize_locale(raw: &str) -> (r: String)
    ensures
        r@ == normalized_locale(raw@),
{
    let c = chars_of(raw);
    let mut out: Vec<char> = Vec::new();
    let mut i: usize = 0;
    while i < c.len() && c[i] != '@' && c[i] != '.'
        invariant
            i <= c@.len(),
            c@ == raw@,
            forall|j: int| 0 <= j < i ==> c@[j] != '@' && c@[j] != '.',
            out@ == replace_char(c@.take(i as int), '_', '-'),
        decreases c@.len() - i,
    {
        let x = if c[i] == '_' {
            '-'
        } else {
            c[i]
        };
        out.push(x);
        assert(c@.take(i + 1) =~= c@.take(i as int).push(c@[i as int]));
        assert(replace_char(c@.take(i + 1), '_', '-') =~= replace_char(c@.take(i as int), '_', '-').push(x));
        i = i + 1;
    }
    proof {
        let s = raw@;
        if i < s.len() {
            let pre = s.take(i as int);
            assert(s =~= pre + seq![s[i as int]] + s.skip(i + 1));
            if s[i as int] == '@' {
                crate::text::lemma_find_char_after_free(pre, '@', s.skip(i + 1));
                crate::text::lemma_find_char_none(pre, '.');
                assert(before_char(s, '@') =~= pre);
            } else {
                crate::text::lemma_find_char_bounds(s, '@');
                let a = before_char(s, '@');
                if let Some(k) = crate::text::find_char(s, '@') {
                    assert(k > i);
                    assert(a =~= s.take(k as int));
                } else {
                    assert(a == s);
                }
                assert(a =~= pre + seq!['.'] + a.skip(i + 1));
                crate::text::lemma_find_char_after_free(pre, '.', a.skip(i + 1));
                assert((pre + seq!['.'] + a.skip(i + 1)).take(i as int) =~= pre);
            }
        } else {
            crate::text::lemma_find_char_none(s, '@');
            crate::text::lemma_find_char_none(s, '.');
            assert(c@.take(i as int) =~= s);
        }
    }
    string_from(&out)
}

/// The language that the `LANG`-style value `raw` names, where the
/// identifier parser accepts it.
pub fn parse_lang(raw: &str) -> (r: Option<Language>)
    ensures
        r is Some <==> langid_accepts(normalized_locale(raw@)),
        r matches Some(l) ==> l@ == canonical_language(normalized_locale(raw@))->0,
{
    let tag = normalize_locale(raw);
    parse_language(tag.as_str())
}

/// Which source the language is taken from.
pub enum LangSource {
    /// The `LANG` variable.
    LangVariable,
    /// The system's locale setting.
    SystemLocale,
    /// Neither: `en-US`.
    Fallback,
}

/// Whether an optional `LANG`-style value names a language the parser
/// accepts.
pub open spec fn usable_locale(raw: Option<Seq<char>>) -> bool {
    raw matches Some(r) && langid_accepts(normalized_locale(r))
}

/// The source the language is taken from: `LANG` where it names a language,
/// else the system locale where it does, else `en-US`.
pub open spec fn lang_source_spec(lang_var: Option<Seq<char>>, system_locale: Option<Seq<char>>) -> LangSource {
    if usable_locale(lang_var) {
        LangSource::LangVariable
    } else if usable_locale(system_locale) {
        LangSource::SystemLocale
    } else {
        LangSource::Fallback
    }
}

/// An optional text as an optional sequence of characters.
pub open spec fn opt_view(s: Option<&str>) -> Option<Seq<char>> {
    match s {
        Some(t) => Some(t@),
        None => None,
    }
}

/// Which source the language is taken from, given the value of `LANG` and
/// the system locale (each absent where unset).
pub fn lang_source(lang_var: Option<&str>, system_locale: Option<&str>) -> (s: LangSource)
    ensures
        s == lang_source_spec(opt_view(lang_var), opt_view(system_locale)),
{
    if let Some(raw) = lang_var {
        if parse_lang(raw).is_some() {
            return LangSource::LangVariable;
        }
    }
    if let Some(raw) = system_locale {
        if parse_lang(raw).is_some() {
            return LangSource::SystemLocale;
        }
    }
    LangSource::Fallback
}

/// The canonical text of the language that the sources name (see
/// `lang_source_spec`).
pub open spec fn detected_tag(lang_var: Option<Seq<char>>, system_locale: Option<Seq<char>>) -> Seq<char> {
    match lang_source_spec(lang_var, system_locale) {
        LangSource::LangVariable => canonical_language(normalized_locale(lang_var->0))->0,
        LangSource::SystemLocale => canonical_language(normalized_locale(system_locale->0))->0,
        LangSource::Fallback => "en-US"@,
    }
}

/// The user's language: from `LANG` where it names one, else from the
/// system locale, else `en-US` (see `lang_source`).
pub fn detect_lang(lang_var: Option<&str>, system_locale: Option<&str>) -> (r: Language)
    ensures
        r@ == detected_tag(opt_view(lang_var), opt_view(system_locale)),
{
    let source = lang_source(lang_var, system_locale);
    match source {
        LangSource::LangVariable => {
            let raw = lang_var.unwrap();
            assert(opt_view(lang_var) == Some(raw@));
            parse_lang(raw).unwrap()
        },
        LangSource::SystemLocale => {
            let raw = system_locale.unwrap();
            assert(opt_view(system_locale) == Some(raw@));
            parse_lang(raw).unwrap()
        },
        LangSource::Fallback => {
            let fallback = "en-US";
            proof {
                reveal_strlit("en-US");
                assert(fallback@ =~= seq!['e', 'n', '-', 'U', 'S']);
            }
            parse_language(fallback).unwrap()
        },
    }
}

/// The message files tried for language `tag`, in order: the tag as it is,
/// with `_` for `-`, lower case, `_` and lower case, upper case, `_` and
/// upper case.
pub open spec fn candidate_names(tag: Seq<char>) -> Seq<Seq<char>> {
    let u = replace_char(tag, '-', '_');
    seq![tag, u, lowercase(tag), lowercase(u), uppercase(tag), uppercase(u)]
}

/// Where the message file named `name` is looked for.
pub open spec fn message_file_path(name: Seq<char>) -> Seq<char> {
    crate::paths::join_path(crate::paths::join_path("assets"@, "i18n"@), name + ".ftl"@)
}

/// The text `s` with every `from` replaced by `to`.
fn replace(s: &str, from: char, to: char) -> (r: String)
    ensures
        r@ == replace_char(s@, from, to),
{
    let c = chars_of(s);
    let mut out: Vec<char> = Vec::new();
    let mut i: usize = 0;
    while i < c.len()
        invariant
            i <= c@.len(),
            c@ == s@,
            out@ == replace_char(c@.take(i as int), from, to),
        decreases c@.len() - i,
    {
        let x = if c[i] == from {
            to
        } else {
            c[i]
        };
        out.push(x);
        assert(c@.take(i + 1) =~= c@.take(i as int).push(c@[i as int]));
        assert(replace_char(c@.take(i + 1), from, to) =~= replace_char(c@.take(i as int), from, to).push(x));
        i = i + 1;
    }
    assert(c@.take(c@.len() as int) =~= c@);
    string_from(&out)
}

/// The paths of the message files tried for language `tag`, in order.
pub fn locale_file_candidates(tag: &str) -> (r: Vec<String>)
    ensures
        r@.map_values(|p: String| p@) == candidate_names(tag@).map_values(|n: Seq<char>| message_file_path(n)),
{
    let u = replace(tag, '-', '_');
    let mut names: Vec<String> = Vec::new();
    names.push(owned(tag));
    names.push(u.clone());
    names.push(to_lowercase(tag));
    names.push(to_lowercase(u.as_str()));
    names.push(to_uppercase(tag));
    names.push(to_uppercase(u.as_str()));
    let ghost ns = candidate_names(tag@);
    assert(names@.map_values(|p: String| p@) =~= ns);
    let dir = join("assets", "i18n");
    let mut r: Vec<String> = Vec::new();
    let mut i: usize = 0;
    while i < names.len()
        invariant
            i <= names@.len(),
            names@.len() == 6,
            names@.map_values(|p: String| p@) == ns,
            dir@ == crate::paths::join_path("assets"@, "i18n"@),
            r@.map_values(|p: String| p@) == ns.take(i as int).map_values(|n: Seq<char>| message_file_path(n)),
        decreases names@.len() - i,
    {
        let file = concat(names[i].as_str(), ".ftl");
        let path = join(dir.as_str(), file.as_str());
        let ghost before = r@.map_values(|p: String| p@);
        r.push(path);
        assert(ns[i as int] == names@[i as int]@);
        assert(r@.map_values(|p: String| p@) =~= before.push(message_file_path(ns[i as int])));
        assert(ns.take(i + 1) =~= ns.take(i as int).push(ns[i as int]));
        assert(ns.take(i + 1).map_values(|n: Seq<char>| message_file_path(n)) =~= ns.take(i as int).map_values(
            |n: Seq<char>| message_file_path(n),
        ).push(message_file_path(ns[i as int])));
        i = i + 1;
    }
    assert(ns.take(6) =~= ns);
    r
}

/// A file read, where it succeeded, as its text.
pub open spec fn read_view(read: Option<String>) -> Option<Seq<char>> {
    match read {
        Some(t) => Some(t@),
        None => None,
    }
}

/// The Fluent source that the translations are made from, given what
/// reading each candidate file gave, in the order of the candidates: the
/// text of the first file that was read, else `embedded`.
pub open spec fn chosen_source(reads: Seq<Option<Seq<char>>>, embedded: Seq<char>) -> Seq<char>
    decreases reads.len(),
{
    if reads.len() == 0 {
        embedded
    } else if reads[0] is Some {
        reads[0]->0
    } else {
        chosen_source(reads.drop_first(), embedded)
    }
}

/// The Fluent source that the translations are made from: the first
/// candidate file that was read (`reads` holds, in the order of the
/// candidates, the text of each file that exists and was read), else the
/// embedded messages.
pub fn choose_source(reads: Vec<Option<String>>, embedded: String) -> (r: String)
    ensures
        r@ == chosen_source(reads@.map_values(|o: Option<String>| read_view(o)), embedded@),
{
    let ghost all = reads@.map_values(|o: Option<String>| read_view(o));
    assert(all.skip(0) =~= all);
    let mut i: usize = 0;
    while i < reads.len()
        invariant
            i <= reads@.len(),
            all == reads@.map_values(|o: Option<String>| read_view(o)),
            forall|j: int| 0 <= j < i ==> reads@[j] is None,
            chosen_source(all, embedded@) == chosen_source(all.skip(i as int), embedded@),
        decreases reads@.len() - i,
    {
        let ghost rest = all.skip(i as int);
        assert(rest[0] == read_view(reads@[i as int]));
        assert(rest.drop_first() =~= all.skip(i + 1));
        match &reads[i] {
            Some(t) => {
                return t.clone();
            },
            None => {},
        }
        i = i + 1;
    }
    assert(all.skip(i as int).len() == 0);
    embedded
}

/// Why a bundle could not be built from a message file.
pub enum BundleError {
    /// The file is not valid Fluent.
    InvalidFtl,
    /// The bundle refused the resource.
    ResourceRejected,
}

/// Why a message could not be looked up.
pub enum TranslationError {
    /// The bundle has no message with this key.
    MissingKey(String),
    /// The message has no value.
    NoValue,
}

impl TranslationError {
    /// The message with which the lookup gives up.
    pub open spec fn message(self) -> Seq<char> {
        match self {
            TranslationError::MissingKey(k) => "Missing key: "@ + k@,
            TranslationError::NoValue => "Message has no value"@,
        }
    }

    /// The message with which the lookup gives up.
    pub fn describe(&self) -> (m: String)
        ensures
            m@ == self.message(),
    {
        match self {
            TranslationError::MissingKey(k) => concat("Missing key: ", k.as_str()),
            TranslationError::NoValue => owned("Message has no value"),
        }
    }
}

/// Translations for one language.
pub struct I18n {
    bundle: MessageBundle,
}

/// The messages that translations for `locale` hold when made from the
/// Fluent source `source`, formatted without isolation marks.
pub open spec fn ftl_messages(locale: Seq<char>, source: Seq<char>) -> Map<Seq<char>, Option<Seq<char>>> {
    bundle_text_map(locale, false, seq![source])
}

impl I18n {
    /// The canonical text of the language of the translations.
    pub closed spec fn locale(&self) -> Seq<char> {
        bundle_locale(self.bundle)
    }

    /// Whether isolation marks are put around placeables.
    pub closed spec fn isolating(&self) -> bool {
        bundle_isolating(self.bundle)
    }

    /// The Fluent sources that the messages come from, in order.
    pub closed spec fn sources(&self) -> Seq<Seq<char>> {
        bundle_sources(self.bundle)
    }

    /// The messages, by key: the text of each, or `None` where a message has
    /// no value.
    pub open spec fn messages(&self) -> Map<Seq<char>, Option<Seq<char>>> {
        bundle_text_map(self.locale(), self.isolating(), self.sources())
    }

    /// Whether `key` names a message with a value.
    pub open spec fn has_text(&self, key: Seq<char>) -> bool {
        self.messages().contains_key(key) && self.messages()[key] is Some
    }

    /// The text of message `key`.
    pub open spec fn text(&self, key: Seq<char>) -> Seq<char> {
        self.messages()[key]->0
    }

    /// The text of message `key` formatted with `args`.
    pub open spec fn formatted(&self, key: Seq<char>, args: Map<Seq<char>, ArgView>) -> Seq<char> {
        fluent_text(self.locale(), self.isolating(), self.sources(), key, Some(args))->0->0
    }

    /// Translations for `lang` from the Fluent source `ftl`, formatted
    /// without isolation marks. Fails with `InvalidFtl` exactly where the
    /// source does not parse, and with `ResourceRejected` exactly where it
    /// parses but two of its entries share an id.
    pub fn new(lang: Language, ftl: String) -> (r: Result<I18n, BundleError>)
        ensures
            r matches Err(BundleError::InvalidFtl) <==> !ftl_parses(ftl@),
            r matches Err(BundleError::ResourceRejected) <==> ftl_parses(ftl@) && !ftl_ids_distinct(ftl@),
            r is Ok <==> ftl_parses(ftl@) && ftl_ids_distinct(ftl@),
            r matches Ok(i) ==> i.locale() == lang@ && !i.isolating() && i.sources() == seq![ftl@],
            r matches Ok(i) ==> i.messages() == ftl_messages(lang@, ftl@),
    {
        let ghost tag = lang@;
        let ghost source = ftl@;
        let mut bundle = MessageBundle::new(lang);
        bundle.set_use_isolating(false);
        let resource = match parse_resource(ftl) {
            Some(r) => r,
            None => {
                return Err(BundleError::InvalidFtl);
            },
        };
        if bundle.add_resource(resource) {
            assert(bundle_sources(bundle) =~= seq![source]);
            Ok(I18n { bundle })
        } else {
            Err(BundleError::ResourceRejected)
        }
    }

    /// The text of message `key`, or why there is none.
    pub fn lookup(&self, key: &str) -> (r: Result<String, TranslationError>)
        ensures
            !self.messages().contains_key(key@) <==> (r matches Err(TranslationError::MissingKey(k)) && k@ == key@),
            (self.messages().contains_key(key@) && self.messages()[key@] is None) <==> r matches Err(TranslationError::NoValue),
            r is Ok <==> self.has_text(key@),
            r matches Ok(t) ==> t@ == self.text(key@),
    {
        match self.bundle.message_text(key, None) {
            None => Err(TranslationError::MissingKey(owned(key))),
            Some(None) => Err(TranslationError::NoValue),
            Some(Some(t)) => Ok(t),
        }
    }

    /// The text of message `key`.
    pub fn t(&self, key: &str) -> (s: String)
        requires
            self.has_text(key@),
        ensures
            s@ == self.text(key@),
    {
        match self.bundle.message_text(key, None) {
            Some(Some(t)) => t,
            _ => {
                proof {
                    assert(false);
                }
                String::new()
            },
        }
    }

    /// The text of message `key` formatted with `args`, or why there is
    /// none.
    pub fn t_args(&self, key: &str, args: &MessageArgs) -> (r: Result<String, TranslationError>)
        ensures
            !self.messages().contains_key(key@) <==> (r matches Err(TranslationError::MissingKey(k)) && k@ == key@),
            (self.messages().contains_key(key@) && self.messages()[key@] is None) <==> r matches Err(TranslationError::NoValue),
            r is Ok <==> self.has_text(key@),
            r matches Ok(t) ==> t@ == self.formatted(key@, args@),
    {
        match self.bundle.message_text(key, Some(args)) {
            None => Err(TranslationError::MissingKey(owned(key))),
            Some(None) => Err(TranslationError::NoValue),
            Some(Some(t)) => Ok(t),
        }
    }
}

} // verus!
