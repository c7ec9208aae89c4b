//! Language identifiers, Fluent message resources and Fluent bundles, each
//! behind declarations whose contracts say what the outside crates do, and
//! the message arguments that formatting takes.
use vstd::prelude::*;
use crate::text::owned;
use fluent_bundle::{FluentArgs, FluentBundle, FluentResource, FluentValue};
use unic_langid::LanguageIdentifier;

verus! {

#[verifier::external_type_specification]
#[verifier::external_body]
pub struct ExLanguageIdentifier(LanguageIdentifier);

#[verifier::external_type_specification]
#[verifier::external_body]
pub struct ExFluentResource(FluentResource);

/// What `LanguageIdentifier::from_str` and then its `Display` give for
/// `tag`: the identifier's canonical text, where the parser accepts the tag.
pub uninterp spec fn canonical_language(tag: Seq<char>) -> Option<Seq<char>>;

/// Whether `LanguageIdentifier::from_str` accepts `tag`.
pub open spec fn langid_accepts(tag: Seq<char>) -> bool {
    canonical_language(tag) is Some
}

/// A language: a parsed identifier together with its canonical text. The
/// fields are private to this module, and `parse_language` is the only
/// place that makes a value, so the text is always the identifier's own.
pub struct Language {
    id: LanguageIdentifier,
    tag: String,
}

impl View for Language {
    type V = Seq<char>;

    /// The canonical text of the identifier.
    closed spec fn view(&self) -> Seq<char> {
        self.tag@
    }
}

impl Language {
    /// The canonical text of the identifier.
    pub fn tag(&self) -> (r: &str)
        ensures
            r@ == self@,
    {
        self.tag.as_str()
    }
}

/// Parses `tag` with `LanguageIdentifier::from_str` and renders the
/// identifier with its `Display`. The result is present exactly where the
/// parser accepts the tag, and its text is the name `canonical_language`;
/// `en-US` is accepted and renders as itself (the crate's documentation
/// shows both).
#[verifier::external_body]
pub(crate) fn parse_language(tag: &str) -> (r: Option<Language>)
    ensures
        r is Some <==> canonical_language(tag@) is Some,
        r matches Some(l) ==> l@ == canonical_language(tag@)->0,
        r is Some || tag@ != seq!['e', 'n', '-', 'U', 'S'],
        r matches Some(l) ==> (tag@ == seq!['e', 'n', '-', 'U', 'S'] ==> l@ == tag@),
{
    match tag.parse::<LanguageIdentifier>() {
        Ok(id) => {
            let text = id.to_string();
            Some(Language { id, tag: text })
        },
        Err(_) => None,
    }
}

/// Whether `FluentResource::try_new` parses `source` without errors.
pub uninterp spec fn ftl_parses(source: Seq<char>) -> bool;

/// What `FluentResource::source` gives for `resource`: the text that the
/// resource was parsed from.
pub uninterp spec fn resource_source(resource: FluentResource) -> Seq<char>;

/// The ids of the message and term entries of the resource parsed from
/// `source`, in the order of the entries, as `FluentBundle::add_resource`
/// reads them (comments and unparsed text have none).
pub uninterp spec fn ftl_entry_ids(source: Seq<char>) -> Seq<Seq<char>>;

/// Whether no two message or term entries of `source` share an id.
pub open spec fn ftl_ids_distinct(source: Seq<char>) -> bool {
    ftl_entry_ids(source).no_duplicates()
}

/// `FluentResource::try_new`: the parsed resource, present exactly where
/// the source parses without errors; the resource keeps its source text.
#[verifier::external_body]
pub(crate) fn parse_resource(source: String) -> (r: Option<FluentResource>)
    ensures
        r is Some <==> ftl_parses(source@),
        r matches Some(res) ==> resource_source(res) == source@,
{
    FluentResource::try_new(source).ok()
}

/// An argument value for formatting a message.
pub enum ArgValue {
    /// A text.
    Text(String),
    /// A whole number.
    Integer(i64),
}

/// An argument value as the contracts speak of it.
pub enum ArgView {
    Text(Seq<char>),
    Integer(int),
}

impl View for ArgValue {
    type V = ArgView;

    open spec fn view(&self) -> ArgView {
        match self {
            ArgValue::Text(s) => ArgView::Text(s@),
            ArgValue::Integer(n) => ArgView::Integer(*n as int),
        }
    }
}

/// The arguments that the pairs `entries` set, one after the other: a
/// later pair for a name replaces an earlier one.
pub open spec fn arg_map(entries: Seq<(String, ArgValue)>) -> Map<Seq<char>, ArgView>
    decreases entries.len(),
{
    if entries.len() == 0 {
        Map::empty()
    } else {
        arg_map(entries.drop_last()).insert(entries.last().0@, entries.last().1@)
    }
}

/// Named arguments for formatting a message.
pub struct MessageArgs {
    entries: Vec<(String, ArgValue)>,
}

impl View for MessageArgs {
    type V = Map<Seq<char>, ArgView>;

    /// The value of each argument, by name.
    closed spec fn view(&self) -> Map<Seq<char>, ArgView> {
        arg_map(self.entries@)
    }
}

impl MessageArgs {
    /// No arguments.
    pub fn new() -> (a: MessageArgs)
        ensures
            a@ == Map::<Seq<char>, ArgView>::empty(),
    {
        MessageArgs { entries: Vec::new() }
    }

    /// Sets argument `key` to `value`, replacing any value it had.
    pub fn set(&mut self, key: &str, value: ArgValue)
        ensures
            final(self)@ == old(self)@.insert(key@, value@),
    {
        let k = owned(key);
        let ghost e = (k, value);
        self.entries.push((k, value));
        assert(self.entries@.drop_last() =~= old(self).entries@);
        assert(self.entries@.last() == e);
    }
}

/// The arguments, where there are any, as the contracts speak of them.
pub open spec fn args_view(args: Option<&MessageArgs>) -> Option<Map<Seq<char>, ArgView>> {
    match args {
        Some(a) => Some(a@),
        None => None,
    }
}

/// A Fluent bundle of messages for one locale. The bundle is held here,
/// hidden from the verifier, because its type names the memoizer of the
/// `intl_memoizer` crate, which this library does not depend on, so the
/// bundle type cannot be declared to the verifier.
#[verifier::external_body]
pub struct MessageBundle {
    inner: FluentBundle<FluentResource>,
}

/// The canonical text of the locale that the bundle was made for.
pub uninterp spec fn bundle_locale(bundle: MessageBundle) -> Seq<char>;

/// Whether the bundle puts Unicode isolation marks around placeables.
pub uninterp spec fn bundle_isolating(bundle: MessageBundle) -> bool;

/// The sources of the resources added to the bundle, in order.
pub uninterp spec fn bundle_sources(bundle: MessageBundle) -> Seq<Seq<char>>;

/// What looking message `key` up and formatting its value gives in a bundle
/// for `locale`, with isolation marks or not, that holds the resources
/// parsed from `sources`, added in order: `None` where it has no message
/// `key`, `Some(None)` where the message has no value, else the text
/// formatted with `args` (or with none).
pub uninterp spec fn fluent_text(
    locale: Seq<char>,
    isolating: bool,
    sources: Seq<Seq<char>>,
    key: Seq<char>,
    args: Option<Map<Seq<char>, ArgView>>,
) -> Option<Option<Seq<char>>>;

/// The messages of such a bundle, by id: the text of each formatted
/// without arguments, or `None` where a message has no value.
pub open spec fn bundle_text_map(locale: Seq<char>, isolating: bool, sources: Seq<Seq<char>>) -> Map<
    Seq<char>,
    Option<Seq<char>>,
> {
    Map::new(
        |k: Seq<char>| fluent_text(locale, isolating, sources, k, None) is Some,
        |k: Seq<char>| fluent_text(locale, isolating, sources, k, None)->0,
    )
}

/// Whether a bundle that holds the resources parsed from `sources` takes
/// one parsed from `source` without errors: no two entries of `source`
/// share an id, and none has the id of an entry held already.
pub open spec fn takes_resource(sources: Seq<Seq<char>>, source: Seq<char>) -> bool {
    &&& ftl_ids_distinct(source)
    &&& forall|k: int| 0 <= k < sources.len() ==> #[trigger] ftl_entry_ids(sources[k]).disjoint(ftl_entry_ids(source))
}

/// A looked-up message as the contracts speak of it.
pub open spec fn found_view(r: Option<Option<String>>) -> Option<Option<Seq<char>>> {
    match r {
        None => None,
        Some(None) => Some(None),
        Some(Some(t)) => Some(Some(t@)),
    }
}

impl MessageBundle {
    /// `FluentBundle::new` for the single locale `lang`: a bundle without
    /// resources, which puts isolation marks around placeables.
    #[verifier::external_body]
    pub(crate) fn new(lang: Language) -> (b: MessageBundle)
        ensures
            bundle_locale(b) == lang@,
            bundle_isolating(b),
            bundle_sources(b) == Seq::<Seq<char>>::empty(),
    {
        MessageBundle { inner: FluentBundle::new(vec![lang.id]) }
    }

    /// `FluentBundle::set_use_isolating`: whether isolation marks are put
    /// around placeables; the locale and the resources stay.
    #[verifier::external_body]
    pub(crate) fn set_use_isolating(&mut self, value: bool)
        ensures
            bundle_isolating(*final(self)) == value,
            bundle_locale(*final(self)) == bundle_locale(*old(self)),
            bundle_sources(*final(self)) == bundle_sources(*old(self)),
    {
        self.inner.set_use_isolating(value);
    }

    /// `FluentBundle::add_resource`: the resource is added whatever the
    /// outcome (an entry whose id is taken already is left out), and the
    /// outcome is `Ok` exactly where no entry was left out.
    #[verifier::external_body]
    pub(crate) fn add_resource(&mut self, resource: FluentResource) -> (ok: bool)
        ensures
            ok == (ftl_entry_ids(resource_source(resource)).no_duplicates() && forall|k: int|
                0 <= k < bundle_sources(*old(self)).len() ==> #[trigger] ftl_entry_ids(
                    bundle_sources(*old(self))[k],
                ).disjoint(ftl_entry_ids(resource_source(resource)))),
            bundle_sources(*final(self)) == bundle_sources(*old(self)).push(resource_source(resource)),
            bundle_locale(*final(self)) == bundle_locale(*old(self)),
            bundle_isolating(*final(self)) == bundle_isolating(*old(self)),
    {
        self.inner.add_resource(resource).is_ok()
    }

    /// `FluentBundle::get_message`, then `FluentMessage::value`, then
    /// `FluentBundle::format_pattern` with `args` turned into `FluentArgs`:
    /// the name `fluent_text` of the bundle's locale, marks and resources.
    /// Whether the message is found and has a value does not depend on the
    /// arguments. The three calls share one wrapper because the pattern
    /// type that passes between them cannot be named here.
    #[verifier::external_body]
    pub(crate) fn message_text(&self, key: &str, args: Option<&MessageArgs>) -> (r: Option<Option<String>>)
        ensures
            found_view(r) == fluent_text(bundle_locale(*self), bundle_isolating(*self), bundle_sources(*self), key@, args_view(args)),
            r is Some <==> fluent_text(bundle_locale(*self), bundle_isolating(*self), bundle_sources(*self), key@, None) is Some,
            r matches Some(v) ==> (v is Some <==> fluent_text(bundle_locale(*self), bundle_isolating(*self), bundle_sources(*self), key@, None)->0 is Some),
    {
        let fargs: Option<FluentArgs> = args.map(|a| a.entries.iter().map(|(k, v)| match v {
            ArgValue::Text(s) => (k.as_str(), FluentValue::from(s.as_str())),
            ArgValue::Integer(n) => (k.as_str(), FluentValue::from(*n)),
        }).collect());
        match self.inner.get_message(key) {
            None => None,
            Some(message) => match message.value() {
                None => Some(None),
                Some(pattern) => Some(Some(self.inner.format_pattern(pattern, fargs.as_ref(), &mut vec![]).to_string())),
            },
        }
    }
}

} // verus!
