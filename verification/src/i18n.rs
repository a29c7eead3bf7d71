//! Interface translations.
//!
//! English is the source language: every translatable text is written in
//! English and used verbatim as the lookup key. The other languages are JSON
//! catalogs mapping the English text to its translation; a missing entry falls
//! back to English, so a half translated catalog still works.
use vstd::hash_map::StringHashMap;
use vstd::prelude::*;

use crate::config::Language;
use crate::text::replace;

verus! {

/// What a catalog holds: the translation of each English text.
pub open spec fn is_catalog(
    map: Map<Seq<char>, String>,
    entries: Seq<(Seq<char>, Seq<char>)>,
) -> bool {
    &&& forall|i: int|
        0 <= i < entries.len() ==> map.contains_key((#[trigger] entries[i]).0)
            && map[entries[i].0]@ == entries[i].1
    &&& forall|k: Seq<char>| #[trigger]
        map.contains_key(k) ==> exists|i: int|
            0 <= i < entries.len() && (#[trigger] entries[i]).0 == k
}

/// What a list of entries says.
pub open spec fn entry_views(entries: Seq<(String, String)>) -> Seq<(Seq<char>, Seq<char>)> {
    entries.map_values(|e: (String, String)| (e.0@, e.1@))
}

/// The entries of a JSON object whose values are all texts, in the order of
/// their keys, each key once; `None` for any other text.
pub uninterp spec fn json_entries(raw: Seq<char>) -> Option<Seq<(Seq<char>, Seq<char>)>>;

/// Whether every key stands once.
pub open spec fn keys_differ(entries: Seq<(Seq<char>, Seq<char>)>) -> bool {
    forall|i: int, j: int|
        0 <= i < j < entries.len() ==> (#[trigger] entries[i]).0 != (#[trigger] entries[j]).0
}

/// `serde_json::from_str` into a `BTreeMap` of texts: the entries of the
/// object, sorted by key, or nothing when the text is no such object. The
/// outcome depends on the text alone; a key that is written twice counts
/// once.
#[verifier::external_body]
fn parse_entries(raw: &str) -> (r: Option<Vec<(String, String)>>)
    ensures
        match r {
            Some(entries) => json_entries(raw@) == Some(entry_views(entries@)) && keys_differ(
                entry_views(entries@),
            ),
            None => json_entries(raw@) is None,
        },
{
    let parsed: Result<std::collections::BTreeMap<String, String>, serde_json::Error> =
        serde_json::from_str(raw);
    parsed.ok().map(|map| map.into_iter().collect())
}

/// The catalog made of these entries.
pub fn catalog_of(entries: Vec<(String, String)>) -> (r: StringHashMap<String>)
    requires
        keys_differ(entry_views(entries@)),
    ensures
        is_catalog(r@, entry_views(entries@)),
{
    let ghost all = entry_views(entries@);
    let mut map: StringHashMap<String> = StringHashMap::new();
    let mut i: usize = 0;
    while i < entries.len()
        invariant
            i <= entries.len(),
            all == entry_views(entries@),
            keys_differ(all),
            forall|k: int|
                0 <= k < i ==> map@.contains_key((#[trigger] all[k]).0) && map@[all[k].0]@
                    == all[k].1,
            forall|key: Seq<char>| #[trigger]
                map@.contains_key(key) ==> exists|k: int|
                    0 <= k < i && (#[trigger] all[k]).0 == key,
        decreases entries.len() - i,
    {
        let ghost before = map@;
        assert(all[i as int] == (entries@[i as int].0@, entries@[i as int].1@));
        map.insert(entries[i].0.clone(), entries[i].1.clone());
        assert forall|key: Seq<char>| #[trigger] map@.contains_key(key) implies exists|k: int|
            0 <= k < i + 1 && (#[trigger] all[k]).0 == key by {
            if key == all[i as int].0 {
            } else {
                assert(before.contains_key(key));
            }
        }
        i = i + 1;
    }
    map
}

/// The catalog that a JSON text holds. A malformed catalog degrades to
/// English rather than taking the application down.
pub fn load_catalog(raw: &str) -> (r: StringHashMap<String>)
    ensures
        match json_entries(raw@) {
            Some(entries) => is_catalog(r@, entries),
            None => r@ == Map::<Seq<char>, String>::empty(),
        },
{
    match parse_entries(raw) {
        Some(entries) => catalog_of(entries),
        None => StringHashMap::new(),
    }
}

/// The catalogs of all languages but English.
pub struct Catalogs {
    pub spanish: StringHashMap<String>,
    pub french: StringHashMap<String>,
    pub german: StringHashMap<String>,
    pub russian: StringHashMap<String>,
    pub portuguese: StringHashMap<String>,
    pub italian: StringHashMap<String>,
}

impl Catalogs {
    /// The translations into a language.
    pub open spec fn of(self, language: Language) -> Map<Seq<char>, String> {
        match language {
            Language::English => Map::empty(),
            Language::Spanish => self.spanish@,
            Language::French => self.french@,
            Language::German => self.german@,
            Language::Russian => self.russian@,
            Language::Portuguese => self.portuguese@,
            Language::Italian => self.italian@,
        }
    }
}

/// A text in the language of a catalog, the text itself where the catalog
/// lacks it.
pub open spec fn translation(map: Map<Seq<char>, String>, text: Seq<char>) -> Seq<char> {
    if map.contains_key(text) {
        map[text]@
    } else {
        text
    }
}

/// Translates against a specific language.
pub fn translate(catalogs: &Catalogs, language: Language, text: &str) -> (r: String)
    ensures
        r@ == translation(catalogs.of(language), text@),
{
    let map = match language {
        Language::English => return text.to_owned(),
        Language::Spanish => &catalogs.spanish,
        Language::French => &catalogs.french,
        Language::German => &catalogs.german,
        Language::Russian => &catalogs.russian,
        Language::Portuguese => &catalogs.portuguese,
        Language::Italian => &catalogs.italian,
    };
    match map.get(text) {
        Some(found) => found.clone(),
        None => text.to_owned(),
    }
}

/// The catalogs and the language that texts are shown in.
pub struct Translator {
    pub catalogs: Catalogs,
    pub current: Language,
}

impl Translator {
    /// A text as it is shown.
    pub open spec fn says(self, text: Seq<char>) -> Seq<char> {
        translation(self.catalogs.of(self.current), text)
    }

    /// Shows texts in English until a language is chosen.
    pub fn new(catalogs: Catalogs) -> (r: Self)
        ensures
            r.catalogs == catalogs,
            r.current == Language::English,
    {
        Translator { catalogs, current: Language::English }
    }

    /// Sets the language that all later texts are shown in.
    pub fn set_language(&mut self, language: Language)
        ensures
            final(self).catalogs == old(self).catalogs,
            final(self).current == language,
    {
        self.current = language;
    }

    /// The current language.
    pub fn language(&self) -> (r: Language)
        ensures
            r == self.current,
    {
        self.current
    }
}

/// Translates an English text into the current language, falling back to the
/// input when the language is English or the text is not in the catalog.
pub fn tr(translator: &Translator, text: &str) -> (r: String)
    ensures
        r@ == translator.says(text@),
{
    translate(&translator.catalogs, translator.current, text)
}

/// Translates a text and puts a value in for a placeholder.
pub(crate) fn tr_with(translator: &Translator, text: &str, name: &str, value: &str) -> (r: String)
    requires
        name@.len() > 0,
    ensures
        r@ == crate::text::replaced(translator.says(text@), name@, value@),
{
    let shown = tr(translator, text);
    replace(shown.as_str(), name, value)
}

/// English texts are shown as they are written.
pub proof fn english_is_shown_verbatim(translator: Translator, text: Seq<char>)
    requires
        translator.current == Language::English,
    ensures
        translator.says(text) == text,
{
}

/// A text that the catalog of the current language lacks is shown in
/// English.
pub proof fn a_missing_text_is_shown_in_english(
    translator: Translator,
    text: Seq<char>,
    entries: Seq<(Seq<char>, Seq<char>)>,
)
    requires
        is_catalog(translator.catalogs.of(translator.current), entries),
        forall|i: int| 0 <= i < entries.len() ==> (#[trigger] entries[i]).0 != text,
    ensures
        translator.says(text) == text,
{
}

/// A text that the catalog of the current language has is shown as the
/// catalog gives it.
pub proof fn a_catalog_text_is_shown_translated(
    translator: Translator,
    entries: Seq<(Seq<char>, Seq<char>)>,
    i: int,
)
    requires
        is_catalog(translator.catalogs.of(translator.current), entries),
        0 <= i < entries.len(),
    ensures
        translator.says(entries[i].0) == entries[i].1,
{
    assert(translator.catalogs.of(translator.current).contains_key(entries[i].0));
}

} // verus!
