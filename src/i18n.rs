//! Message lookup: an explicitly built translation table, placeholder
//! substitution, and the choice of language from the locale settings.
use vstd::prelude::*;
use vstd::string::*;
use crate::text::{has_prefix, replace_all, replaced, starts_with};
use crate::token::opt_view;

verus! {

/// The map that a list of entries builds: a later entry for a key replaces
/// an earlier one.
pub open spec fn table(e: Seq<(String, String)>) -> Map<Seq<char>, Seq<char>>
    decreases e.len(),
{
    if e.len() == 0 {
        Map::empty()
    } else {
        table(e.drop_last()).insert(e.last().0@, e.last().1@)
    }
}

/// A translation table from message keys to texts.
pub struct Translations {
    entries: Vec<(String, String)>,
}

impl View for Translations {
    type V = Map<Seq<char>, Seq<char>>;

    closed spec fn view(&self) -> Map<Seq<char>, Seq<char>> {
        table(self.entries@)
    }
}

impl Translations {
    pub fn new() -> (r: Translations)
        ensures
            r@ == Map::<Seq<char>, Seq<char>>::empty(),
    {
        Translations { entries: Vec::new() }
    }

    /// Adds or replaces the text of a key.
    pub fn insert(&mut self, key: String, value: String)
        ensures
            final(self)@ == old(self)@.insert(key@, value@),
    {
        self.entries.push((key, value));
        assert(self.entries@.drop_last() =~= old(self).entries@);
    }

    pub fn is_empty(&self) -> (r: bool)
        ensures
            r == (self@ == Map::<Seq<char>, Seq<char>>::empty()),
    {
        proof {
            let e = self.entries@;
            if e.len() > 0 {
                assert(table(e).contains_key(e.last().0@));
            }
        }
        self.entries.len() == 0
    }

    /// The text stored for `key`, if any.
    pub fn lookup(&self, key: &str) -> (r: Option<String>)
        ensures
            r is Some <==> self@.contains_key(key@),
            r is Some ==> r->0@ == self@[key@],
    {
        let k = key.to_owned();
        let mut found: Option<usize> = None;
        let mut i: usize = 0;
        while i < self.entries.len()
            invariant
                i <= self.entries@.len(),
                k@ == key@,
                found is Some <==> table(self.entries@.subrange(0, i as int)).contains_key(key@),
                found is Some ==> found->0 < i && self.entries@[found->0 as int].1@ == table(
                    self.entries@.subrange(0, i as int),
                )[key@],
            decreases self.entries@.len() - i,
        {
            assert(self.entries@.subrange(0, i + 1).drop_last() =~= self.entries@.subrange(0, i as int));
            if self.entries[i].0 == k {
                found = Some(i);
            }
            i += 1;
        }
        assert(self.entries@.subrange(0, i as int) =~= self.entries@);
        match found {
            Some(j) => Some(self.entries[j].1.clone()),
            None => None,
        }
    }
}

/// The text for `key`, or the key itself where the table has none.
pub open spec fn translated(tr: Map<Seq<char>, Seq<char>>, key: Seq<char>) -> Seq<char> {
    if tr.contains_key(key) {
        tr[key]
    } else {
        key
    }
}

/// The text for `key`, or the key itself where the table has none.
pub fn t(translations: &Translations, key: &str) -> (r: String)
    ensures
        r@ == translated(translations@, key@),
{
    match translations.lookup(key) {
        Some(s) => s,
        None => key.to_owned(),
    }
}

/// The placeholder that stands for argument `k` in a message: `%{k}`.
pub open spec fn placeholder(k: Seq<char>) -> Seq<char> {
    "%{"@ + k + "}"@
}

/// Substitutes each argument's placeholder in turn, first argument first.
pub open spec fn substituted(s: Seq<char>, args: Seq<(&str, &str)>) -> Seq<char>
    decreases args.len(),
{
    if args.len() == 0 {
        s
    } else {
        substituted(replaced(s, placeholder(args[0].0@), args[0].1@), args.drop_first())
    }
}

fn placeholder_of(k: &str) -> (r: String)
    ensures
        r@ == placeholder(k@),
{
    let mut p = "%{".to_owned();
    p.append(k);
    p.append("}");
    p
}

/// The text for `key` with every `%{name}` replaced by its argument's value.
pub fn t_with_args(translations: &Translations, key: &str, args: &[(&str, &str)]) -> (r: String)
    ensures
        r@ == substituted(translated(translations@, key@), args@),
{
    let mut result = t(translations, key);
    let ghost start = result@;
    let mut i: usize = 0;
    assert(args@.subrange(0, args@.len() as int) =~= args@);
    while i < args.len()
        invariant
            i <= args@.len(),
            start == translated(translations@, key@),
            substituted(result@, args@.subrange(i as int, args@.len() as int)) == substituted(start, args@),
        decreases args@.len() - i,
    {
        let (k, v) = args[i];
        let p = placeholder_of(k);
        let next = replace_all(result.as_str(), p.as_str(), v);
        assert(args@.subrange(i as int, args@.len() as int).drop_first() =~= args@.subrange(
            i + 1,
            args@.len() as int,
        ));
        result = next;
        i += 1;
    }
    result
}

/// The language that one locale setting names, where it names a known one.
pub open spec fn language_of(v: Seq<char>) -> Option<Seq<char>> {
    if has_prefix(v, "pt_BR"@) || has_prefix(v, "pt-BR"@) {
        Some("pt-br"@)
    } else if has_prefix(v, "es_ES"@) || has_prefix(v, "es-ES"@) {
        Some("es"@)
    } else if has_prefix(v, "fr_FR"@) || has_prefix(v, "fr-FR"@) {
        Some("fr"@)
    } else if has_prefix(v, "pt"@) {
        Some("pt-br"@)
    } else if has_prefix(v, "es"@) {
        Some("es"@)
    } else if has_prefix(v, "fr"@) {
        Some("fr"@)
    } else if has_prefix(v, "de"@) {
        Some("de"@)
    } else {
        None
    }
}

/// The first setting that names a known language decides; English otherwise.
pub open spec fn chosen_language(lang: Option<Seq<char>>, locale: Option<Seq<char>>) -> Seq<char> {
    if lang is Some && language_of(lang->0) is Some {
        language_of(lang->0)->0
    } else if locale is Some && language_of(locale->0) is Some {
        language_of(locale->0)->0
    } else {
        "en"@
    }
}

fn language_from(v: &str) -> (r: Option<String>)
    ensures
        opt_view(r) == language_of(v@),
{
    if starts_with(v, "pt_BR") || starts_with(v, "pt-BR") {
        Some("pt-br".to_owned())
    } else if starts_with(v, "es_ES") || starts_with(v, "es-ES") {
        Some("es".to_owned())
    } else if starts_with(v, "fr_FR") || starts_with(v, "fr-FR") {
        Some("fr".to_owned())
    } else if starts_with(v, "pt") {
        Some("pt-br".to_owned())
    } else if starts_with(v, "es") {
        Some("es".to_owned())
    } else if starts_with(v, "fr") {
        Some("fr".to_owned())
    } else if starts_with(v, "de") {
        Some("de".to_owned())
    } else {
        None
    }
}

/// The interface language from the `LANG` setting and, where the platform
/// has one, the `LOCALE` setting.
pub fn detect_language(lang: Option<String>, locale: Option<String>) -> (r: String)
    ensures
        r@ == chosen_language(opt_view(lang), opt_view(locale)),
{
    if let Some(l) = &lang {
        if let Some(found) = language_from(l.as_str()) {
            return found;
        }
    }
    if let Some(l) = &locale {
        if let Some(found) = language_from(l.as_str()) {
            return found;
        }
    }
    "en".to_owned()
}

/// The relative path of a language's message file.
pub fn locale_path(lang: &str) -> (r: String)
    ensures
        r@ == "locales/"@ + lang@ + ".yml"@,
{
    let mut p = "locales/".to_owned();
    p.append(lang);
    p.append(".yml");
    p
}

} // verus!
