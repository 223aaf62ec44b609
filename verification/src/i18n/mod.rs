//! Languages of the user interface and the texts shown in each of them.
//!
//! The texts of each language live in a table of their own (`en`, `zh_cn`,
//! `zh_tw`, `ja`, `ko`); [`CachedTranslations`] selects one table and hands
//! out its texts.

use vstd::prelude::*;

mod accessors;
mod en;
mod ja;
mod ko;
pub mod raw_key;
mod zh_cn;
mod zh_tw;

pub use raw_key::{get_raw_translation, raw_text, RawKey};

verus! {

/// Supported languages of the application.
#[derive(Debug, Clone, Copy, PartialEq, Eq, Structural)]
pub enum Language {
    /// English
    English,
    /// Simplified Chinese
    SimplifiedChinese,
    /// Traditional Chinese
    TraditionalChinese,
    /// Japanese
    Japanese,
    /// Korean
    Korean,
}

/// The position of each language in the list of all languages, which is
/// also the number it is stored as.
pub open spec fn language_index(l: Language) -> nat {
    match l {
        Language::English => 0,
        Language::SimplifiedChinese => 1,
        Language::TraditionalChinese => 2,
        Language::Japanese => 3,
        Language::Korean => 4,
    }
}

/// The language stored as `v`; numbers that name no language stand for
/// English.
pub open spec fn language_from_index(v: nat) -> Language {
    if v == 1 {
        Language::SimplifiedChinese
    } else if v == 2 {
        Language::TraditionalChinese
    } else if v == 3 {
        Language::Japanese
    } else if v == 4 {
        Language::Korean
    } else {
        Language::English
    }
}

/// Every language once, in the order of their numbers.
pub open spec fn all_languages() -> Seq<Language> {
    seq![
        Language::English,
        Language::SimplifiedChinese,
        Language::TraditionalChinese,
        Language::Japanese,
        Language::Korean,
    ]
}

/// The name of each language written in that language.
pub open spec fn language_display_name(l: Language) -> Seq<char> {
    match l {
        Language::English => "English"@,
        Language::SimplifiedChinese => "简体中文"@,
        Language::TraditionalChinese => "繁體中文"@,
        Language::Japanese => "日本語"@,
        Language::Korean => "한국어"@,
    }
}

impl Default for Language {
    /// English.
    fn default() -> (r: Language)
        ensures
            r == Language::English,
    {
        Language::English
    }
}

impl Language {
    /// Returns all available languages.
    pub fn all() -> (r: &'static [Language])
        ensures
            r@ == all_languages(),
    {
        let r: &'static [Language] = &[
            Language::English,
            Language::SimplifiedChinese,
            Language::TraditionalChinese,
            Language::Japanese,
            Language::Korean,
        ];
        assert(r@ =~= all_languages());
        r
    }

    /// Returns the display name of the language.
    pub fn display_name(&self) -> (r: &'static str)
        ensures
            r@ == language_display_name(*self),
    {
        match self {
            Language::English => "English",
            Language::SimplifiedChinese => "简体中文",
            Language::TraditionalChinese => "繁體中文",
            Language::Japanese => "日本語",
            Language::Korean => "한국어",
        }
    }

    /// Converts the language to the number it is stored as.
    pub fn to_u8(self) -> (r: u8)
        ensures
            r == language_index(self),
    {
        match self {
            Language::English => 0,
            Language::SimplifiedChinese => 1,
            Language::TraditionalChinese => 2,
            Language::Japanese => 3,
            Language::Korean => 4,
        }
    }

    /// Converts a stored number back to a language; unknown numbers give
    /// English.
    pub fn from_u8(value: u8) -> (r: Language)
        ensures
            r == language_from_index(value as nat),
    {
        match value {
            1 => Language::SimplifiedChinese,
            2 => Language::TraditionalChinese,
            3 => Language::Japanese,
            4 => Language::Korean,
            _ => Language::English,
        }
    }
}

/// Storing a language as a number and reading it back gives the same
/// language, and every language is stored as a number below five.
pub proof fn lemma_language_number_round_trip(l: Language)
    ensures
        language_from_index(language_index(l)) == l,
        language_index(l) < 5,
{
}

/// Every number below five is the number of the language read back from
/// it; larger numbers read back as English.
pub proof fn lemma_language_numbers(v: nat)
    ensures
        v < 5 ==> language_index(language_from_index(v)) == v,
        v >= 5 ==> language_from_index(v) == Language::English,
{
}

/// The list of all languages holds each language exactly once, at the
/// position given by its number.
pub proof fn lemma_all_languages_complete(l: Language)
    ensures
        all_languages().len() == 5,
        all_languages()[language_index(l) as int] == l,
        all_languages().contains(l),
        all_languages().no_duplicates(),
{
    assert(all_languages()[language_index(l) as int] == l);
}

/// Different languages have different display names.
pub proof fn lemma_display_names_distinct(a: Language, b: Language)
    requires
        a != b,
    ensures
        language_display_name(a) != language_display_name(b),
{
    reveal_strlit("English");
    reveal_strlit("简体中文");
    reveal_strlit("繁體中文");
    reveal_strlit("日本語");
    reveal_strlit("한국어");
    if language_display_name(a) == language_display_name(b) {
        let x = language_display_name(a);
        assert(x[0] == language_display_name(b)[0]);
        assert(x.len() == language_display_name(b).len());
    }
}

/// The texts of one language, selected once and read by the render loop.
#[derive(Clone, Copy)]
pub struct CachedTranslations {
    lang: Language,
}

impl View for CachedTranslations {
    type V = Language;

    /// The selected language.
    closed spec fn view(&self) -> Language {
        self.lang
    }
}

} // verus!
