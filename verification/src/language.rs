//! Runtime language selection for localized report text.
//!
//! German is selected only when the system locale's language code is `de`;
//! all other or unavailable locales use English.

use vstd::prelude::*;

verus! {

/// A supported application language.
#[derive(Clone, Copy, Debug, PartialEq, Eq, Structural)]
pub enum Language {
    English,
    German,
}

/// Characters that end the language code of a locale such as `de-DE`,
/// `de_AT` or `de@euro`.
pub open spec fn is_locale_separator(c: char) -> bool {
    c == '-' || c == '_' || c == '@'
}

/// The position of the first separator at or after `i`, or the length when none follows.
pub open spec fn code_end_from(s: Seq<char>, i: int) -> int
    decreases s.len() - i,
{
    if i < 0 || i >= s.len() {
        s.len() as int
    } else if is_locale_separator(s[i]) {
        i
    } else {
        code_end_from(s, i + 1)
    }
}

/// The language code: the locale up to its first separator.
pub open spec fn language_code(s: Seq<char>) -> Seq<char> {
    s.take(code_end_from(s, 0))
}

/// Whether a language code is `de`, ignoring ASCII case.
pub open spec fn is_german_code(code: Seq<char>) -> bool {
    &&& code.len() == 2
    &&& (code[0] == 'd' || code[0] == 'D')
    &&& (code[1] == 'e' || code[1] == 'E')
}

/// The language chosen for a locale string, if the system reports one.
pub open spec fn language_for(locale: Option<Seq<char>>) -> Language {
    match locale {
        Some(s) => if is_german_code(language_code(s)) {
            Language::German
        } else {
            Language::English
        },
        None => Language::English,
    }
}

/// The operating system's preferred locale, as `sys_locale::get_locale` reports
/// it; it depends on the environment, so nothing is stated of it.
#[verifier::external_body]
fn system_locale() -> Option<String> {
    sys_locale::get_locale()
}

impl Language {
    /// Selects a supported language from the operating system locale.
    pub fn system() -> Language {
        match system_locale() {
            Some(locale) => Language::from_locale(Some(locale.as_str())),
            None => Language::from_locale(None),
        }
    }

    /// The locale of the bundled interface strings for this language.
    pub fn slint_locale(self) -> (r: &'static str)
        ensures
            self is English ==> r@ == "en"@,
            self is German ==> r@ == "de"@,
    {
        match self {
            Language::English => "en",
            Language::German => "de",
        }
    }

    /// German when the locale's language code is `de` in any ASCII case, else English.
    pub fn from_locale(locale: Option<&str>) -> (r: Language)
        ensures
            r == language_for(
                match locale {
                    Some(s) => Some(s@),
                    None => None,
                },
            ),
    {
        let locale = match locale {
            Some(locale) => locale,
            None => {
                return Language::English;
            },
        };
        let len = locale.unicode_len();
        let mut end: usize = 0;
        while end < len && !is_separator_char(locale.get_char(end))
            invariant
                len == locale@.len(),
                end <= len,
                code_end_from(locale@, 0) == code_end_from(locale@, end as int),
            decreases len - end,
        {
            end = end + 1;
        }
        proof {
            assert(code_end_from(locale@, end as int) == end);
            assert(language_code(locale@) =~= locale@.take(end as int));
        }
        if end != 2 {
            return Language::English;
        }
        let first = locale.get_char(0);
        let second = locale.get_char(1);
        if (first == 'd' || first == 'D') && (second == 'e' || second == 'E') {
            Language::German
        } else {
            Language::English
        }
    }
}

fn is_separator_char(c: char) -> (r: bool)
    ensures
        r == is_locale_separator(c),
{
    c == '-' || c == '_' || c == '@'
}

} // verus!
