//! The language in which the user is addressed.

use crate::text::{chars_of, same_text};
use vstd::prelude::*;

verus! {

/// Whether `c` parts the language of a locale from what follows it.
pub open spec fn is_separator(c: char) -> bool {
    c == '-' || c == '_'
}

/// The index of the first separator at or after `i`, or the length of
/// `locale` if there is none.
pub open spec fn language_end(locale: Seq<char>, i: int) -> int
    decreases locale.len() - i,
{
    if 0 <= i < locale.len() && !is_separator(locale[i]) {
        language_end(locale, i + 1)
    } else {
        i
    }
}

/// The part of `locale` before its first separator.
pub open spec fn language_part(locale: Seq<char>) -> Seq<char> {
    locale.take(language_end(locale, 0))
}

/// Whether the user can be addressed in the language `code`.
pub open spec fn is_supported(code: Seq<char>) -> bool {
    ||| code == "en"@
    ||| code == "es"@
    ||| code == "fr"@
    ||| code == "it"@
    ||| code == "de"@
    ||| code == "zh"@
}

/// The language for a locale: the part before its first separator where the
/// user can be addressed in it, else English; English too where the locale
/// is not known.
pub open spec fn language_of(locale: Option<Seq<char>>) -> Seq<char> {
    match locale {
        Some(locale) => if is_supported(language_part(locale)) {
            language_part(locale)
        } else {
            "en"@
        },
        None => "en"@,
    }
}

/// The characters of an optional text.
pub open spec fn locale_chars(locale: Option<&str>) -> Option<Seq<char>> {
    match locale {
        Some(locale) => Some(locale@),
        None => None,
    }
}

/// The language in which to address a user of the locale `locale`.
pub fn language_code<'a>(locale: Option<&'a str>) -> (r: &'a str)
    ensures
        r@ == language_of(locale_chars(locale)),
{
    let locale = match locale {
        Some(locale) => locale,
        None => {
            return "en";
        },
    };
    let chars = chars_of(locale);
    let mut end: usize = 0;
    while end < chars.len() && chars[end] != '-' && chars[end] != '_'
        invariant
            end <= chars.len(),
            language_end(chars@, 0) == language_end(chars@, end as int),
        decreases chars.len() - end,
    {
        end += 1;
    }
    let code = locale.substring_char(0, end);
    if same_text(code, "en") || same_text(code, "es") || same_text(code, "fr") || same_text(
        code,
        "it",
    ) || same_text(code, "de") || same_text(code, "zh") {
        code
    } else {
        "en"
    }
}

} // verus!
