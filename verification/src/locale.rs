//! Validation of locale codes: membership in the reference table and the
//! split into language and region.

use vstd::prelude::*;
use vstd::string::*;
use crate::codes::{
    is_known_locale, is_language_region, is_lower_letter, lemma_code_form, lemma_codes_distinct,
    locale_code, LOCALE_CODES, LOCALE_COUNT,
};
use crate::text::{
    ascii_lower, ascii_lowercase, first_index_of, lemma_first_index_of_unique, same_text,
    to_ascii_lower,
};

verus! {

/// The failure of [`validate`]: the code is not in the reference table.
#[derive(Debug, Clone, Copy, PartialEq, Eq, Structural)]
pub struct InvalidLocale;

/// The language of a locale code: the part before the first hyphen, the whole
/// code where it has no hyphen, and `en` for the empty code.
pub open spec fn language_of(s: Seq<char>) -> Seq<char> {
    if s.len() == 0 {
        "en"@
    } else {
        s.subrange(0, first_index_of(s, '-'))
    }
}

/// The region of a locale code, lower-cased: the part after the first hyphen,
/// and that of `US` where the code has no hyphen.
pub open spec fn region_of(s: Seq<char>) -> Seq<char> {
    let h = first_index_of(s, '-');
    if h == s.len() {
        ascii_lowercase("US"@)
    } else {
        ascii_lowercase(s.subrange(h + 1, s.len() as int))
    }
}

/// Splits a locale code at its first hyphen into language and lower-cased
/// region, with the defaults of [`language_of`] and [`region_of`].
///
/// Lower-casing maps the ASCII letters `A` to `Z`; every region in the
/// reference table is made of those.
pub fn split_locale(locale: &str) -> (r: (String, String))
    ensures
        r.0@ == language_of(locale@),
        r.1@ == region_of(locale@),
{
    let n: usize = locale.unicode_len();
    let mut h: usize = 0;
    while h < n && locale.get_char(h) != '-'
        invariant
            n == locale@.len(),
            h <= n,
            forall|k: int| 0 <= k < h ==> locale@[k] != '-',
        decreases n - h,
    {
        h += 1;
    }
    proof {
        lemma_first_index_of_unique(locale@, '-', h as int);
    }
    let language = if n == 0 {
        String::from_str("en")
    } else {
        String::from_str(locale.substring_char(0, h))
    };
    let region = if h == n {
        to_ascii_lower("US")
    } else {
        to_ascii_lower(locale.substring_char(h + 1, n))
    };
    (language, region)
}

/// Whether `locale` is, exactly as written, one of the codes in the reference
/// table.
pub fn is_listed(locale: &str) -> (r: bool)
    ensures
        r == is_known_locale(locale@),
{
    let mut i: usize = 0;
    while i < LOCALE_COUNT
        invariant
            i <= LOCALE_COUNT,
            forall|k: int| 0 <= k < i ==> locale_code(k) != locale@,
        decreases LOCALE_COUNT - i,
    {
        proof {
            reveal(locale_code);
        }
        if same_text(LOCALE_CODES[i], locale) {
            assert(locale_code(i as int) == locale@);
            return true;
        }
        i += 1;
    }
    false
}

/// Checks a locale code against the reference table and splits it.
///
/// The code is compared as written, before any change of case. A code in the
/// table gives its language and its lower-cased region; any other input,
/// the empty string among them, is refused.
pub fn validate(locale: &str) -> (r: Result<(String, String), InvalidLocale>)
    ensures
        r is Ok <==> is_known_locale(locale@),
        r matches Ok(parts) ==> parts.0@ == language_of(locale@) && parts.1@ == region_of(
            locale@,
        ),
{
    if is_listed(locale) {
        Ok(split_locale(locale))
    } else {
        Err(InvalidLocale)
    }
}

/// The codes of the reference table, each once, in the order of the table.
pub fn list_locales() -> (r: Vec<&'static str>)
    ensures
        r@.len() == LOCALE_COUNT,
        forall|i: int| 0 <= i < LOCALE_COUNT ==> (#[trigger] r@[i])@ == locale_code(i),
{
    let mut out: Vec<&'static str> = Vec::new();
    let mut i: usize = 0;
    while i < LOCALE_COUNT
        invariant
            i <= LOCALE_COUNT,
            out@.len() == i,
            forall|k: int| 0 <= k < i ==> (#[trigger] out@[k])@ == locale_code(k),
        decreases LOCALE_COUNT - i,
    {
        proof {
            reveal(locale_code);
        }
        out.push(LOCALE_CODES[i]);
        i += 1;
    }
    out
}

/// A code of the reference table splits at its only hyphen: the language is
/// what stands before it, two or three lower-case letters, and the region is
/// the two letters after it, lower-cased. No default takes part.
pub proof fn lemma_known_locale_split(s: Seq<char>)
    requires
        is_known_locale(s),
    ensures
        is_language_region(s),
        first_index_of(s, '-') == s.len() - 3,
        language_of(s) == s.subrange(0, s.len() - 3),
        region_of(s) == seq![ascii_lower(s[s.len() - 2]), ascii_lower(s[s.len() - 1])],
        is_lower_letter(region_of(s)[0]),
        is_lower_letter(region_of(s)[1]),
        s == language_of(s) + seq!['-'] + s.subrange(s.len() - 2, s.len() as int),
{
    let i = choose|i: int| 0 <= i < LOCALE_COUNT && locale_code(i) == s;
    lemma_code_form(i);
    lemma_first_index_of_unique(s, '-', s.len() - 3);
    assert(region_of(s) =~= seq![ascii_lower(s[s.len() - 2]), ascii_lower(s[s.len() - 1])]);
    assert(s =~= language_of(s) + seq!['-'] + s.subrange(s.len() - 2, s.len() as int));
}

/// The list of [`list_locales`] holds every known code at exactly one place.
pub proof fn lemma_listed_once(listed: Seq<Seq<char>>, s: Seq<char>)
    requires
        listed.len() == LOCALE_COUNT,
        forall|i: int| 0 <= i < LOCALE_COUNT ==> #[trigger] listed[i] == locale_code(i),
        is_known_locale(s),
    ensures
        exists|i: int| 0 <= i < listed.len() && #[trigger] listed[i] == s,
        forall|i: int, j: int|
            0 <= i < listed.len() && 0 <= j < listed.len() && listed[i] == s && listed[j] == s
                ==> i == j,
{
    let w = choose|i: int| 0 <= i < LOCALE_COUNT && locale_code(i) == s;
    assert(listed[w] == s);
    assert forall|i: int, j: int|
        0 <= i < listed.len() && 0 <= j < listed.len() && listed[i] == s && listed[j]
            == s implies i == j by {
        if i != j {
            lemma_codes_distinct(i, j);
        }
    }
}

} // verus!
