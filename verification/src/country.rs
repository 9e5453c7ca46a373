//! The country of a run: the codes that the locale gives, and what the
//! directory adds to them.

use vstd::prelude::*;
use vstd::string::*;
use crate::codes::{is_known_locale, is_lower_letter};
use crate::directory::{
    resolution, resolve, CountryData, CountryInfo, FetchOutcome, ResolveError,
};
use crate::locale::{lemma_known_locale_split, language_of, region_of, validate, InvalidLocale};

verus! {

/// A country as the run knows it. The codes come from the locale; name and
/// capital coordinates are unset until the directory has been asked, and are
/// then set together. The coordinates are doubles, carried as their IEEE-754
/// bit patterns.
#[derive(Debug, Clone, PartialEq, Eq)]
pub struct Country {
    pub country_code: String,
    pub language_code: String,
    pub name: Option<String>,
    pub latitude: Option<u64>,
    pub longitude: Option<u64>,
}

/// The mathematical value of a [`Country`].
pub struct CountryView {
    pub country_code: Seq<char>,
    pub language_code: Seq<char>,
    pub name: Option<Seq<char>>,
    pub latitude: Option<u64>,
    pub longitude: Option<u64>,
}

impl View for Country {
    type V = CountryView;

    open spec fn view(&self) -> CountryView {
        CountryView {
            country_code: self.country_code@,
            language_code: self.language_code@,
            name: match self.name {
                Some(name) => Some(name@),
                None => None,
            },
            latitude: self.latitude,
            longitude: self.longitude,
        }
    }
}

impl CountryView {
    /// The country of these codes before the directory has been asked.
    pub open spec fn unresolved(language_code: Seq<char>, country_code: Seq<char>) -> CountryView {
        CountryView { country_code, language_code, name: None, latitude: None, longitude: None }
    }

    /// Whether the country code is two lower-case letters, as that of every
    /// valid locale is.
    pub open spec fn has_two_letter_code(self) -> bool {
        &&& self.country_code.len() == 2
        &&& is_lower_letter(self.country_code[0])
        &&& is_lower_letter(self.country_code[1])
    }

    /// Whether name and coordinates are all unset.
    pub open spec fn is_unresolved(self) -> bool {
        self.name is None && self.latitude is None && self.longitude is None
    }

    /// Whether name and coordinates are all set.
    pub open spec fn is_resolved(self) -> bool {
        self.name is Some && self.latitude is Some && self.longitude is Some
    }

    /// This country with the name and coordinates that the directory gave.
    pub open spec fn with_data(self, data: CountryData) -> CountryView {
        CountryView {
            country_code: self.country_code,
            language_code: self.language_code,
            name: Some(data.name),
            latitude: Some(data.latitude),
            longitude: Some(data.longitude),
        }
    }
}

impl Country {
    /// The country of these codes, with nothing from the directory yet.
    pub fn unresolved(language_code: String, country_code: String) -> (r: Country)
        ensures
            r@ == CountryView::unresolved(language_code@, country_code@),
            r@.is_unresolved(),
    {
        Country { country_code, language_code, name: None, latitude: None, longitude: None }
    }

    /// The unresolved country of a locale code, where the code is in the
    /// reference table.
    pub fn from_locale(locale: &str) -> (r: Result<Country, InvalidLocale>)
        ensures
            r is Ok <==> is_known_locale(locale@),
            r matches Ok(country) ==> country@ == CountryView::unresolved(
                language_of(locale@),
                region_of(locale@),
            ) && country@.has_two_letter_code(),
    {
        proof {
            if is_known_locale(locale@) {
                lemma_known_locale_split(locale@);
            }
        }
        match validate(locale) {
            Ok(parts) => Ok(Country::unresolved(parts.0, parts.1)),
            Err(e) => Err(e),
        }
    }

    /// This country with the name and coordinates that the directory gave.
    pub fn with_info(self, info: CountryInfo) -> (r: Country)
        ensures
            r@ == self@.with_data(info@),
    {
        Country {
            country_code: self.country_code,
            language_code: self.language_code,
            name: Some(info.name),
            latitude: Some(info.latitude),
            longitude: Some(info.longitude),
        }
    }
}

/// Fills `country` with what the directory holds for `locale`.
///
/// On success the codes of `country` are kept and its name and coordinates
/// are those of the first record of the directory with that locale. On
/// failure nothing is filled in and the error says why, as [`resolve`] does.
pub fn get_country_by_locale(country: Country, locale: &str, outcome: &FetchOutcome) -> (r: Result<
    Country,
    ResolveError,
>)
    ensures
        match r {
            Ok(resolved) => resolution(locale@, outcome@) matches Ok(data) && resolved@
                == country@.with_data(data),
            Err(e) => resolution(locale@, outcome@) == Err::<CountryData, ResolveError>(e),
        },
{
    match resolve(locale, outcome) {
        Ok(info) => Ok(country.with_info(info)),
        Err(e) => Err(e),
    }
}

/// Filling a country in sets its name and coordinates together and leaves
/// its codes as they were.
pub proof fn lemma_filled_country(country: CountryView, data: CountryData)
    ensures
        country.with_data(data).is_resolved(),
        country.with_data(data).country_code == country.country_code,
        country.with_data(data).language_code == country.language_code,
        country.has_two_letter_code() ==> country.with_data(data).has_two_letter_code(),
{
}

} // verus!
