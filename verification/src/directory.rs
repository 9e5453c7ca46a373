//! Resolution of a locale to its country through the answer of the locale
//! directory service.
//!
//! The service answers with a JSON array of records, each with a `locale`
//! string and a `country` object that carries `name`, `capital_latitude` and
//! `capital_longitude`. The caller makes the one HTTP request and hands over
//! what came back; everything after that is decided here.

use vstd::prelude::*;
use vstd::string::*;
use crate::json::{json_views, parse, parsed_json, Json, JsonValue};
use crate::search::{first_where, lemma_first_where_unique};
use crate::text::same_text;

verus! {

/// Why a locale could not be resolved to a country.
#[derive(Debug, Clone, Copy, PartialEq, Eq, Structural)]
pub enum ResolveError {
    /// The service could not be reached, or answered with a status other
    /// than success.
    TransportError,
    /// The body is not JSON, or its top-level value is not an array.
    MalformedResponse,
    /// No record of the array has the requested locale.
    LocaleNotFound,
    /// The record lacks the country's name or a capital coordinate, or holds
    /// one of them with the wrong type.
    IncompleteCountryData,
}

/// What the one request to the directory service came to.
#[derive(Debug, Clone, PartialEq, Eq)]
pub enum FetchOutcome {
    /// The service answered with this status code and body.
    Answered { status: u16, body: String },
    /// No answer could be had or read.
    Unreachable,
}

/// The mathematical value of a [`FetchOutcome`].
pub enum FetchOutcomeView {
    Answered { status: u16, body: Seq<char> },
    Unreachable,
}

impl View for FetchOutcome {
    type V = FetchOutcomeView;

    open spec fn view(&self) -> FetchOutcomeView {
        match self {
            FetchOutcome::Answered { status, body } => FetchOutcomeView::Answered {
                status: *status,
                body: body@,
            },
            FetchOutcome::Unreachable => FetchOutcomeView::Unreachable,
        }
    }
}

/// What the directory holds for a country. The coordinates of the capital are
/// doubles, carried as their IEEE-754 bit patterns.
#[derive(Debug, Clone, PartialEq, Eq)]
pub struct CountryInfo {
    pub name: String,
    pub latitude: u64,
    pub longitude: u64,
}

/// The mathematical value of a [`CountryInfo`].
pub struct CountryData {
    pub name: Seq<char>,
    pub latitude: u64,
    pub longitude: u64,
}

impl View for CountryInfo {
    type V = CountryData;

    open spec fn view(&self) -> CountryData {
        CountryData { name: self.name@, latitude: self.latitude, longitude: self.longitude }
    }
}

/// The status codes that stand for success: 200 to 299.
pub open spec fn success_status(status: u16) -> bool {
    200 <= status <= 299
}

/// The predicate on records: the member `locale` is the string `locale`.
pub open spec fn names_locale(locale: Seq<char>) -> spec_fn(JsonValue) -> bool {
    |record: JsonValue| record.member("locale"@).text() == Some(locale)
}

/// The country that a record carries, where its `country` member has a
/// string `name` and numbers `capital_latitude` and `capital_longitude`.
pub open spec fn country_of(record: JsonValue) -> Option<CountryData> {
    let country = record.member("country"@);
    let name = country.member("name"@).text();
    let latitude = country.member("capital_latitude"@).number();
    let longitude = country.member("capital_longitude"@).number();
    if name is Some && latitude is Some && longitude is Some {
        Some(CountryData { name: name->0, latitude: latitude->0, longitude: longitude->0 })
    } else {
        None
    }
}

/// What a directory document gives for `locale`: the country of the first
/// record with that locale, in the order of the array.
pub open spec fn lookup(doc: JsonValue, locale: Seq<char>) -> Result<CountryData, ResolveError> {
    match doc.items() {
        None => Err(ResolveError::MalformedResponse),
        Some(records) => {
            let i = first_where(records, names_locale(locale));
            if i == records.len() {
                Err(ResolveError::LocaleNotFound)
            } else {
                match country_of(records[i]) {
                    Some(country) => Ok(country),
                    None => Err(ResolveError::IncompleteCountryData),
                }
            }
        },
    }
}

/// What the outcome of the request gives for `locale`.
pub open spec fn resolution(locale: Seq<char>, outcome: FetchOutcomeView) -> Result<
    CountryData,
    ResolveError,
> {
    match outcome {
        FetchOutcomeView::Unreachable => Err(ResolveError::TransportError),
        FetchOutcomeView::Answered { status, body } => {
            if !success_status(status) {
                Err(ResolveError::TransportError)
            } else {
                match parsed_json(body) {
                    None => Err(ResolveError::MalformedResponse),
                    Some(doc) => lookup(doc, locale),
                }
            }
        },
    }
}

/// Whether `outcome`, a result over [`CountryInfo`], is `expected`.
pub open spec fn is_outcome(
    outcome: Result<CountryInfo, ResolveError>,
    expected: Result<CountryData, ResolveError>,
) -> bool {
    match outcome {
        Ok(info) => expected == Ok::<CountryData, ResolveError>(info@),
        Err(e) => expected == Err::<CountryData, ResolveError>(e),
    }
}

/// Whether a status code stands for success: 200 to 299.
pub fn is_success_status(status: u16) -> (r: bool)
    ensures
        r == success_status(status),
{
    200 <= status && status <= 299
}

/// Whether the member `locale` of `record` is the string `locale`.
fn record_names(record: &Json, locale: &str) -> (r: bool)
    ensures
        r == names_locale(locale@)(record@),
{
    match record.get("locale") {
        Some(value) => match value.as_text() {
            Some(text) => same_text(text, locale),
            None => false,
        },
        None => false,
    }
}

/// The string that the member `key` of `object` is, if it is one.
fn member_text<'a>(object: &'a Json, key: &str) -> (r: Option<&'a str>)
    ensures
        r is Some <==> object@.member(key@).text() is Some,
        r matches Some(s) ==> object@.member(key@).text() == Some(s@),
{
    match object.get(key) {
        Some(value) => value.as_text(),
        None => None,
    }
}

/// The number that the member `key` of `object` is, if it is one.
fn member_number(object: &Json, key: &str) -> (r: Option<u64>)
    ensures
        r == object@.member(key@).number(),
{
    match object.get(key) {
        Some(value) => value.as_number(),
        None => None,
    }
}

/// Reads the country out of a directory record. All three of name, latitude
/// and longitude must be there with the right type; none is defaulted.
pub fn read_country(record: &Json) -> (r: Result<CountryInfo, ResolveError>)
    ensures
        match r {
            Ok(info) => country_of(record@) == Some(info@),
            Err(e) => e == ResolveError::IncompleteCountryData && country_of(record@) is None,
        },
{
    let country = match record.get("country") {
        Some(country) => country,
        None => {
            return Err(ResolveError::IncompleteCountryData);
        },
    };
    let name = member_text(country, "name");
    let latitude = member_number(country, "capital_latitude");
    let longitude = member_number(country, "capital_longitude");
    match (name, latitude, longitude) {
        (Some(name), Some(latitude), Some(longitude)) => Ok(
            CountryInfo { name: String::from_str(name), latitude, longitude },
        ),
        _ => Err(ResolveError::IncompleteCountryData),
    }
}

/// Looks `locale` up in a directory document.
///
/// The document must be an array. Its records are scanned in order and the
/// first whose `locale` is, character for character, the requested one
/// decides: its country is returned, or `IncompleteCountryData` where the
/// record does not carry one in full. `LocaleNotFound` where no record has
/// the locale.
pub fn find_country(doc: &Json, locale: &str) -> (r: Result<CountryInfo, ResolveError>)
    ensures
        is_outcome(r, lookup(doc@, locale@)),
{
    let records = match doc.as_array() {
        Some(records) => records,
        None => {
            return Err(ResolveError::MalformedResponse);
        },
    };
    let n: usize = records.len();
    let mut i: usize = 0;
    while i < n
        invariant
            n == records@.len(),
            i <= n,
            doc@.items() == Some(json_views(records@)),
            forall|k: int| 0 <= k < i ==> !names_locale(locale@)(#[trigger] json_views(records@)[k]),
        decreases n - i,
    {
        if record_names(&records[i], locale) {
            proof {
                lemma_first_where_unique(json_views(records@), names_locale(locale@), i as int);
            }
            return read_country(&records[i]);
        }
        i += 1;
    }
    proof {
        lemma_first_where_unique(json_views(records@), names_locale(locale@), n as int);
    }
    Err(ResolveError::LocaleNotFound)
}

/// Resolves `locale` from the outcome of the request to the directory.
///
/// `TransportError` where the service was not reached or answered with a
/// status other than success, whatever the body; `MalformedResponse` where
/// the body of a successful answer is not a JSON array; and
/// otherwise what [`find_country`] gives for the document in the body.
pub fn resolve(locale: &str, outcome: &FetchOutcome) -> (r: Result<CountryInfo, ResolveError>)
    ensures
        is_outcome(r, resolution(locale@, outcome@)),
{
    match outcome {
        FetchOutcome::Unreachable => Err(ResolveError::TransportError),
        FetchOutcome::Answered { status, body } => {
            if !is_success_status(*status) {
                return Err(ResolveError::TransportError);
            }
            match parse(body.as_str()) {
                None => Err(ResolveError::MalformedResponse),
                Some(doc) => find_country(&doc, locale),
            }
        },
    }
}

/// Where no record of the array has the requested locale, the lookup fails
/// with `LocaleNotFound`.
pub proof fn lemma_lookup_not_found(doc: JsonValue, locale: Seq<char>)
    requires
        doc.items() is Some,
        forall|i: int|
            0 <= i < doc.items()->0.len() ==> !names_locale(locale)(#[trigger] doc.items()->0[i]),
    ensures
        lookup(doc, locale) == Err::<CountryData, ResolveError>(ResolveError::LocaleNotFound),
{
    let records = doc.items()->0;
    lemma_first_where_unique(records, names_locale(locale), records.len() as int);
}

/// The first record with the requested locale decides, whatever follows it:
/// the lookup gives its country, or fails with `IncompleteCountryData` where
/// the record does not carry one in full.
pub proof fn lemma_lookup_first_match(doc: JsonValue, locale: Seq<char>, i: int)
    requires
        doc.items() is Some,
        0 <= i < doc.items()->0.len(),
        names_locale(locale)(doc.items()->0[i]),
        forall|k: int| 0 <= k < i ==> !names_locale(locale)(#[trigger] doc.items()->0[k]),
    ensures
        lookup(doc, locale) == match country_of(doc.items()->0[i]) {
            Some(country) => Ok::<CountryData, ResolveError>(country),
            None => Err::<CountryData, ResolveError>(ResolveError::IncompleteCountryData),
        },
{
    lemma_first_where_unique(doc.items()->0, names_locale(locale), i);
}

/// A record carries a country only with all three of a string name, a
/// number for the latitude and a number for the longitude: where one of them
/// is absent or of another type, nothing stands in for it.
pub proof fn lemma_country_needs_all_fields(record: JsonValue)
    ensures
        country_of(record) is Some <==> {
            &&& record.member("country"@).member("name"@) is Text
            &&& record.member("country"@).member("capital_latitude"@).number() is Some
            &&& record.member("country"@).member("capital_longitude"@).number() is Some
        },
        country_of(record) matches Some(country) ==> {
            &&& record.member("country"@).member("name"@) == JsonValue::Text(country.name)
            &&& record.member("country"@).member("capital_latitude"@).number() == Some(
                country.latitude,
            )
            &&& record.member("country"@).member("capital_longitude"@).number() == Some(
                country.longitude,
            )
        },
{
}

/// The body of a successful answer that is not JSON, or whose top-level
/// value is not an array, is a malformed response, whatever the locale.
pub proof fn lemma_malformed_response(locale: Seq<char>, status: u16, body: Seq<char>)
    requires
        success_status(status),
        parsed_json(body) is None || parsed_json(body)->0.items() is None,
    ensures
        resolution(locale, FetchOutcomeView::Answered { status, body }) == Err::<
            CountryData,
            ResolveError,
        >(ResolveError::MalformedResponse),
{
}

/// A failed request, or an answer with a status other than success, is a
/// transport error, whatever the body and the locale.
pub proof fn lemma_transport_error(locale: Seq<char>, outcome: FetchOutcomeView)
    requires
        outcome is Unreachable || !success_status(outcome->status),
    ensures
        resolution(locale, outcome) == Err::<CountryData, ResolveError>(
            ResolveError::TransportError,
        ),
{
}

} // verus!
