use geospoofer::country::{get_country_by_locale, Country};
use geospoofer::directory::{
    find_country, is_success_status, read_country, resolve, CountryInfo, FetchOutcome, ResolveError,
};
use geospoofer::json::Json;
use geospoofer::locale::InvalidLocale;

fn number(x: f64) -> Json {
    Json::Number(Some(x.to_bits()))
}

fn text(s: &str) -> Json {
    Json::Text(s.to_string())
}

fn object(fields: Vec<(&str, Json)>) -> Json {
    Json::Object(fields.into_iter().map(|(k, v)| (k.to_string(), v)).collect())
}

fn record(locale: &str, name: &str, latitude: f64, longitude: f64) -> Json {
    object(vec![
        ("locale", text(locale)),
        (
            "country",
            object(vec![
                ("name", text(name)),
                ("capital_latitude", number(latitude)),
                ("capital_longitude", number(longitude)),
            ]),
        ),
    ])
}

fn answered(body: &str) -> FetchOutcome {
    FetchOutcome::Answered { status: 200, body: body.to_string() }
}

const CANADA: &str = "[{\"locale\": \"fr-CA\", \"country\": {\"name\": \"Canada\", \
    \"capital_latitude\": 45.4215, \"capital_longitude\": -75.6972}}]";

#[test]
fn resolve_returns_the_country_of_the_record() {
    let info = resolve("fr-CA", &answered(CANADA)).unwrap();
    assert_eq!(info.name, "Canada");
    assert_eq!(f64::from_bits(info.latitude), 45.4215);
    assert_eq!(f64::from_bits(info.longitude), -75.6972);
}

#[test]
fn resolve_reads_whole_numbers_as_doubles() {
    let body = "[{\"locale\": \"es-EC\", \"country\": {\"name\": \"Ecuador\", \
        \"capital_latitude\": 0, \"capital_longitude\": -78}}]";
    let info = resolve("es-EC", &answered(body)).unwrap();
    assert_eq!(f64::from_bits(info.latitude), 0.0);
    assert_eq!(f64::from_bits(info.longitude), -78.0);
}

#[test]
fn resolve_ignores_other_members() {
    let body = "[{\"id\": 3, \"locale\": \"fr-CA\", \"language\": {\"name\": \"French\"}, \
        \"country\": {\"iso\": \"CA\", \"name\": \"Canada\", \"capital_latitude\": 45.4215, \
        \"capital_longitude\": -75.6972, \"capital_name\": \"Ottawa\"}}]";
    let info = resolve("fr-CA", &answered(body)).unwrap();
    assert_eq!(
        info,
        CountryInfo {
            name: "Canada".to_string(),
            latitude: 45.4215f64.to_bits(),
            longitude: (-75.6972f64).to_bits(),
        }
    );
}

#[test]
fn resolve_fails_with_locale_not_found_without_a_matching_record() {
    assert_eq!(resolve("de-DE", &answered(CANADA)), Err(ResolveError::LocaleNotFound));
    assert_eq!(resolve("fr-CA", &answered("[]")), Err(ResolveError::LocaleNotFound));
}

#[test]
fn resolve_matches_the_locale_exactly() {
    assert_eq!(resolve("fr-ca", &answered(CANADA)), Err(ResolveError::LocaleNotFound));
    assert_eq!(resolve("fr-C", &answered(CANADA)), Err(ResolveError::LocaleNotFound));
    assert_eq!(resolve("fr-CA ", &answered(CANADA)), Err(ResolveError::LocaleNotFound));
    assert_eq!(resolve("", &answered(CANADA)), Err(ResolveError::LocaleNotFound));
}

#[test]
fn resolve_fails_with_incomplete_data_without_a_longitude() {
    let body = "[{\"locale\": \"fr-CA\", \"country\": {\"name\": \"Canada\", \
        \"capital_latitude\": 45.4215}}]";
    assert_eq!(resolve("fr-CA", &answered(body)), Err(ResolveError::IncompleteCountryData));
}

#[test]
fn resolve_fails_with_incomplete_data_without_a_latitude_or_a_name() {
    let no_latitude = "[{\"locale\": \"fr-CA\", \"country\": {\"name\": \"Canada\", \
        \"capital_longitude\": -75.6972}}]";
    let no_name = "[{\"locale\": \"fr-CA\", \"country\": {\"capital_latitude\": 45.4215, \
        \"capital_longitude\": -75.6972}}]";
    let no_country = "[{\"locale\": \"fr-CA\"}]";
    assert_eq!(resolve("fr-CA", &answered(no_latitude)), Err(ResolveError::IncompleteCountryData));
    assert_eq!(resolve("fr-CA", &answered(no_name)), Err(ResolveError::IncompleteCountryData));
    assert_eq!(resolve("fr-CA", &answered(no_country)), Err(ResolveError::IncompleteCountryData));
}

#[test]
fn resolve_fails_with_incomplete_data_for_a_member_of_the_wrong_type() {
    let text_latitude = "[{\"locale\": \"fr-CA\", \"country\": {\"name\": \"Canada\", \
        \"capital_latitude\": \"45.4215\", \"capital_longitude\": -75.6972}}]";
    let null_longitude = "[{\"locale\": \"fr-CA\", \"country\": {\"name\": \"Canada\", \
        \"capital_latitude\": 45.4215, \"capital_longitude\": null}}]";
    let number_name = "[{\"locale\": \"fr-CA\", \"country\": {\"name\": 7, \
        \"capital_latitude\": 45.4215, \"capital_longitude\": -75.6972}}]";
    let text_country = "[{\"locale\": \"fr-CA\", \"country\": \"Canada\"}]";
    for body in [text_latitude, null_longitude, number_name, text_country] {
        assert_eq!(resolve("fr-CA", &answered(body)), Err(ResolveError::IncompleteCountryData));
    }
}

#[test]
fn resolve_fails_with_malformed_response_for_what_is_no_array() {
    let object = "{\"locale\": \"fr-CA\", \"country\": {\"name\": \"Canada\", \
        \"capital_latitude\": 45.4215, \"capital_longitude\": -75.6972}}";
    assert_eq!(resolve("fr-CA", &answered(object)), Err(ResolveError::MalformedResponse));
    assert_eq!(resolve("fr-CA", &answered("null")), Err(ResolveError::MalformedResponse));
    assert_eq!(resolve("fr-CA", &answered("\"fr-CA\"")), Err(ResolveError::MalformedResponse));
}

#[test]
fn resolve_fails_with_malformed_response_for_what_is_no_json() {
    assert_eq!(resolve("fr-CA", &answered("")), Err(ResolveError::MalformedResponse));
    assert_eq!(resolve("fr-CA", &answered("<html>")), Err(ResolveError::MalformedResponse));
    assert_eq!(resolve("fr-CA", &answered("[{\"locale\": ")), Err(ResolveError::MalformedResponse));
}

#[test]
fn resolve_fails_with_transport_error_for_an_error_status() {
    for status in [400u16, 404, 429, 499, 500, 503, 599] {
        let outcome = FetchOutcome::Answered { status, body: CANADA.to_string() };
        assert_eq!(resolve("fr-CA", &outcome), Err(ResolveError::TransportError), "{}", status);
    }
}

#[test]
fn resolve_fails_with_transport_error_for_any_status_but_success() {
    for status in [0u16, 100, 199, 300, 304, 399, 600, u16::MAX] {
        let outcome = FetchOutcome::Answered { status, body: CANADA.to_string() };
        assert_eq!(resolve("fr-CA", &outcome), Err(ResolveError::TransportError), "{}", status);
    }
}

#[test]
fn resolve_looks_at_the_status_before_the_body() {
    let outcome = FetchOutcome::Answered { status: 503, body: "<html>".to_string() };
    assert_eq!(resolve("fr-CA", &outcome), Err(ResolveError::TransportError));
}

#[test]
fn resolve_fails_with_transport_error_without_an_answer() {
    assert_eq!(resolve("fr-CA", &FetchOutcome::Unreachable), Err(ResolveError::TransportError));
}

#[test]
fn resolve_reads_the_body_of_a_successful_answer() {
    for status in [200u16, 201, 204, 299] {
        let outcome = FetchOutcome::Answered { status, body: CANADA.to_string() };
        assert_eq!(resolve("fr-CA", &outcome).map(|info| info.name), Ok("Canada".to_string()));
    }
}

#[test]
fn is_success_status_holds_of_200_to_299() {
    assert!(!is_success_status(0));
    assert!(!is_success_status(199));
    assert!(is_success_status(200));
    assert!(is_success_status(204));
    assert!(is_success_status(299));
    assert!(!is_success_status(300));
    assert!(!is_success_status(404));
    assert!(!is_success_status(503));
    assert!(!is_success_status(u16::MAX));
}

#[test]
fn find_country_returns_the_country_of_the_record() {
    let doc = Json::Array(vec![
        record("en-US", "United States", 38.9072, -77.0369),
        record("fr-CA", "Canada", 45.4215, -75.6972),
    ]);
    let info = find_country(&doc, "fr-CA").unwrap();
    assert_eq!(info.name, "Canada");
    assert_eq!(f64::from_bits(info.latitude), 45.4215);
    assert_eq!(f64::from_bits(info.longitude), -75.6972);
}

#[test]
fn find_country_takes_the_first_of_several_matches() {
    let doc = Json::Array(vec![
        record("fr-CA", "Canada", 45.4215, -75.6972),
        record("fr-CA", "Kanada", 1.0, 2.0),
    ]);
    assert_eq!(find_country(&doc, "fr-CA").unwrap().name, "Canada");
    let doc = Json::Array(vec![
        object(vec![("locale", text("fr-CA"))]),
        record("fr-CA", "Canada", 45.4215, -75.6972),
    ]);
    assert_eq!(find_country(&doc, "fr-CA"), Err(ResolveError::IncompleteCountryData));
}

#[test]
fn find_country_passes_over_records_without_a_locale_string() {
    let doc = Json::Array(vec![
        Json::Null,
        number(1.0),
        object(vec![("locale", number(2.0))]),
        object(vec![("Locale", text("fr-CA"))]),
        Json::Array(vec![text("fr-CA")]),
        record("fr-CA", "Canada", 45.4215, -75.6972),
    ]);
    assert_eq!(find_country(&doc, "fr-CA").unwrap().name, "Canada");
}

#[test]
fn find_country_fails_for_what_is_no_array() {
    assert_eq!(
        find_country(&record("fr-CA", "Canada", 45.4215, -75.6972), "fr-CA"),
        Err(ResolveError::MalformedResponse)
    );
    assert_eq!(find_country(&Json::Null, "fr-CA"), Err(ResolveError::MalformedResponse));
}

#[test]
fn find_country_fails_without_a_match() {
    let doc = Json::Array(vec![record("en-US", "United States", 38.9072, -77.0369)]);
    assert_eq!(find_country(&doc, "fr-CA"), Err(ResolveError::LocaleNotFound));
    assert_eq!(find_country(&Json::Array(vec![]), "fr-CA"), Err(ResolveError::LocaleNotFound));
}

#[test]
fn read_country_wants_all_three_members() {
    let full = record("fr-CA", "Canada", 45.4215, -75.6972);
    assert_eq!(
        read_country(&full),
        Ok(CountryInfo {
            name: "Canada".to_string(),
            latitude: 45.4215f64.to_bits(),
            longitude: (-75.6972f64).to_bits(),
        })
    );
    let partial = object(vec![(
        "country",
        object(vec![("name", text("Canada")), ("capital_latitude", number(45.4215))]),
    )]);
    assert_eq!(read_country(&partial), Err(ResolveError::IncompleteCountryData));
    let unconverted = object(vec![(
        "country",
        object(vec![
            ("name", text("Canada")),
            ("capital_latitude", Json::Number(None)),
            ("capital_longitude", number(-75.6972)),
        ]),
    )]);
    assert_eq!(read_country(&unconverted), Err(ResolveError::IncompleteCountryData));
    assert_eq!(read_country(&Json::Null), Err(ResolveError::IncompleteCountryData));
}

#[test]
fn get_country_by_locale_fills_the_country_in() {
    let country = Country::unresolved("fr".to_string(), "ca".to_string());
    let resolved = get_country_by_locale(country, "fr-CA", &answered(CANADA)).unwrap();
    assert_eq!(resolved.country_code, "ca");
    assert_eq!(resolved.language_code, "fr");
    assert_eq!(resolved.name.as_deref(), Some("Canada"));
    assert_eq!(resolved.latitude.map(f64::from_bits), Some(45.4215));
    assert_eq!(resolved.longitude.map(f64::from_bits), Some(-75.6972));
}

#[test]
fn get_country_by_locale_passes_each_failure_on() {
    let country = || Country::unresolved("fr".to_string(), "ca".to_string());
    assert_eq!(
        get_country_by_locale(country(), "fr-CA", &FetchOutcome::Unreachable),
        Err(ResolveError::TransportError)
    );
    assert_eq!(
        get_country_by_locale(country(), "fr-CA", &answered("{}")),
        Err(ResolveError::MalformedResponse)
    );
    assert_eq!(
        get_country_by_locale(country(), "fr-CA", &answered("[]")),
        Err(ResolveError::LocaleNotFound)
    );
    assert_eq!(
        get_country_by_locale(country(), "fr-CA", &answered("[{\"locale\": \"fr-CA\"}]")),
        Err(ResolveError::IncompleteCountryData)
    );
}

#[test]
fn country_from_locale_starts_unresolved() {
    let country = Country::from_locale("fr-CA").unwrap();
    assert_eq!(
        country,
        Country {
            country_code: "ca".to_string(),
            language_code: "fr".to_string(),
            name: None,
            latitude: None,
            longitude: None,
        }
    );
    assert_eq!(Country::from_locale("xx-ZZ"), Err(InvalidLocale));
}
