//! One run, as a state machine: from the settings to the listing of the
//! table, or through validation and resolution to the device commands.
//!
//! The caller carries out each [`Action`] and hands back the [`Event`] that
//! it produced. Validation and resolution failures end the run at once, with
//! no device command; failures of single device commands do not end it.

use vstd::prelude::*;
use vstd::string::*;
use crate::codes::{is_known_locale, locale_code, LOCALE_COUNT};
use crate::country::{get_country_by_locale, Country, CountryView};
use crate::device::{action_views, device_actions, device_plan, DeviceAction, MissingCoordinate};
use crate::directory::{resolution, success_status, FetchOutcome, ResolveError};
use crate::locale::{language_of, list_locales, region_of};

verus! {

/// What the command line asks for.
#[derive(Debug, Clone, PartialEq, Eq)]
pub struct Settings {
    /// The locale code to apply.
    pub locale: String,
    /// The mobile country code of the carrier to show.
    pub mcc: String,
    /// The mobile network code of the carrier to show.
    pub mnc: String,
    /// Whether to list the reference table and do nothing else.
    pub list_locales: bool,
}

impl Settings {
    /// The settings of a command line without arguments: `en-US` with the
    /// carrier `310` `260`, and no listing.
    pub fn new() -> (r: Settings)
        ensures
            r.locale@ == "en-US"@,
            r.mcc@ == "310"@,
            r.mnc@ == "260"@,
            !r.list_locales,
    {
        Settings {
            locale: String::from_str("en-US"),
            mcc: String::from_str("310"),
            mnc: String::from_str("260"),
            list_locales: false,
        }
    }
}

/// Why a run failed.
#[derive(Debug, Clone, Copy, PartialEq, Eq, Structural)]
pub enum RunError {
    /// The locale is not in the reference table.
    InvalidLocale,
    /// The locale could not be resolved to a country.
    Resolve(ResolveError),
    /// The country has no capital coordinates to fix the GPS to.
    MissingCoordinate(MissingCoordinate),
}

/// Where a run stands.
#[derive(Debug, Clone, PartialEq, Eq)]
pub enum Stage {
    /// Nothing has been done.
    Start,
    /// The reference table is to be listed; the run is over.
    Listed,
    /// The locale is valid; the directory is to be asked about its country.
    Validated(Country),
    /// The country is known; the device commands are to be run.
    Resolved(Country),
    /// The device commands have been run; the run is over.
    Applied,
    /// The run has failed; it is over.
    Failed(RunError),
}

/// What the caller is to do next.
#[derive(Debug, Clone, PartialEq, Eq)]
pub enum Action {
    /// Print these codes, one to a line.
    PrintLocales(Vec<&'static str>),
    /// Ask the directory service and come back with `Event::Response`.
    FetchDirectory,
    /// Run these device commands in order, and come back with `Event::Done`.
    Apply(Vec<DeviceAction>),
    /// Nothing: stop with the exit code of the stage.
    Stop,
}

/// What the caller comes back with.
#[derive(Debug, Clone, PartialEq, Eq)]
pub enum Event {
    /// The run begins.
    Begin,
    /// The directory service was asked.
    Response(FetchOutcome),
    /// The device commands have been run, whatever became of each.
    Done,
}

/// Whether the run is over at `stage`.
pub open spec fn is_final(stage: Stage) -> bool {
    stage is Listed || stage is Applied || stage is Failed
}

/// Whether `next` is what a run with `settings` begins with: the listing
/// where it is asked for, whatever the other settings are; else failure for
/// a locale that is not in the table; else the request to the directory, for
/// the unresolved country of the locale.
pub open spec fn begins(settings: Settings, next: (Stage, Action)) -> bool {
    if settings.list_locales {
        &&& next.0 is Listed
        &&& next.1 matches Action::PrintLocales(codes)
        &&& codes@.len() == LOCALE_COUNT
        &&& forall|i: int| 0 <= i < LOCALE_COUNT ==> (#[trigger] codes@[i])@ == locale_code(i)
    } else if is_known_locale(settings.locale@) {
        &&& next.0 matches Stage::Validated(country)
        &&& country@ == CountryView::unresolved(
            language_of(settings.locale@),
            region_of(settings.locale@),
        )
        &&& next.1 is FetchDirectory
    } else {
        &&& next.0 == Stage::Failed(RunError::InvalidLocale)
        &&& next.1 is Stop
    }
}

/// Whether `next` is what follows the directory's answer `outcome` for
/// `country`: failure, with no device command, where the locale does not
/// resolve; else the country filled in and the plan of its device commands.
pub open spec fn responds(
    settings: Settings,
    country: Country,
    outcome: FetchOutcome,
    next: (Stage, Action),
) -> bool {
    match resolution(settings.locale@, outcome@) {
        Err(e) => {
            &&& next.0 == Stage::Failed(RunError::Resolve(e))
            &&& next.1 is Stop
        },
        Ok(data) => {
            &&& next.0 matches Stage::Resolved(resolved)
            &&& resolved@ == country@.with_data(data)
            &&& next.1 matches Action::Apply(actions)
            &&& action_views(actions@) == device_plan(
                settings.locale@,
                country@.with_data(data),
                settings.mcc@,
                settings.mnc@,
            )
        },
    }
}

/// The exit code of a run that stops at `stage`: 0 after the listing and
/// after the device commands, 1 after a failure and wherever else it stops.
pub open spec fn exit_code_of(stage: Stage) -> i32 {
    if stage is Listed || stage is Applied {
        0
    } else {
        1
    }
}

/// Whether `next` is the step from `stage` on `event`. A run at `Start`
/// begins; a validated run takes the directory's answer; a resolved run is
/// applied once its commands are done. An event that the stage does not wait
/// for changes nothing and stops the run.
pub open spec fn steps(settings: Settings, stage: Stage, event: Event, next: (Stage, Action)) -> bool {
    match (stage, event) {
        (Stage::Start, Event::Begin) => begins(settings, next),
        (Stage::Validated(country), Event::Response(outcome)) => responds(
            settings,
            country,
            outcome,
            next,
        ),
        (Stage::Resolved(_), Event::Done) => next.0 is Applied && next.1 is Stop,
        _ => next.0 == stage && next.1 is Stop,
    }
}

/// The first step of a run.
pub fn begin(settings: &Settings) -> (next: (Stage, Action))
    ensures
        begins(*settings, next),
{
    if settings.list_locales {
        return (Stage::Listed, Action::PrintLocales(list_locales()));
    }
    match Country::from_locale(settings.locale.as_str()) {
        Ok(country) => (Stage::Validated(country), Action::FetchDirectory),
        Err(_) => (Stage::Failed(RunError::InvalidLocale), Action::Stop),
    }
}

/// The step after the directory service was asked about `country`.
pub fn respond(settings: &Settings, country: Country, outcome: &FetchOutcome) -> (next: (
    Stage,
    Action,
))
    ensures
        responds(*settings, country, *outcome, next),
{
    let locale = settings.locale.as_str();
    let resolved = match get_country_by_locale(country, locale, outcome) {
        Ok(resolved) => resolved,
        Err(e) => {
            return (Stage::Failed(RunError::Resolve(e)), Action::Stop);
        },
    };
    match device_actions(locale, &resolved, settings.mcc.as_str(), settings.mnc.as_str()) {
        Ok(actions) => (Stage::Resolved(resolved), Action::Apply(actions)),
        Err(missing) => (Stage::Failed(RunError::MissingCoordinate(missing)), Action::Stop),
    }
}

/// One step of a run: from where it stands and what the caller comes back
/// with to where it stands next and what the caller is to do, as [`steps`]
/// says.
pub fn step(settings: &Settings, stage: Stage, event: Event) -> (next: (Stage, Action))
    ensures
        steps(*settings, stage, event, next),
{
    match (stage, event) {
        (Stage::Start, Event::Begin) => begin(settings),
        (Stage::Validated(country), Event::Response(outcome)) => respond(
            settings,
            country,
            &outcome,
        ),
        (Stage::Resolved(_), Event::Done) => (Stage::Applied, Action::Stop),
        (stage, _) => (stage, Action::Stop),
    }
}

/// The exit code of a run that stops at `stage`.
pub fn exit_code(stage: &Stage) -> (code: i32)
    ensures
        code == exit_code_of(*stage),
{
    match stage {
        Stage::Listed => 0,
        Stage::Applied => 0,
        _ => 1,
    }
}

/// A run that is over stays where it is, whatever the caller comes back
/// with, and asks for nothing more.
pub proof fn lemma_final_stage_stays(
    settings: Settings,
    stage: Stage,
    event: Event,
    next: (Stage, Action),
)
    requires
        is_final(stage),
        steps(settings, stage, event, next),
    ensures
        next.0 == stage,
        next.1 is Stop,
{
}

/// Device commands are handed out only by the step that resolves the
/// country: a step that ends in failure hands out none.
pub proof fn lemma_commands_only_when_resolved(
    settings: Settings,
    stage: Stage,
    event: Event,
    next: (Stage, Action),
)
    requires
        steps(settings, stage, event, next),
        next.1 is Apply,
    ensures
        stage is Validated,
        event is Response,
        next.0 is Resolved,
        resolution(settings.locale@, event->Response_0@) is Ok,
{
}

/// Where the directory service was not reached, or answered with a status
/// other than success, the run fails with `TransportError`, exits with 1, and no device
/// command is handed out.
pub proof fn lemma_transport_failure_ends_run(
    settings: Settings,
    country: Country,
    outcome: FetchOutcome,
    next: (Stage, Action),
)
    requires
        outcome is Unreachable || !success_status(outcome->status),
        steps(settings, Stage::Validated(country), Event::Response(outcome), next),
    ensures
        next.0 == Stage::Failed(RunError::Resolve(ResolveError::TransportError)),
        next.1 is Stop,
        exit_code_of(next.0) == 1,
{
}

/// With the listing asked for, the run lists the whole table in its order
/// and exits with 0, whatever the other settings are.
pub proof fn lemma_listing_ignores_other_settings(settings: Settings, next: (Stage, Action))
    requires
        settings.list_locales,
        steps(settings, Stage::Start, Event::Begin, next),
    ensures
        next.0 is Listed,
        exit_code_of(next.0) == 0,
        next.1 matches Action::PrintLocales(codes) && codes@.len() == LOCALE_COUNT && forall|
            i: int,
        |
            0 <= i < LOCALE_COUNT ==> (#[trigger] codes@[i])@ == locale_code(i),
{
}

/// A locale that is not in the table ends the run at its first step, with
/// exit code 1 and nothing asked of the directory or the device.
pub proof fn lemma_invalid_locale_ends_run(settings: Settings, next: (Stage, Action))
    requires
        !settings.list_locales,
        !is_known_locale(settings.locale@),
        steps(settings, Stage::Start, Event::Begin, next),
    ensures
        next.0 == Stage::Failed(RunError::InvalidLocale),
        next.1 is Stop,
        exit_code_of(next.0) == 1,
{
}

/// What the user is told of a failed run with the locale `locale`.
pub open spec fn failure_text(error: RunError, locale: Seq<char>) -> Seq<char> {
    match error {
        RunError::InvalidLocale => "Error: The locale code '**"@ + locale
            + "**' is not valid or supported."@,
        RunError::Resolve(ResolveError::TransportError) =>
            "Could not get an answer from the locale directory."@,
        RunError::Resolve(ResolveError::MalformedResponse) => "API response is not a JSON array"@,
        RunError::Resolve(ResolveError::LocaleNotFound) => "Locale '"@ + locale
            + "' not found in remote API response."@,
        RunError::Resolve(ResolveError::IncompleteCountryData) => "Locale '"@ + locale
            + "' found but missing country name or capital coordinates in API response."@,
        RunError::MissingCoordinate(MissingCoordinate::Latitude) =>
            "Could not retrieve capital latitude for locale."@,
        RunError::MissingCoordinate(MissingCoordinate::Longitude) =>
            "Could not retrieve capital longitude for locale."@,
    }
}

/// The line that tells the user why the run with the locale `locale` failed.
pub fn failure_message(error: RunError, locale: &str) -> (r: String)
    ensures
        r@ == failure_text(error, locale@),
{
    match error {
        RunError::InvalidLocale => {
            let mut line = String::from_str("Error: The locale code '**");
            line.append(locale);
            line.append("**' is not valid or supported.");
            line
        },
        RunError::Resolve(ResolveError::TransportError) => String::from_str(
            "Could not get an answer from the locale directory.",
        ),
        RunError::Resolve(ResolveError::MalformedResponse) => String::from_str(
            "API response is not a JSON array",
        ),
        RunError::Resolve(ResolveError::LocaleNotFound) => {
            let mut line = String::from_str("Locale '");
            line.append(locale);
            line.append("' not found in remote API response.");
            line
        },
        RunError::Resolve(ResolveError::IncompleteCountryData) => {
            let mut line = String::from_str("Locale '");
            line.append(locale);
            line.append("' found but missing country name or capital coordinates in API response.");
            line
        },
        RunError::MissingCoordinate(MissingCoordinate::Latitude) => String::from_str(
            "Could not retrieve capital latitude for locale.",
        ),
        RunError::MissingCoordinate(MissingCoordinate::Longitude) => String::from_str(
            "Could not retrieve capital longitude for locale.",
        ),
    }
}

} // verus!
