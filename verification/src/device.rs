//! What is asked of the device: the steps that apply a resolved country, the
//! arguments of their commands, and what each outcome is reported as.
//!
//! Running `adb` is the caller's part. A command that fails is reported and
//! the next one still runs.

use vstd::prelude::*;
use vstd::string::*;
use crate::country::{Country, CountryView};

verus! {

/// One step of applying a country: a command for the device, or a line for
/// the user.
#[derive(Debug, Clone, PartialEq, Eq)]
pub enum DeviceAction {
    /// Wait for the device and restart its daemon as root.
    WaitForRoot,
    /// Print `line`.
    Say { line: String },
    /// Print the GPS position that is about to be fixed.
    SayPosition { latitude: u64, longitude: u64 },
    /// Set the system property `prop` to `value`.
    SetProp { prop: String, value: String },
    /// Fix the GPS position; both are doubles, as IEEE-754 bit patterns.
    GeoFix { latitude: u64, longitude: u64 },
    /// Read the system property `prop` back.
    GetProp { prop: String },
}

/// The mathematical value of a [`DeviceAction`].
pub enum DeviceActionView {
    WaitForRoot,
    Say { line: Seq<char> },
    SayPosition { latitude: u64, longitude: u64 },
    SetProp { prop: Seq<char>, value: Seq<char> },
    GeoFix { latitude: u64, longitude: u64 },
    GetProp { prop: Seq<char> },
}

impl View for DeviceAction {
    type V = DeviceActionView;

    open spec fn view(&self) -> DeviceActionView {
        match self {
            DeviceAction::WaitForRoot => DeviceActionView::WaitForRoot,
            DeviceAction::Say { line } => DeviceActionView::Say { line: line@ },
            DeviceAction::SayPosition { latitude, longitude } => DeviceActionView::SayPosition {
                latitude: *latitude,
                longitude: *longitude,
            },
            DeviceAction::SetProp { prop, value } => DeviceActionView::SetProp {
                prop: prop@,
                value: value@,
            },
            DeviceAction::GeoFix { latitude, longitude } => DeviceActionView::GeoFix {
                latitude: *latitude,
                longitude: *longitude,
            },
            DeviceAction::GetProp { prop } => DeviceActionView::GetProp { prop: prop@ },
        }
    }
}

/// The values of the actions in `actions`, in order.
pub open spec fn action_views(actions: Seq<DeviceAction>) -> Seq<DeviceActionView> {
    Seq::new(actions.len(), |i: int| actions[i]@)
}

/// The strings in `items`, in order.
pub open spec fn texts(items: Seq<String>) -> Seq<Seq<char>> {
    Seq::new(items.len(), |i: int| items[i]@)
}

/// The capital coordinate that a country lacks.
#[derive(Debug, Clone, Copy, PartialEq, Eq, Structural)]
pub enum MissingCoordinate {
    Latitude,
    Longitude,
}

/// The action that sets `prop` to `value`.
pub open spec fn set_prop_view(prop: Seq<char>, value: Seq<char>) -> DeviceActionView {
    DeviceActionView::SetProp { prop, value }
}

/// The line that announces what is applied: the locale and the name of its
/// country, or `N/A` where the country has no name.
pub open spec fn applying_text(locale: Seq<char>, country: CountryView) -> Seq<char> {
    "Applying settings for locale: **"@ + locale + "** ("@ + (match country.name {
        Some(name) => name,
        None => "N/A"@,
    }) + ")"@
}

/// The steps that apply `country` for `locale` with the carrier codes `mcc`
/// and `mnc`, in the order in which they are taken: root access, the
/// announcement, the locale properties, the restart that makes them take
/// effect, the carrier properties, the GPS fix, and three properties read
/// back under their heading.
pub open spec fn device_plan(
    locale: Seq<char>,
    country: CountryView,
    mcc: Seq<char>,
    mnc: Seq<char>,
) -> Seq<DeviceActionView> {
    seq![
        DeviceActionView::WaitForRoot,
        DeviceActionView::Say { line: applying_text(locale, country) },
        DeviceActionView::SayPosition {
            latitude: country.latitude->0,
            longitude: country.longitude->0,
        },
        set_prop_view("persist.sys.locale"@, locale),
        set_prop_view("persist.sys.language"@, country.language_code),
        set_prop_view("persist.sys.country"@, country.country_code),
        set_prop_view("ctl.restart"@, "zygote"@),
        set_prop_view("gsm.sim.operator.iso-country"@, country.country_code),
        set_prop_view("gsm.sim.operator.numeric"@, mcc + mnc),
        set_prop_view("gsm.operator.iso-country"@, country.country_code),
        set_prop_view("gsm.operator.numeric"@, mcc + mnc),
        DeviceActionView::GeoFix {
            latitude: country.latitude->0,
            longitude: country.longitude->0,
        },
        DeviceActionView::Say { line: "\n--- New Settings Applied (Check Device) ---"@ },
        DeviceActionView::GetProp { prop: "persist.sys.locale"@ },
        DeviceActionView::GetProp { prop: "gsm.sim.operator.numeric"@ },
        DeviceActionView::GetProp { prop: "gsm.operator.iso-country"@ },
    ]
}

/// The action that sets `prop` to `value`.
fn set_prop_action(prop: &str, value: &str) -> (r: DeviceAction)
    ensures
        r@ == set_prop_view(prop@, value@),
{
    DeviceAction::SetProp { prop: String::from_str(prop), value: String::from_str(value) }
}

/// The action that reads `prop` back.
fn get_prop_action(prop: &str) -> (r: DeviceAction)
    ensures
        r@ == (DeviceActionView::GetProp { prop: prop@ }),
{
    DeviceAction::GetProp { prop: String::from_str(prop) }
}

/// The line that announces what is applied.
pub fn applying_line(locale: &str, country: &Country) -> (r: String)
    ensures
        r@ == applying_text(locale@, country@),
{
    let mut line = String::from_str("Applying settings for locale: **");
    line.append(locale);
    line.append("** (");
    match &country.name {
        Some(name) => line.append(name.as_str()),
        None => line.append("N/A"),
    }
    line.append(")");
    line
}

/// The steps that apply `country`, as [`device_plan`] lists them.
///
/// A country without a capital latitude, or else without a longitude, has no
/// plan: the error names the coordinate that is missing.
pub fn device_actions(locale: &str, country: &Country, mcc: &str, mnc: &str) -> (r: Result<
    Vec<DeviceAction>,
    MissingCoordinate,
>)
    ensures
        match r {
            Ok(actions) => country@.latitude is Some && country@.longitude is Some
                && action_views(actions@) == device_plan(locale@, country@, mcc@, mnc@),
            Err(MissingCoordinate::Latitude) => country@.latitude is None,
            Err(MissingCoordinate::Longitude) => country@.latitude is Some
                && country@.longitude is None,
        },
{
    let latitude = match country.latitude {
        Some(latitude) => latitude,
        None => {
            return Err(MissingCoordinate::Latitude);
        },
    };
    let longitude = match country.longitude {
        Some(longitude) => longitude,
        None => {
            return Err(MissingCoordinate::Longitude);
        },
    };
    let mut numeric = String::from_str(mcc);
    numeric.append(mnc);
    let language = country.language_code.as_str();
    let code = country.country_code.as_str();
    let mut actions: Vec<DeviceAction> = Vec::new();
    actions.push(DeviceAction::WaitForRoot);
    actions.push(DeviceAction::Say { line: applying_line(locale, country) });
    actions.push(DeviceAction::SayPosition { latitude, longitude });
    actions.push(set_prop_action("persist.sys.locale", locale));
    actions.push(set_prop_action("persist.sys.language", language));
    actions.push(set_prop_action("persist.sys.country", code));
    actions.push(set_prop_action("ctl.restart", "zygote"));
    actions.push(set_prop_action("gsm.sim.operator.iso-country", code));
    actions.push(set_prop_action("gsm.sim.operator.numeric", numeric.as_str()));
    actions.push(set_prop_action("gsm.operator.iso-country", code));
    actions.push(set_prop_action("gsm.operator.numeric", numeric.as_str()));
    actions.push(DeviceAction::GeoFix { latitude, longitude });
    actions.push(
        DeviceAction::Say {
            line: String::from_str("\n--- New Settings Applied (Check Device) ---"),
        },
    );
    actions.push(get_prop_action("persist.sys.locale"));
    actions.push(get_prop_action("gsm.sim.operator.numeric"));
    actions.push(get_prop_action("gsm.operator.iso-country"));
    assert(action_views(actions@) =~= device_plan(locale@, country@, mcc@, mnc@));
    Ok(actions)
}

/// The arguments with which `adb` sets `prop` to `value`.
pub fn set_prop_arguments(prop: &str, value: &str) -> (r: Vec<String>)
    ensures
        texts(r@) == seq!["shell"@, "setprop"@, prop@, value@],
{
    let mut arguments: Vec<String> = Vec::new();
    arguments.push(String::from_str("shell"));
    arguments.push(String::from_str("setprop"));
    arguments.push(String::from_str(prop));
    arguments.push(String::from_str(value));
    assert(texts(arguments@) =~= seq!["shell"@, "setprop"@, prop@, value@]);
    arguments
}

/// The arguments with which `adb` reads `prop`.
pub fn get_prop_arguments(prop: &str) -> (r: Vec<String>)
    ensures
        texts(r@) == seq!["shell"@, "getprop"@, prop@],
{
    let mut arguments: Vec<String> = Vec::new();
    arguments.push(String::from_str("shell"));
    arguments.push(String::from_str("getprop"));
    arguments.push(String::from_str(prop));
    assert(texts(arguments@) =~= seq!["shell"@, "getprop"@, prop@]);
    arguments
}

/// The arguments with which `adb` fixes the GPS position of an emulator to
/// the coordinates written out in `latitude` and `longitude`.
pub fn geo_fix_arguments(latitude: &str, longitude: &str) -> (r: Vec<String>)
    ensures
        texts(r@) == seq!["emu"@, "geo"@, "fix"@, latitude@, longitude@],
{
    let mut arguments: Vec<String> = Vec::new();
    arguments.push(String::from_str("emu"));
    arguments.push(String::from_str("geo"));
    arguments.push(String::from_str("fix"));
    arguments.push(String::from_str(latitude));
    arguments.push(String::from_str(longitude));
    assert(texts(arguments@) =~= seq!["emu"@, "geo"@, "fix"@, latitude@, longitude@]);
    arguments
}

/// The arguments with which `adb` waits for the device and asks for root.
pub fn wait_for_root_arguments() -> (r: Vec<String>)
    ensures
        texts(r@) == seq!["wait-for-device"@, "root"@],
{
    let mut arguments: Vec<String> = Vec::new();
    arguments.push(String::from_str("wait-for-device"));
    arguments.push(String::from_str("root"));
    assert(texts(arguments@) =~= seq!["wait-for-device"@, "root"@]);
    arguments
}

/// How one run of `adb` ended.
#[derive(Debug, Clone, PartialEq, Eq)]
pub enum CommandOutcome {
    /// The command ran to its end.
    Exited { success: bool, stdout: String, stderr: String },
    /// The command could not be run; `reason` says why.
    NotStarted { reason: String },
}

/// The mathematical value of a [`CommandOutcome`].
pub enum CommandOutcomeView {
    Exited { success: bool, stdout: Seq<char>, stderr: Seq<char> },
    NotStarted { reason: Seq<char> },
}

impl View for CommandOutcome {
    type V = CommandOutcomeView;

    open spec fn view(&self) -> CommandOutcomeView {
        match self {
            CommandOutcome::Exited { success, stdout, stderr } => CommandOutcomeView::Exited {
                success: *success,
                stdout: stdout@,
                stderr: stderr@,
            },
            CommandOutcome::NotStarted { reason } => CommandOutcomeView::NotStarted {
                reason: reason@,
            },
        }
    }
}

/// What the user is told of one command.
#[derive(Debug, Clone, PartialEq, Eq)]
pub enum Report {
    /// Nothing.
    Silent,
    /// A line for standard output.
    Info(String),
    /// A line for standard error; the run goes on.
    Warning(String),
}

/// The mathematical value of a [`Report`].
pub enum ReportView {
    Silent,
    Info(Seq<char>),
    Warning(Seq<char>),
}

impl View for Report {
    type V = ReportView;

    open spec fn view(&self) -> ReportView {
        match self {
            Report::Silent => ReportView::Silent,
            Report::Info(line) => ReportView::Info(line@),
            Report::Warning(line) => ReportView::Warning(line@),
        }
    }
}

/// `s` without its leading and trailing whitespace, as `str::trim` of the
/// standard library gives it.
pub uninterp spec fn trimmed(s: Seq<char>) -> Seq<char>;

/// Calls `str::trim`, which removes leading and trailing whitespace in the
/// sense of Unicode. The contract gives the result the name [`trimmed`].
#[verifier::external_body]
fn trim(s: &str) -> (r: &str)
    ensures
        r@ == trimmed(s@),
{
    s.trim()
}

/// What is reported of an attempt to set `prop` to `value`.
pub open spec fn set_prop_outcome(
    prop: Seq<char>,
    value: Seq<char>,
    outcome: CommandOutcomeView,
) -> ReportView {
    match outcome {
        CommandOutcomeView::Exited { success, stdout, stderr } => if success {
            ReportView::Silent
        } else {
            ReportView::Warning(
                "Failed to set property **"@ + prop + "** to **"@ + value + "**. Error: "@ + stderr,
            )
        },
        CommandOutcomeView::NotStarted { reason } => ReportView::Warning(
            "Failed to execute adb setprop command: "@ + reason,
        ),
    }
}

/// What is reported of an attempt to read `prop`.
pub open spec fn get_prop_outcome(prop: Seq<char>, outcome: CommandOutcomeView) -> ReportView {
    match outcome {
        CommandOutcomeView::Exited { success, stdout, stderr } => if success {
            ReportView::Info(prop + ": "@ + trimmed(stdout))
        } else {
            ReportView::Warning("Failed to get property **"@ + prop + "**. Error: "@ + stderr)
        },
        CommandOutcomeView::NotStarted { reason } => ReportView::Warning(
            "Failed to execute adb getprop command: "@ + reason,
        ),
    }
}

/// What to report after `adb` was asked to set `prop` to `value`: nothing
/// where it succeeded, a warning with its error output where it failed, and
/// a warning with the reason where it did not run.
pub fn set_prop(prop: &str, value: &str, outcome: &CommandOutcome) -> (r: Report)
    ensures
        r@ == set_prop_outcome(prop@, value@, outcome@),
{
    match outcome {
        CommandOutcome::Exited { success, stdout, stderr } => {
            if *success {
                Report::Silent
            } else {
                let mut line = String::from_str("Failed to set property **");
                line.append(prop);
                line.append("** to **");
                line.append(value);
                line.append("**. Error: ");
                line.append(stderr.as_str());
                Report::Warning(line)
            }
        },
        CommandOutcome::NotStarted { reason } => {
            let mut line = String::from_str("Failed to execute adb setprop command: ");
            line.append(reason.as_str());
            Report::Warning(line)
        },
    }
}

/// What to report after `adb` was asked to read `prop`: the property with
/// its trimmed value where it succeeded, a warning with its error output
/// where it failed, and a warning with the reason where it did not run.
pub fn get_prop(prop: &str, outcome: &CommandOutcome) -> (r: Report)
    ensures
        r@ == get_prop_outcome(prop@, outcome@),
{
    match outcome {
        CommandOutcome::Exited { success, stdout, stderr } => {
            if *success {
                let mut line = String::from_str(prop);
                line.append(": ");
                line.append(trim(stdout.as_str()));
                Report::Info(line)
            } else {
                let mut line = String::from_str("Failed to get property **");
                line.append(prop);
                line.append("**. Error: ");
                line.append(stderr.as_str());
                Report::Warning(line)
            }
        },
        CommandOutcome::NotStarted { reason } => {
            let mut line = String::from_str("Failed to execute adb getprop command: ");
            line.append(reason.as_str());
            Report::Warning(line)
        },
    }
}

/// What is reported of an attempt to fix the GPS position.
pub open spec fn geo_fix_outcome(outcome: CommandOutcomeView) -> ReportView {
    match outcome {
        CommandOutcomeView::Exited { success, stdout, stderr } => if success {
            ReportView::Info("**GPS location set successfully.**"@)
        } else {
            ReportView::Warning("Failed to set GPS location (adb shell geo fix)"@)
        },
        CommandOutcomeView::NotStarted { reason } => ReportView::Warning(
            "Failed to execute adb geo command: "@ + reason,
        ),
    }
}

/// What to report after `adb` was asked to fix the GPS position.
pub fn geo_fix(outcome: &CommandOutcome) -> (r: Report)
    ensures
        r@ == geo_fix_outcome(outcome@),
{
    match outcome {
        CommandOutcome::Exited { success, stdout, stderr } => {
            if *success {
                Report::Info(String::from_str("**GPS location set successfully.**"))
            } else {
                Report::Warning(String::from_str("Failed to set GPS location (adb shell geo fix)"))
            }
        },
        CommandOutcome::NotStarted { reason } => {
            let mut line = String::from_str("Failed to execute adb geo command: ");
            line.append(reason.as_str());
            Report::Warning(line)
        },
    }
}

/// What is reported of the command `action` after it ended with `outcome`.
/// Whether root access was had is not reported, and a line for the user is
/// no command.
pub open spec fn report_of(action: DeviceActionView, outcome: CommandOutcomeView) -> ReportView {
    match action {
        DeviceActionView::WaitForRoot => ReportView::Silent,
        DeviceActionView::Say { line } => ReportView::Silent,
        DeviceActionView::SayPosition { latitude, longitude } => ReportView::Silent,
        DeviceActionView::SetProp { prop, value } => set_prop_outcome(prop, value, outcome),
        DeviceActionView::GeoFix { latitude, longitude } => geo_fix_outcome(outcome),
        DeviceActionView::GetProp { prop } => get_prop_outcome(prop, outcome),
    }
}

/// What to report of `action` after it ended with `outcome`. No outcome ends
/// the run: the report is at most a warning.
pub fn report(action: &DeviceAction, outcome: &CommandOutcome) -> (r: Report)
    ensures
        r@ == report_of(action@, outcome@),
{
    match action {
        DeviceAction::WaitForRoot => Report::Silent,
        DeviceAction::Say { line } => Report::Silent,
        DeviceAction::SayPosition { latitude, longitude } => Report::Silent,
        DeviceAction::SetProp { prop, value } => set_prop(prop.as_str(), value.as_str(), outcome),
        DeviceAction::GeoFix { latitude, longitude } => geo_fix(outcome),
        DeviceAction::GetProp { prop } => get_prop(prop.as_str(), outcome),
    }
}

} // verus!
