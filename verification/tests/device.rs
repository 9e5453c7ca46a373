use geospoofer::country::Country;
use geospoofer::device::{
    applying_line, device_actions, geo_fix, geo_fix_arguments, get_prop, get_prop_arguments,
    report, set_prop, set_prop_arguments, wait_for_root_arguments, CommandOutcome, DeviceAction,
    MissingCoordinate, Report,
};

fn canada() -> Country {
    Country {
        country_code: "ca".to_string(),
        language_code: "fr".to_string(),
        name: Some("Canada".to_string()),
        latitude: Some(45.4215f64.to_bits()),
        longitude: Some((-75.6972f64).to_bits()),
    }
}

fn set(prop: &str, value: &str) -> DeviceAction {
    DeviceAction::SetProp { prop: prop.to_string(), value: value.to_string() }
}

fn say(line: &str) -> DeviceAction {
    DeviceAction::Say { line: line.to_string() }
}

fn get(prop: &str) -> DeviceAction {
    DeviceAction::GetProp { prop: prop.to_string() }
}

fn exited(success: bool, stdout: &str, stderr: &str) -> CommandOutcome {
    CommandOutcome::Exited { success, stdout: stdout.to_string(), stderr: stderr.to_string() }
}

#[test]
fn device_actions_lists_the_commands_in_order() {
    let actions = device_actions("fr-CA", &canada(), "214", "21").unwrap();
    assert_eq!(
        actions,
        vec![
            DeviceAction::WaitForRoot,
            say("Applying settings for locale: **fr-CA** (Canada)"),
            DeviceAction::SayPosition {
                latitude: 45.4215f64.to_bits(),
                longitude: (-75.6972f64).to_bits(),
            },
            set("persist.sys.locale", "fr-CA"),
            set("persist.sys.language", "fr"),
            set("persist.sys.country", "ca"),
            set("ctl.restart", "zygote"),
            set("gsm.sim.operator.iso-country", "ca"),
            set("gsm.sim.operator.numeric", "21421"),
            set("gsm.operator.iso-country", "ca"),
            set("gsm.operator.numeric", "21421"),
            DeviceAction::GeoFix {
                latitude: 45.4215f64.to_bits(),
                longitude: (-75.6972f64).to_bits(),
            },
            say("\n--- New Settings Applied (Check Device) ---"),
            get("persist.sys.locale"),
            get("gsm.sim.operator.numeric"),
            get("gsm.operator.iso-country"),
        ]
    );
}

#[test]
fn device_actions_joins_the_carrier_codes() {
    let actions = device_actions("en-US", &canada(), "310", "260").unwrap();
    assert_eq!(actions[8], set("gsm.sim.operator.numeric", "310260"));
    assert_eq!(actions[10], set("gsm.operator.numeric", "310260"));
    let actions = device_actions("en-US", &canada(), "", "").unwrap();
    assert_eq!(actions[8], set("gsm.sim.operator.numeric", ""));
}

#[test]
fn device_actions_names_the_missing_coordinate() {
    let mut country = canada();
    country.longitude = None;
    assert_eq!(device_actions("fr-CA", &country, "214", "21"), Err(MissingCoordinate::Longitude));
    country.latitude = None;
    assert_eq!(device_actions("fr-CA", &country, "214", "21"), Err(MissingCoordinate::Latitude));
    country.longitude = Some(0);
    assert_eq!(device_actions("fr-CA", &country, "214", "21"), Err(MissingCoordinate::Latitude));
}

#[test]
fn device_actions_does_not_need_the_name() {
    let mut country = canada();
    country.name = None;
    let actions = device_actions("fr-CA", &country, "214", "21").unwrap();
    assert_eq!(actions.len(), 16);
    assert_eq!(actions[1], say("Applying settings for locale: **fr-CA** (N/A)"));
}

#[test]
fn applying_line_names_the_country() {
    assert_eq!(applying_line("fr-CA", &canada()), "Applying settings for locale: **fr-CA** (Canada)");
    let mut country = canada();
    country.name = None;
    assert_eq!(applying_line("fr-CA", &country), "Applying settings for locale: **fr-CA** (N/A)");
}

#[test]
fn arguments_are_those_of_adb() {
    assert_eq!(
        set_prop_arguments("persist.sys.locale", "fr-CA"),
        vec!["shell", "setprop", "persist.sys.locale", "fr-CA"]
    );
    assert_eq!(get_prop_arguments("ctl.restart"), vec!["shell", "getprop", "ctl.restart"]);
    assert_eq!(wait_for_root_arguments(), vec!["wait-for-device", "root"]);
    assert_eq!(
        geo_fix_arguments("45.4215", "-75.6972"),
        vec!["emu", "geo", "fix", "45.4215", "-75.6972"]
    );
}

#[test]
fn set_prop_is_silent_on_success() {
    assert_eq!(set_prop("a.b", "c", &exited(true, "out", "err")), Report::Silent);
}

#[test]
fn set_prop_warns_of_a_failed_command() {
    assert_eq!(
        set_prop("persist.sys.locale", "fr-CA", &exited(false, "", "error: no devices\n")),
        Report::Warning(
            "Failed to set property **persist.sys.locale** to **fr-CA**. Error: error: no devices\n"
                .to_string()
        )
    );
}

#[test]
fn set_prop_warns_of_a_command_that_did_not_run() {
    assert_eq!(
        set_prop("a.b", "c", &CommandOutcome::NotStarted { reason: "No such file".to_string() }),
        Report::Warning("Failed to execute adb setprop command: No such file".to_string())
    );
}

#[test]
fn get_prop_prints_the_trimmed_value() {
    assert_eq!(
        get_prop("persist.sys.locale", &exited(true, "  fr-CA\r\n", "")),
        Report::Info("persist.sys.locale: fr-CA".to_string())
    );
    assert_eq!(
        get_prop("gsm.operator.numeric", &exited(true, "\n", "ignored")),
        Report::Info("gsm.operator.numeric: ".to_string())
    );
    assert_eq!(
        get_prop("p", &exited(true, "a b\u{a0}\u{2003}", "")),
        Report::Info("p: a b".to_string())
    );
}

#[test]
fn get_prop_warns_of_a_failed_command() {
    assert_eq!(
        get_prop("persist.sys.locale", &exited(false, "fr-CA", "closed")),
        Report::Warning("Failed to get property **persist.sys.locale**. Error: closed".to_string())
    );
}

#[test]
fn get_prop_warns_of_a_command_that_did_not_run() {
    assert_eq!(
        get_prop("a.b", &CommandOutcome::NotStarted { reason: "EACCES".to_string() }),
        Report::Warning("Failed to execute adb getprop command: EACCES".to_string())
    );
}

#[test]
fn geo_fix_reports_each_outcome() {
    assert_eq!(
        geo_fix(&exited(true, "OK", "")),
        Report::Info("**GPS location set successfully.**".to_string())
    );
    assert_eq!(
        geo_fix(&exited(false, "", "KO: unknown command")),
        Report::Warning("Failed to set GPS location (adb shell geo fix)".to_string())
    );
    assert_eq!(
        geo_fix(&CommandOutcome::NotStarted { reason: "No such file".to_string() }),
        Report::Warning("Failed to execute adb geo command: No such file".to_string())
    );
}

#[test]
fn report_goes_by_the_kind_of_action() {
    let failed = exited(false, "", "closed");
    assert_eq!(report(&DeviceAction::WaitForRoot, &failed), Report::Silent);
    assert_eq!(report(&say("hello"), &failed), Report::Silent);
    assert_eq!(report(&DeviceAction::SayPosition { latitude: 0, longitude: 0 }, &failed), Report::Silent);
    assert_eq!(report(&set("a", "b"), &failed), set_prop("a", "b", &failed));
    assert_eq!(report(&get("a"), &failed), get_prop("a", &failed));
    assert_eq!(
        report(&DeviceAction::GeoFix { latitude: 0, longitude: 0 }, &failed),
        geo_fix(&failed)
    );
    assert_eq!(
        report(&get("a"), &exited(true, " 1 ", "")),
        Report::Info("a: 1".to_string())
    );
}
