use sysfetch::battery_report::BatteryStatus;
use sysfetch::config::ConfigError;
use sysfetch::config::RawToggle;
use sysfetch::config::coerce_toggle;
use sysfetch::config::parse_config;
use sysfetch::osinfo::Platform;
use sysfetch::osinfo::get_linux_distribution;
use sysfetch::osinfo::get_os_info;
use sysfetch::report::report_lines;
use sysfetch::report::report_text;

fn full_config(value: &str) -> String {
    let mut text = String::from("[Display]\n");
    for key in ["cpu_model", "os", "uptime", "ram", "battery"] {
        text.push_str(key);
        text.push_str(" = ");
        text.push_str(value);
        text.push('\n');
    }
    text
}

#[test]
fn native_booleans_decode() {
    let config = parse_config(&full_config("true")).unwrap();
    assert!(config.cpu_model && config.os && config.uptime && config.ram && config.battery);
}

#[test]
fn string_booleans_decode() {
    let config = parse_config(&full_config("\"true\"")).unwrap();
    assert!(config.cpu_model && config.os && config.uptime && config.ram && config.battery);
    let config = parse_config(&full_config("\"false\"")).unwrap();
    assert!(!config.cpu_model && !config.os && !config.uptime && !config.ram && !config.battery);
}

#[test]
fn string_and_native_boolean_agree() {
    let text_native =
        "[Display]\ncpu_model = true\nos = false\nuptime = false\nram = false\nbattery = false\n";
    let text_string = "[Display]\ncpu_model = \"true\"\nos = false\nuptime = false\nram = false\nbattery = false\n";
    let native = parse_config(text_native).unwrap();
    let string = parse_config(text_string).unwrap();
    assert_eq!(native, string);
    assert!(native.cpu_model);
}

#[test]
fn invalid_boolean_string_names_the_value() {
    let text = "[Display]\ncpu_model = \"maybe\"\nos = true\nuptime = true\nram = true\nbattery = true\n";
    match parse_config(text) {
        Err(ConfigError::InvalidBooleanString(value)) => assert_eq!(value, "maybe"),
        other => panic!("expected an invalid-boolean error, got {:?}", other),
    }
}

#[test]
fn missing_field_is_an_error() {
    let text = "[Display]\ncpu_model = true\nos = true\nuptime = true\nram = true\n";
    match parse_config(text) {
        Err(ConfigError::MissingField(field)) => assert_eq!(field, "battery"),
        other => panic!("expected a missing-field error, got {:?}", other),
    }
}

#[test]
fn non_boolean_type_is_an_error() {
    let text = "[Display]\ncpu_model = 1\nos = true\nuptime = true\nram = true\nbattery = true\n";
    match parse_config(text) {
        Err(ConfigError::NotABoolean(field)) => assert_eq!(field, "cpu_model"),
        other => panic!("expected a not-a-boolean error, got {:?}", other),
    }
}

#[test]
fn missing_display_table_is_an_error() {
    match parse_config("cpu_model = true\n") {
        Err(ConfigError::MissingTable) => {},
        other => panic!("expected a missing-table error, got {:?}", other),
    }
}

#[test]
fn invalid_toml_is_a_parse_error() {
    match parse_config("[Display\ncpu_model = true\n") {
        Err(ConfigError::Parse(message)) => assert!(!message.is_empty()),
        other => panic!("expected a parse error, got {:?}", other),
    }
}

#[test]
fn coercion_accepts_booleans_and_boolean_strings() {
    assert_eq!(coerce_toggle("os", RawToggle::Bool(true)).unwrap(), true);
    assert_eq!(coerce_toggle("os", RawToggle::Bool(false)).unwrap(), false);
    assert_eq!(coerce_toggle("os", RawToggle::Text(String::from("true"))).unwrap(), true);
    assert_eq!(coerce_toggle("os", RawToggle::Text(String::from("false"))).unwrap(), false);
    match coerce_toggle("os", RawToggle::Text(String::from("True"))) {
        Err(ConfigError::InvalidBooleanString(value)) => assert_eq!(value, "True"),
        other => panic!("expected an invalid-boolean error, got {:?}", other),
    }
    match coerce_toggle("os", RawToggle::Absent) {
        Err(ConfigError::MissingField(field)) => assert_eq!(field, "os"),
        other => panic!("expected a missing-field error, got {:?}", other),
    }
}

#[test]
fn os_label_per_platform() {
    assert_eq!(get_os_info(Platform::Other, None), "Unknown OS");
    assert_eq!(get_os_info(Platform::Windows, None), "Windows");
    assert_eq!(get_os_info(Platform::MacOs, None), "macOS");
    assert_eq!(get_os_info(Platform::Linux, None), "Linux (Unknown Distro)");
    assert_eq!(
        get_os_info(Platform::Linux, Some(String::from("Debian GNU/Linux 12 (bookworm)"))),
        "Debian GNU/Linux 12 (bookworm)"
    );
}

#[test]
fn pretty_name_is_found_and_unquoted() {
    let text = "NAME=\"Ubuntu\"\nVERSION=\"22.04\"\nPRETTY_NAME=\"Ubuntu 22.04.1 LTS\"\nID=ubuntu\n";
    assert_eq!(get_linux_distribution(text), Some(String::from("Ubuntu 22.04.1 LTS")));
}

#[test]
fn pretty_name_without_quotes() {
    let text = "PRETTY_NAME=Alpine\n";
    assert_eq!(get_linux_distribution(text), Some(String::from("Alpine")));
}

#[test]
fn first_pretty_name_wins() {
    let text = "PRETTY_NAME=\"First\"\nPRETTY_NAME=\"Second\"\n";
    assert_eq!(get_linux_distribution(text), Some(String::from("First")));
}

#[test]
fn crlf_line_endings_read_the_same() {
    let text = "NAME=\"Debian\"\r\nPRETTY_NAME=\"Debian GNU/Linux 12\"\r\nID=debian\r\n";
    assert_eq!(get_linux_distribution(text), Some(String::from("Debian GNU/Linux 12")));
}

#[test]
fn carriage_return_at_text_end_is_not_part_of_the_value() {
    assert_eq!(get_linux_distribution("PRETTY_NAME=Alpine\r"), Some(String::from("Alpine")));
}

#[test]
fn missing_pretty_name_yields_none() {
    assert_eq!(get_linux_distribution("NAME=\"Ubuntu\"\nID=ubuntu\n"), None);
    assert_eq!(get_linux_distribution(""), None);
}

#[test]
fn config_gating_only_ram_and_os() {
    let text = "[Display]\ncpu_model = false\nos = true\nuptime = false\nram = true\nbattery = false\n";
    let config = parse_config(text).unwrap();
    let lines = report_lines(
        &config,
        "Debian GNU/Linux 12 (bookworm)",
        3661,
        16 * 1024 * 1024 * 1024,
        &BatteryStatus::NotDetected,
    );
    assert_eq!(lines.len(), 2);
    assert_eq!(lines[0], "OS: Debian GNU/Linux 12 (bookworm)");
    assert_eq!(lines[1], "Ram: 16 Gb");
    assert_eq!(
        report_text(&lines),
        Some(String::from("OS: Debian GNU/Linux 12 (bookworm)\nRam: 16 Gb"))
    );
}

#[test]
fn empty_batch_prints_nothing() {
    let text = "[Display]\ncpu_model = true\nos = false\nuptime = false\nram = false\nbattery = false\n";
    let config = parse_config(text).unwrap();
    let lines = report_lines(&config, "anything", 0, 0, &BatteryStatus::NotDetected);
    assert!(lines.is_empty());
    assert_eq!(report_text(&lines), None);
}
