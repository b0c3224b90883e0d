//! The display configuration: five per-field toggles decoded from the
//! `[Display]` table of a TOML file. A toggle's value may be a native
//! boolean or one of the literal strings "true" / "false"; anything else
//! is a decoding error. The schema is strict: a missing field is an error,
//! never defaulted.

use crate::toml_text::parse_toml_table;
use crate::toml_text::table_get;
use crate::toml_text::table_has_key;
use crate::toml_text::table_value;
use crate::toml_text::toml_parse_message;
use crate::toml_text::toml_parses;
use crate::toml_text::toml_table_of;
use crate::toml_text::value_as_bool;
use crate::toml_text::value_as_str;
use crate::toml_text::value_as_table;
use crate::toml_text::value_bool;
use crate::toml_text::value_is_bool;
use crate::toml_text::value_is_str;
use crate::toml_text::value_is_table;
use crate::toml_text::value_str;
use crate::toml_text::value_table;
use vstd::prelude::*;
use vstd::string::StringExecFns;

verus! {

/// The five per-field display toggles. Any subset may be enabled; the
/// fields are mutually independent.
#[derive(Clone, Copy, Debug, PartialEq, Eq, Structural)]
pub struct DisplayConfig {
    pub cpu_model: bool,
    pub os: bool,
    pub uptime: bool,
    pub ram: bool,
    pub battery: bool,
}

/// What the configuration file holds for one toggle, before coercion:
/// nothing, a native boolean, a string, or a value of some other type.
#[derive(Clone, Debug)]
pub enum RawToggle {
    Absent,
    Bool(bool),
    Text(String),
    OtherType,
}

/// Why a configuration text failed to decode.
#[derive(Clone, Debug)]
pub enum ConfigError {
    /// The text is not valid TOML; carries the parser's message.
    Parse(String),
    /// There is no `[Display]` table.
    MissingTable,
    /// The named toggle is missing from the `[Display]` table.
    MissingField(String),
    /// The named toggle's value is neither a boolean nor a string.
    NotABoolean(String),
    /// The toggle's value is a string, but not "true" or "false"; carries
    /// the offending string.
    InvalidBooleanString(String),
}

/// Does coercion of this raw value to a boolean succeed?
pub open spec fn toggle_ok(raw: RawToggle) -> bool {
    match raw {
        RawToggle::Bool(_) => true,
        RawToggle::Text(s) => s@ == "true"@ || s@ == "false"@,
        _ => false,
    }
}

/// The boolean a coercible raw value stands for.
pub open spec fn toggle_value(raw: RawToggle) -> bool {
    match raw {
        RawToggle::Bool(b) => b,
        RawToggle::Text(s) => s@ == "true"@,
        _ => arbitrary(),
    }
}

/// Is `e` the error that coercion of `raw`, for the field named `field`,
/// must report?
pub open spec fn toggle_err(raw: RawToggle, field: Seq<char>, e: ConfigError) -> bool {
    match raw {
        RawToggle::Absent => e matches ConfigError::MissingField(n) && n@ == field,
        RawToggle::OtherType => e matches ConfigError::NotABoolean(n) && n@ == field,
        RawToggle::Text(s) => e matches ConfigError::InvalidBooleanString(v) && v@ == s@,
        RawToggle::Bool(_) => false,
    }
}

fn str_eq_true(s: &String) -> (r: bool)
    ensures
        r == (s@ == "true"@),
{
    let t: String = "true".to_owned();
    s.eq(&t)
}

fn str_eq_false(s: &String) -> (r: bool)
    ensures
        r == (s@ == "false"@),
{
    let t: String = "false".to_owned();
    s.eq(&t)
}

/// Coerces one raw configuration value to a boolean: a native boolean is
/// taken as it is; the strings "true" and "false" (exactly, case
/// sensitive) are taken as the booleans they name; any other string fails
/// naming the offending value; a missing field or a value of another type
/// fails naming the field.
pub fn coerce_toggle(field: &str, raw: RawToggle) -> (r: Result<bool, ConfigError>)
    ensures
        toggle_ok(raw) <==> r is Ok,
        r matches Ok(b) ==> b == toggle_value(raw),
        r matches Err(e) ==> toggle_err(raw, field@, e),
{
    match raw {
        RawToggle::Bool(b) => Result::Ok(b),
        RawToggle::Text(s) => {
            if str_eq_true(&s) {
                Result::Ok(true)
            } else if str_eq_false(&s) {
                Result::Ok(false)
            } else {
                Result::Err(ConfigError::InvalidBooleanString(s))
            }
        },
        RawToggle::Absent => Result::Err(ConfigError::MissingField(field.to_owned())),
        RawToggle::OtherType => Result::Err(ConfigError::NotABoolean(field.to_owned())),
    }
}

/// Decodes the five toggles, in the fixed field order `cpu_model`, `os`,
/// `uptime`, `ram`, `battery`; the first field that fails to coerce
/// decides the error.
pub fn decode_display(
    cpu_model: RawToggle,
    os: RawToggle,
    uptime: RawToggle,
    ram: RawToggle,
    battery: RawToggle,
) -> (r: Result<DisplayConfig, ConfigError>)
    ensures
        r is Ok <==> (toggle_ok(cpu_model) && toggle_ok(os) && toggle_ok(uptime) && toggle_ok(ram)
            && toggle_ok(battery)),
        r matches Ok(c) ==> c == (DisplayConfig {
            cpu_model: toggle_value(cpu_model),
            os: toggle_value(os),
            uptime: toggle_value(uptime),
            ram: toggle_value(ram),
            battery: toggle_value(battery),
        }),
        r matches Err(e) ==> {
            if !toggle_ok(cpu_model) {
                toggle_err(cpu_model, "cpu_model"@, e)
            } else if !toggle_ok(os) {
                toggle_err(os, "os"@, e)
            } else if !toggle_ok(uptime) {
                toggle_err(uptime, "uptime"@, e)
            } else if !toggle_ok(ram) {
                toggle_err(ram, "ram"@, e)
            } else {
                toggle_err(battery, "battery"@, e)
            }
        },
{
    let cpu_model = match coerce_toggle("cpu_model", cpu_model) {
        Result::Ok(b) => b,
        Result::Err(e) => {
            return Result::Err(e);
        },
    };
    let os = match coerce_toggle("os", os) {
        Result::Ok(b) => b,
        Result::Err(e) => {
            return Result::Err(e);
        },
    };
    let uptime = match coerce_toggle("uptime", uptime) {
        Result::Ok(b) => b,
        Result::Err(e) => {
            return Result::Err(e);
        },
    };
    let ram = match coerce_toggle("ram", ram) {
        Result::Ok(b) => b,
        Result::Err(e) => {
            return Result::Err(e);
        },
    };
    let battery = match coerce_toggle("battery", battery) {
        Result::Ok(b) => b,
        Result::Err(e) => {
            return Result::Err(e);
        },
    };
    Result::Ok(DisplayConfig { cpu_model, os, uptime, ram, battery })
}

/// Does coercion of a TOML value to a boolean succeed? A boolean always
/// does; a string exactly when it is "true" or "false"; nothing else does.
pub open spec fn value_toggle_ok(v: toml::Value) -> bool {
    if value_is_bool(v) {
        true
    } else if value_is_str(v) {
        value_str(v) == "true"@ || value_str(v) == "false"@
    } else {
        false
    }
}

/// The boolean a coercible TOML value stands for.
pub open spec fn value_toggle(v: toml::Value) -> bool {
    if value_is_bool(v) {
        value_bool(v)
    } else {
        value_str(v) == "true"@
    }
}

/// Does the toggle under `key` in the `[Display]` table coerce?
pub open spec fn key_toggle_ok(display: toml::Table, key: Seq<char>) -> bool {
    table_has_key(display, key) && value_toggle_ok(table_value(display, key))
}

/// The boolean the toggle under `key` stands for, when it coerces.
pub open spec fn key_toggle(display: toml::Table, key: Seq<char>) -> bool {
    value_toggle(table_value(display, key))
}

/// Is `e` the error that the toggle under `key` must report: missing field
/// when the key is absent, the offending string when the value is a
/// non-boolean string, not-a-boolean when it has some other type?
pub open spec fn key_toggle_err(display: toml::Table, key: Seq<char>, e: ConfigError) -> bool {
    if !table_has_key(display, key) {
        e matches ConfigError::MissingField(n) && n@ == key
    } else {
        let v = table_value(display, key);
        if value_is_bool(v) {
            false
        } else if value_is_str(v) {
            e matches ConfigError::InvalidBooleanString(s) && s@ == value_str(v)
        } else {
            e matches ConfigError::NotABoolean(n) && n@ == key
        }
    }
}

/// Does the parsed document hold a `[Display]` table?
pub open spec fn display_present(parsed: toml::Table) -> bool {
    table_has_key(parsed, "Display"@) && value_is_table(table_value(parsed, "Display"@))
}

/// The `[Display]` table of the parsed document, when present.
pub open spec fn display_table(parsed: toml::Table) -> toml::Table {
    value_table(table_value(parsed, "Display"@))
}

/// Do all five toggles of the `[Display]` table coerce?
pub open spec fn config_ok(display: toml::Table) -> bool {
    key_toggle_ok(display, "cpu_model"@) && key_toggle_ok(display, "os"@) && key_toggle_ok(
        display,
        "uptime"@,
    ) && key_toggle_ok(display, "ram"@) && key_toggle_ok(display, "battery"@)
}

/// The configuration the `[Display]` table decodes to, when all five
/// toggles coerce.
pub open spec fn spec_config(display: toml::Table) -> DisplayConfig {
    DisplayConfig {
        cpu_model: key_toggle(display, "cpu_model"@),
        os: key_toggle(display, "os"@),
        uptime: key_toggle(display, "uptime"@),
        ram: key_toggle(display, "ram"@),
        battery: key_toggle(display, "battery"@),
    }
}

/// Is `e` the error decoding the `[Display]` table must report: that of
/// the first toggle, in field order, that fails to coerce?
pub open spec fn config_err(display: toml::Table, e: ConfigError) -> bool {
    if !key_toggle_ok(display, "cpu_model"@) {
        key_toggle_err(display, "cpu_model"@, e)
    } else if !key_toggle_ok(display, "os"@) {
        key_toggle_err(display, "os"@, e)
    } else if !key_toggle_ok(display, "uptime"@) {
        key_toggle_err(display, "uptime"@, e)
    } else if !key_toggle_ok(display, "ram"@) {
        key_toggle_err(display, "ram"@, e)
    } else {
        key_toggle_err(display, "battery"@, e)
    }
}

/// What the `[Display]` table holds for one key, classified the way the
/// coercion distinguishes values: a native boolean first, then a string,
/// then anything else.
fn raw_toggle(display: &toml::Table, key: &str) -> (r: RawToggle)
    ensures
        toggle_ok(r) == key_toggle_ok(*display, key@),
        toggle_ok(r) ==> toggle_value(r) == key_toggle(*display, key@),
        forall|e: ConfigError| #[trigger]
            toggle_err(r, key@, e) == key_toggle_err(*display, key@, e),
{
    match table_get(display, key) {
        Option::Some(value) => match value_as_bool(value) {
            Option::Some(b) => RawToggle::Bool(b),
            Option::None => match value_as_str(value) {
                Option::Some(s) => RawToggle::Text(s),
                Option::None => RawToggle::OtherType,
            },
        },
        Option::None => RawToggle::Absent,
    }
}

/// Decodes configuration text. The text must be valid TOML — otherwise
/// `ConfigError::Parse` with the parser's message — and hold a `[Display]`
/// table — otherwise `ConfigError::MissingTable`; its five toggles are
/// then coerced by `decode_display`, the first failure in field order
/// deciding the error.
pub fn parse_config(text: &str) -> (r: Result<DisplayConfig, ConfigError>)
    ensures
        !toml_parses(text@) ==> (r matches Result::Err(e) && e matches ConfigError::Parse(m)
            && m@ == toml_parse_message(text@)),
        (toml_parses(text@) && !display_present(toml_table_of(text@))) ==> r == Result::<
            DisplayConfig,
            ConfigError,
        >::Err(ConfigError::MissingTable),
        (toml_parses(text@) && display_present(toml_table_of(text@))) ==> ({
            let display = display_table(toml_table_of(text@));
            &&& (r is Ok <==> config_ok(display))
            &&& (r matches Result::Ok(c) ==> c == spec_config(display))
            &&& (r matches Result::Err(e) ==> config_err(display, e))
        }),
{
    let table = match parse_toml_table(text) {
        Result::Ok(t) => t,
        Result::Err(message) => {
            return Result::Err(ConfigError::Parse(message));
        },
    };
    let display_value = match table_get(&table, "Display") {
        Option::Some(v) => v,
        Option::None => {
            return Result::Err(ConfigError::MissingTable);
        },
    };
    let display = match value_as_table(display_value) {
        Option::Some(t) => t,
        Option::None => {
            return Result::Err(ConfigError::MissingTable);
        },
    };
    let cpu_model = raw_toggle(display, "cpu_model");
    let os = raw_toggle(display, "os");
    let uptime = raw_toggle(display, "uptime");
    let ram = raw_toggle(display, "ram");
    let battery = raw_toggle(display, "battery");
    let ghost g_cpu_model = cpu_model;
    let ghost g_os = os;
    let ghost g_uptime = uptime;
    let ghost g_ram = ram;
    let ghost g_battery = battery;
    let r = decode_display(cpu_model, os, uptime, ram, battery);
    proof {
        let d = display_table(toml_table_of(text@));
        assert(toggle_ok(g_cpu_model) == key_toggle_ok(d, "cpu_model"@));
        assert(toggle_ok(g_os) == key_toggle_ok(d, "os"@));
        assert(toggle_ok(g_uptime) == key_toggle_ok(d, "uptime"@));
        assert(toggle_ok(g_ram) == key_toggle_ok(d, "ram"@));
        assert(toggle_ok(g_battery) == key_toggle_ok(d, "battery"@));
    }
    r
}

} // verus!
