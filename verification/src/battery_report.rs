//! Formatting of a battery reading: charge percentage, charging state, and
//! an optional time estimate rendered as a parenthesized suffix.

use crate::numfmt::dec_str;
use crate::numfmt::u64_to_string;
use vstd::prelude::*;
use vstd::string::StringExecFns;

verus! {

/// The charging state of a battery as the report distinguishes it. Any
/// state the driver reports beyond the first four is folded into `Unknown`.
#[derive(Clone, Copy, Debug, PartialEq, Eq, Structural)]
pub enum BatteryState {
    Charging,
    Discharging,
    Full,
    Empty,
    Unknown,
}

/// A point-in-time reading of one battery: the state of charge already
/// truncated to a whole percentage, the charging state, and the driver's
/// time estimate in seconds, when it gave one. The estimate means time to
/// full when charging and time to empty when discharging.
#[derive(Clone, Debug)]
pub struct BatteryReading {
    pub percent: u8,
    pub state: BatteryState,
    pub estimate_seconds: Option<u64>,
}

/// What a probe of the battery subsystem found: no device at all, or a
/// reading of the first device.
#[derive(Clone, Debug)]
pub enum BatteryStatus {
    NotDetected,
    Present(BatteryReading),
}

/// The display label of a charging state.
pub open spec fn state_label(st: BatteryState) -> Seq<char> {
    match st {
        BatteryState::Charging => "Charging"@,
        BatteryState::Discharging => "Discharging"@,
        BatteryState::Full => "Full"@,
        BatteryState::Empty => "Empty"@,
        BatteryState::Unknown => "Unknown"@,
    }
}

/// The time-estimate suffix: present only when the state is Charging or
/// Discharging and the driver gave an estimate; otherwise empty. The
/// estimate is decomposed into whole hours and remaining whole minutes.
pub open spec fn eta_suffix(st: BatteryState, estimate_seconds: Option<u64>) -> Seq<char> {
    match estimate_seconds {
        Option::Some(s) => {
            let body = dec_str(s as nat / 3600) + "h"@ + dec_str((s as nat % 3600) / 60) + "m"@;
            match st {
                BatteryState::Charging => " ("@ + body + " until full)"@,
                BatteryState::Discharging => " ("@ + body + " remaining)"@,
                _ => Seq::empty(),
            }
        },
        Option::None => Seq::empty(),
    }
}

/// The whole battery line: "Battery: P% (State)" followed by the suffix,
/// or the fixed text when no battery was detected.
pub open spec fn spec_battery_line(status: BatteryStatus) -> Seq<char> {
    match status {
        BatteryStatus::NotDetected => "Battery: Not detected"@,
        BatteryStatus::Present(r) => "Battery: "@ + dec_str(r.percent as nat) + "% ("@
            + state_label(r.state) + ")"@ + eta_suffix(r.state, r.estimate_seconds),
    }
}

/// The suffix is empty whenever the estimate is unavailable, no matter the
/// state — even Charging or Discharging.
pub proof fn lemma_no_estimate_no_suffix(st: BatteryState)
    ensures
        eta_suffix(st, Option::None) == Seq::<char>::empty(),
{
}

/// The suffix is also empty whenever the state is Full, Empty or Unknown,
/// even if the driver handed over an estimate.
pub proof fn lemma_idle_state_no_suffix(st: BatteryState, estimate_seconds: Option<u64>)
    requires
        st != BatteryState::Charging,
        st != BatteryState::Discharging,
    ensures
        eta_suffix(st, estimate_seconds) == Seq::<char>::empty(),
{
}

fn state_label_string(st: BatteryState) -> (r: String)
    ensures
        r@ == state_label(st),
{
    let s: &str = match st {
        BatteryState::Charging => "Charging",
        BatteryState::Discharging => "Discharging",
        BatteryState::Full => "Full",
        BatteryState::Empty => "Empty",
        BatteryState::Unknown => "Unknown",
    };
    s.to_owned()
}

fn eta_suffix_string(st: BatteryState, estimate_seconds: &Option<u64>) -> (r: String)
    ensures
        r@ == eta_suffix(st, *estimate_seconds),
{
    let charging = matches!(st, BatteryState::Charging);
    let discharging = matches!(st, BatteryState::Discharging);
    let mut r = String::new();
    if charging || discharging {
        match estimate_seconds {
            Option::Some(s) => {
                let seconds = *s;
                let hours = seconds / 3600;
                let minutes = (seconds % 3600) / 60;
                r.append(" (");
                let hs = u64_to_string(hours);
                r.append(hs.as_str());
                r.append("h");
                let ms = u64_to_string(minutes);
                r.append(ms.as_str());
                if charging {
                    r.append("m until full)");
                } else {
                    r.append("m remaining)");
                }
                proof {
                    reveal_strlit(" (");
                    reveal_strlit("h");
                    reveal_strlit("m");
                    reveal_strlit(" until full)");
                    reveal_strlit(" remaining)");
                    reveal_strlit("m until full)");
                    reveal_strlit("m remaining)");
                    assert(r@ =~= eta_suffix(st, *estimate_seconds));
                }
            },
            Option::None => {},
        }
    }
    r
}

/// Composes the one-line battery summary for a probe of the battery
/// subsystem, matching `spec_battery_line`.
pub fn get_battery_info(status: &BatteryStatus) -> (r: String)
    ensures
        r@ == spec_battery_line(*status),
{
    match status {
        BatteryStatus::NotDetected => "Battery: Not detected".to_owned(),
        BatteryStatus::Present(reading) => {
            let mut r = "Battery: ".to_owned();
            let pct = u64_to_string(reading.percent as u64);
            r.append(pct.as_str());
            r.append("% (");
            let label = state_label_string(reading.state);
            r.append(label.as_str());
            r.append(")");
            let suffix = eta_suffix_string(reading.state, &reading.estimate_seconds);
            r.append(suffix.as_str());
            proof {
                assert(r@ =~= spec_battery_line(*status));
            }
            r
        },
    }
}

} // verus!
