//! The report formatter: the CPU line, the batched OS / Uptime / Ram /
//! Battery lines in their fixed order gated by the display toggles, and
//! the newline join of the batch.

use crate::battery_report::spec_battery_line;
use crate::battery_report::BatteryStatus;
use crate::battery_report::get_battery_info;
use crate::config::DisplayConfig;
use crate::memory::spec_memory_gb;
use crate::memory::get_total_memory_gb;
use crate::numfmt::dec_str;
use crate::numfmt::two_digit_str;
use crate::numfmt::u64_to_string;
use crate::numfmt::u64_to_two_digits;
use crate::uptime::spec_uptime;
use crate::uptime::format_uptime;
use vstd::prelude::*;
use vstd::string::StringExecFns;

verus! {

/// The first enumerated CPU, reduced to what the report shows: its brand
/// string and its frequency in MHz.
#[derive(Clone, Debug)]
pub struct CpuFacts {
    pub brand: String,
    pub frequency_mhz: u64,
}

/// The frequency in hundredths of a GHz, rounded half-up from MHz.
pub open spec fn ghz_hundredths(mhz: nat) -> nat {
    mhz / 10 + if mhz % 10 >= 5 {
        1nat
    } else {
        0nat
    }
}

/// The CPU line: brand, then the frequency in GHz with two decimals.
pub open spec fn spec_cpu_line(brand: Seq<char>, mhz: nat) -> Seq<char> {
    let h = ghz_hundredths(mhz);
    "CPU Model: "@ + brand + " @ "@ + dec_str(h / 100) + "."@ + two_digit_str(h % 100) + " GHz"@
}

/// Formats the CPU line for the first enumerated CPU, or nothing when no
/// CPU was enumerated — absence of a CPU never fails the run.
pub fn get_cpu_info(cpu: Option<CpuFacts>) -> (r: Option<String>)
    ensures
        r is Some <==> cpu is Some,
        cpu matches Option::Some(c) ==> (r matches Option::Some(line) && line@ == spec_cpu_line(
            c.brand@,
            c.frequency_mhz as nat,
        )),
{
    match cpu {
        Option::Some(c) => {
            let mhz = c.frequency_mhz;
            let h = mhz / 10 + if mhz % 10 >= 5 {
                1
            } else {
                0
            };
            let mut r = "CPU Model: ".to_owned();
            r.append(c.brand.as_str());
            r.append(" @ ");
            let whole = u64_to_string(h / 100);
            r.append(whole.as_str());
            r.append(".");
            let frac = u64_to_two_digits(h % 100);
            r.append(frac.as_str());
            r.append(" GHz");
            proof {
                assert(r@ =~= spec_cpu_line(c.brand@, c.frequency_mhz as nat));
            }
            Option::Some(r)
        },
        Option::None => Option::None,
    }
}

/// The OS line of the batch.
pub open spec fn spec_os_line(os_label: Seq<char>) -> Seq<char> {
    "OS: "@ + os_label
}

/// The Uptime line of the batch.
pub open spec fn spec_uptime_line(uptime_seconds: u64) -> Seq<char> {
    "Uptime: "@ + spec_uptime(uptime_seconds as nat)
}

/// The Ram line of the batch: total memory in whole gigabytes.
pub open spec fn spec_ram_line(total_memory_bytes: u64) -> Seq<char> {
    "Ram: "@ + dec_str(spec_memory_gb(total_memory_bytes as int) as nat) + " Gb"@
}

/// The batched report lines, in the fixed order OS, Uptime, Ram, Battery,
/// each present exactly when its toggle is enabled. The CPU line is not
/// part of the batch.
pub open spec fn spec_report_lines(
    config: DisplayConfig,
    os_label: Seq<char>,
    uptime_seconds: u64,
    total_memory_bytes: u64,
    battery: BatteryStatus,
) -> Seq<Seq<char>> {
    let os_part: Seq<Seq<char>> = if config.os {
        seq![spec_os_line(os_label)]
    } else {
        Seq::empty()
    };
    let uptime_part: Seq<Seq<char>> = if config.uptime {
        seq![spec_uptime_line(uptime_seconds)]
    } else {
        Seq::empty()
    };
    let ram_part: Seq<Seq<char>> = if config.ram {
        seq![spec_ram_line(total_memory_bytes)]
    } else {
        Seq::empty()
    };
    let battery_part: Seq<Seq<char>> = if config.battery {
        seq![spec_battery_line(battery)]
    } else {
        Seq::empty()
    };
    os_part + uptime_part + ram_part + battery_part
}

fn os_line(os_label: &str) -> (r: String)
    ensures
        r@ == spec_os_line(os_label@),
{
    let mut r = "OS: ".to_owned();
    r.append(os_label);
    r
}

fn uptime_line(uptime_seconds: u64) -> (r: String)
    ensures
        r@ == spec_uptime_line(uptime_seconds),
{
    let mut r = "Uptime: ".to_owned();
    let u = format_uptime(uptime_seconds);
    r.append(u.as_str());
    r
}

fn ram_line(total_memory_bytes: u64) -> (r: String)
    ensures
        r@ == spec_ram_line(total_memory_bytes),
{
    let mut r = "Ram: ".to_owned();
    let gb = u64_to_string(get_total_memory_gb(total_memory_bytes));
    r.append(gb.as_str());
    r.append(" Gb");
    r
}

/// Builds the batched report lines, matching `spec_report_lines`.
pub fn report_lines(
    config: &DisplayConfig,
    os_label: &str,
    uptime_seconds: u64,
    total_memory_bytes: u64,
    battery: &BatteryStatus,
) -> (lines: Vec<String>)
    ensures
        lines.deep_view() == spec_report_lines(
            *config,
            os_label@,
            uptime_seconds,
            total_memory_bytes,
            *battery,
        ),
{
    let mut lines: Vec<String> = Vec::new();
    if config.os {
        lines.push(os_line(os_label));
    }
    if config.uptime {
        lines.push(uptime_line(uptime_seconds));
    }
    if config.ram {
        lines.push(ram_line(total_memory_bytes));
    }
    if config.battery {
        lines.push(get_battery_info(battery));
    }
    proof {
        assert(lines.deep_view() =~= spec_report_lines(
            *config,
            os_label@,
            uptime_seconds,
            total_memory_bytes,
            *battery,
        ));
    }
    lines
}

/// The lines joined with single newlines; empty for an empty batch, no
/// trailing newline.
pub open spec fn spec_join_nl(lines: Seq<Seq<char>>) -> Seq<char>
    decreases lines.len(),
{
    if lines.len() == 0 {
        Seq::empty()
    } else if lines.len() == 1 {
        lines[0]
    } else {
        lines[0] + seq!['\n'] + spec_join_nl(lines.subrange(1, lines.len() as int))
    }
}

fn join_from(lines: &Vec<String>, i: usize) -> (r: String)
    requires
        i < lines@.len(),
    ensures
        r@ == spec_join_nl(lines.deep_view().subrange(i as int, lines.deep_view().len() as int)),
    decreases lines@.len() - i,
{
    let mut r = lines[i].clone();
    if i < lines.len() - 1 {
        r.append("\n");
        let rest = join_from(lines, i + 1);
        r.append(rest.as_str());
        proof {
            reveal_strlit("\n");
            let dv = lines.deep_view();
            assert(dv.subrange(i as int, dv.len() as int).subrange(
                1,
                dv.len() - i as int,
            ) =~= dv.subrange(i + 1, dv.len() as int));
            assert(r@ =~= spec_join_nl(dv.subrange(i as int, dv.len() as int)));
        }
    }
    r
}

/// Joins the batched lines with newlines for one trailing write; `None`
/// when no field of the batch is enabled, so that nothing at all is
/// printed (not even a blank line).
pub fn report_text(lines: &Vec<String>) -> (r: Option<String>)
    ensures
        r is None <==> lines@.len() == 0,
        r matches Option::Some(s) ==> s@ == spec_join_nl(lines.deep_view()),
{
    if lines.len() == 0 {
        Option::None
    } else {
        let joined = join_from(lines, 0);
        proof {
            let dv = lines.deep_view();
            assert(dv.subrange(0, dv.len() as int) =~= dv);
        }
        Option::Some(joined)
    }
}

/// The whole formatting step of a run: the CPU line (shown only when its
/// toggle is enabled and a CPU was enumerated) and the batched lines.
pub fn full_report(
    config: &DisplayConfig,
    cpu: Option<CpuFacts>,
    os_label: &str,
    uptime_seconds: u64,
    total_memory_bytes: u64,
    battery: &BatteryStatus,
) -> (r: (Option<String>, Vec<String>))
    ensures
        r.0 is Some <==> (config.cpu_model && cpu is Some),
        config.cpu_model ==> (cpu matches Option::Some(c) ==> (r.0 matches Option::Some(line)
            && line@ == spec_cpu_line(c.brand@, c.frequency_mhz as nat))),
        r.1.deep_view() == spec_report_lines(
            *config,
            os_label@,
            uptime_seconds,
            total_memory_bytes,
            *battery,
        ),
{
    let cpu_line = if config.cpu_model {
        get_cpu_info(cpu)
    } else {
        Option::None
    };
    let lines = report_lines(config, os_label, uptime_seconds, total_memory_bytes, battery);
    (cpu_line, lines)
}

/// A configuration that enables only `os` and `ram` yields exactly two
/// batched lines, the OS line before the Ram line, whatever the other
/// facts hold and whether or not the CPU toggle is set.
pub proof fn lemma_os_ram_only(
    config: DisplayConfig,
    os_label: Seq<char>,
    uptime_seconds: u64,
    total_memory_bytes: u64,
    battery: BatteryStatus,
)
    requires
        config.os,
        config.ram,
        !config.uptime,
        !config.battery,
    ensures
        spec_report_lines(config, os_label, uptime_seconds, total_memory_bytes, battery).len()
            == 2,
        spec_report_lines(config, os_label, uptime_seconds, total_memory_bytes, battery)[0]
            == spec_os_line(os_label),
        spec_report_lines(config, os_label, uptime_seconds, total_memory_bytes, battery)[1]
            == spec_ram_line(total_memory_bytes),
{
}

} // verus!
