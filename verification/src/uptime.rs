//! Formatting of an uptime, given in seconds, as "Xd Xh Xm".

use crate::numfmt::dec_str;
use crate::numfmt::u64_to_string;
use vstd::prelude::*;
use vstd::string::StringExecFns;

verus! {

/// Whole days of an uptime of `s` seconds.
pub open spec fn uptime_days(s: nat) -> nat {
    s / 86400
}

/// Whole hours of an uptime of `s` seconds, after the days are taken out.
pub open spec fn uptime_hours(s: nat) -> nat {
    (s % 86400) / 3600
}

/// Whole minutes of an uptime of `s` seconds, after the hours are taken out.
pub open spec fn uptime_minutes(s: nat) -> nat {
    (s % 3600) / 60
}

/// The uptime string: the days segment appears only when days is nonzero;
/// the hours segment appears when days was shown or hours is nonzero; the
/// minutes segment always appears. Segments are joined by single spaces and
/// each number is directly followed by its unit letter.
pub open spec fn spec_uptime(s: nat) -> Seq<char> {
    let days = uptime_days(s);
    let hours = uptime_hours(s);
    let minutes = uptime_minutes(s);
    let tail = dec_str(minutes) + "m"@;
    if days > 0 {
        dec_str(days) + "d"@ + " "@ + dec_str(hours) + "h"@ + " "@ + tail
    } else if hours > 0 {
        dec_str(hours) + "h"@ + " "@ + tail
    } else {
        tail
    }
}

/// Formats `uptime_seconds` as a concise "Xd Xh Xm" string, omitting the
/// days segment when zero and the hours segment when both days and hours
/// are zero; the minimal form is "0m".
pub fn format_uptime(uptime_seconds: u64) -> (r: String)
    ensures
        r@ == spec_uptime(uptime_seconds as nat),
{
    let days = uptime_seconds / 86400;
    let hours = (uptime_seconds % 86400) / 3600;
    let minutes = (uptime_seconds % 3600) / 60;
    let mut r = String::new();
    if days > 0 {
        let ds = u64_to_string(days);
        r.append(ds.as_str());
        r.append("d");
        r.append(" ");
    }
    if hours > 0 || days > 0 {
        let hs = u64_to_string(hours);
        r.append(hs.as_str());
        r.append("h");
        r.append(" ");
    }
    let ms = u64_to_string(minutes);
    r.append(ms.as_str());
    r.append("m");
    proof {
        assert(r@ =~= spec_uptime(uptime_seconds as nat));
    }
    r
}

} // verus!
