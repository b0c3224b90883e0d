//! The OS label: a fixed name per platform, refined on Linux by the
//! `PRETTY_NAME` entry of the os-release file's text.

use vstd::prelude::*;
use vstd::string::StrSliceExecFns;

verus! {

/// The platforms the report distinguishes.
#[derive(Clone, Copy, Debug, PartialEq, Eq, Structural)]
pub enum Platform {
    Linux,
    Windows,
    MacOs,
    Other,
}

/// Index of the first newline in `s`, or `s.len()` when there is none.
pub open spec fn first_nl(s: Seq<char>) -> int
    decreases s.len(),
{
    if s.len() == 0 {
        0
    } else if s[0] == '\n' {
        0
    } else {
        1 + first_nl(s.subrange(1, s.len() as int))
    }
}

pub proof fn lemma_first_nl_bounds(s: Seq<char>)
    ensures
        0 <= first_nl(s) <= s.len(),
        first_nl(s) < s.len() ==> s[first_nl(s)] == '\n',
    decreases s.len(),
{
    if s.len() == 0 {
    } else if s[0] == '\n' {
    } else {
        lemma_first_nl_bounds(s.subrange(1, s.len() as int));
    }
}

/// The line with a single trailing carriage return, if any, removed, so
/// that text with "\r\n" line endings yields the same values.
pub open spec fn strip_cr(line: Seq<char>) -> Seq<char> {
    if line.len() > 0 && line[line.len() - 1] == '\r' {
        line.subrange(0, line.len() - 1)
    } else {
        line
    }
}

/// `s` with every leading and every trailing double-quote removed.
pub open spec fn trim_quotes(s: Seq<char>) -> Seq<char>
    decreases s.len(),
{
    if s.len() > 0 && s[0] == '"' {
        trim_quotes(s.subrange(1, s.len() as int))
    } else if s.len() > 0 && s[s.len() - 1] == '"' {
        trim_quotes(s.subrange(0, s.len() - 1))
    } else {
        s
    }
}

/// Does the line carry the key of interest, `PRETTY_NAME=`?
pub open spec fn has_pretty_prefix(line: Seq<char>) -> bool {
    line.len() >= 12 && line.subrange(0, 12) == "PRETTY_NAME="@
}

/// The distribution name the os-release text yields: the first line whose
/// key is exactly `PRETTY_NAME`, with its surrounding double quotes
/// stripped; `None` when no line carries that key. Lines end at a newline;
/// a carriage return at a line's end is not part of the line, so "\r\n"
/// endings read the same as "\n" ones.
pub open spec fn pretty_name_of(content: Seq<char>) -> Option<Seq<char>>
    decreases content.len(),
    via pretty_name_of_decreases
{
    if content.len() == 0 {
        Option::None
    } else {
        let e = first_nl(content);
        let line = strip_cr(content.subrange(0, e));
        if has_pretty_prefix(line) {
            Option::Some(trim_quotes(line.subrange(12, line.len() as int)))
        } else if e == content.len() {
            Option::None
        } else {
            pretty_name_of(content.subrange(e + 1, content.len() as int))
        }
    }
}

#[via_fn]
proof fn pretty_name_of_decreases(content: Seq<char>) {
    lemma_first_nl_bounds(content);
}

fn first_nl_exec(s: &str) -> (r: usize)
    ensures
        r as int == first_nl(s@),
    decreases s@.len(),
{
    let n = s.unicode_len();
    if n == 0 {
        0
    } else if s.get_char(0) == '\n' {
        0
    } else {
        let rest = s.substring_char(1, n);
        let r = first_nl_exec(rest);
        proof {
            lemma_first_nl_bounds(rest@);
        }
        1 + r
    }
}

fn trim_quotes_exec(s: &str) -> (r: String)
    ensures
        r@ == trim_quotes(s@),
    decreases s@.len(),
{
    let n = s.unicode_len();
    if n > 0 && s.get_char(0) == '"' {
        trim_quotes_exec(s.substring_char(1, n))
    } else if n > 0 && s.get_char(n - 1) == '"' {
        trim_quotes_exec(s.substring_char(0, n - 1))
    } else {
        s.to_owned()
    }
}

fn has_pretty_prefix_exec(line: &str) -> (r: bool)
    ensures
        r == has_pretty_prefix(line@),
{
    proof {
        reveal_strlit("PRETTY_NAME=");
    }
    let n = line.unicode_len();
    if n < 12 {
        return false;
    }
    let mut i: usize = 0;
    while i < 12
        invariant
            0 <= i <= 12,
            line@.len() >= 12,
            forall|j: int| 0 <= j < i ==> line@[j] == "PRETTY_NAME="@[j],
        decreases 12 - i,
    {
        proof {
            reveal_strlit("PRETTY_NAME=");
        }
        if line.get_char(i) != "PRETTY_NAME=".get_char(i) {
            proof {
                assert(line@.subrange(0, 12)[i as int] == line@[i as int]);
            }
            return false;
        }
        i += 1;
    }
    proof {
        assert(line@.subrange(0, 12) =~= "PRETTY_NAME="@);
    }
    true
}

/// Scans os-release text for the first `PRETTY_NAME=` line and returns its
/// value with surrounding double quotes stripped, per `pretty_name_of`.
pub fn get_linux_distribution(os_release_text: &str) -> (r: Option<String>)
    ensures
        r matches Option::Some(name) ==> pretty_name_of(os_release_text@) == Option::Some(
            name@,
        ),
        r is None ==> pretty_name_of(os_release_text@) is None,
    decreases os_release_text@.len(),
{
    let n = os_release_text.unicode_len();
    if n == 0 {
        return Option::None;
    }
    let e = first_nl_exec(os_release_text);
    proof {
        lemma_first_nl_bounds(os_release_text@);
    }
    let end = if e > 0 && os_release_text.get_char(e - 1) == '\r' {
        e - 1
    } else {
        e
    };
    let line = os_release_text.substring_char(0, end);
    proof {
        assert(line@ =~= strip_cr(os_release_text@.subrange(0, e as int)));
    }
    if has_pretty_prefix_exec(line) {
        let value = line.substring_char(12, end);
        Option::Some(trim_quotes_exec(value))
    } else if e == n {
        Option::None
    } else {
        let rest = os_release_text.substring_char(e + 1, n);
        get_linux_distribution(rest)
    }
}

/// The OS label for a platform: the resolved distribution name on Linux
/// (with a fixed fallback when none was resolved), a fixed name elsewhere,
/// and "Unknown OS" on any platform not otherwise recognized.
pub open spec fn spec_os_label(platform: Platform, distro: Option<Seq<char>>) -> Seq<char> {
    match platform {
        Platform::Linux => match distro {
            Option::Some(d) => d,
            Option::None => "Linux (Unknown Distro)"@,
        },
        Platform::Windows => "Windows"@,
        Platform::MacOs => "macOS"@,
        Platform::Other => "Unknown OS"@,
    }
}

/// The human-friendly OS label, with the Linux distribution name supplied
/// by the caller (resolved from os-release text, when available).
pub fn get_os_info(platform: Platform, linux_distribution: Option<String>) -> (r: String)
    ensures
        r@ == spec_os_label(platform, linux_distribution.deep_view()),
{
    match platform {
        Platform::Linux => match linux_distribution {
            Option::Some(d) => d,
            Option::None => "Linux (Unknown Distro)".to_owned(),
        },
        Platform::Windows => "Windows".to_owned(),
        Platform::MacOs => "macOS".to_owned(),
        Platform::Other => "Unknown OS".to_owned(),
    }
}

} // verus!
