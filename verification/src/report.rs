//! The structured status line a cycle reports.
//!
//! One line per cycle: `"probe ok"`, `"probe failed: <reason>"`, or
//! `"restarted N of M matching processes"`. The line — including the
//! decimal rendering of the counts — is pinned down exactly, so the
//! surrounding program only prints it.

use vstd::prelude::*;
use vstd::string::StringExecFns;
use crate::scheduler::CycleReport;
use crate::status::HealthStatus;

verus! {

/// The decimal digit character for a value below ten.
pub open spec fn decimal_digit(d: nat) -> char {
    if d == 0 {
        '0'
    } else if d == 1 {
        '1'
    } else if d == 2 {
        '2'
    } else if d == 3 {
        '3'
    } else if d == 4 {
        '4'
    } else if d == 5 {
        '5'
    } else if d == 6 {
        '6'
    } else if d == 7 {
        '7'
    } else if d == 8 {
        '8'
    } else {
        '9'
    }
}

/// The usual decimal rendering of `n`: no sign, no leading zero except
/// for zero itself.
pub open spec fn decimal_digits(n: nat) -> Seq<char>
    decreases n,
{
    if n < 10 {
        seq![decimal_digit(n)]
    } else {
        decimal_digits(n / 10) + seq![decimal_digit(n % 10)]
    }
}

/// The digit character of a value below ten.
fn digit_literal(d: usize) -> (s: &'static str)
    requires
        d < 10,
    ensures
        s@ == seq![decimal_digit(d as nat)],
{
    proof {
        reveal_strlit("0");
        reveal_strlit("1");
        reveal_strlit("2");
        reveal_strlit("3");
        reveal_strlit("4");
        reveal_strlit("5");
        reveal_strlit("6");
        reveal_strlit("7");
        reveal_strlit("8");
        reveal_strlit("9");
        assert("0"@ =~= seq!['0']);
        assert("1"@ =~= seq!['1']);
        assert("2"@ =~= seq!['2']);
        assert("3"@ =~= seq!['3']);
        assert("4"@ =~= seq!['4']);
        assert("5"@ =~= seq!['5']);
        assert("6"@ =~= seq!['6']);
        assert("7"@ =~= seq!['7']);
        assert("8"@ =~= seq!['8']);
        assert("9"@ =~= seq!['9']);
    }
    match d {
        0 => "0",
        1 => "1",
        2 => "2",
        3 => "3",
        4 => "4",
        5 => "5",
        6 => "6",
        7 => "7",
        8 => "8",
        _ => "9",
    }
}

/// Renders `n` in decimal.
pub fn decimal_string(n: usize) -> (s: String)
    ensures
        s@ == decimal_digits(n as nat),
    decreases n,
{
    if n < 10 {
        String::from_str(digit_literal(n))
    } else {
        let high = decimal_string(n / 10);
        high.concat(digit_literal(n % 10))
    }
}

/// The status line for one cycle report.
pub open spec fn spec_status_line(report: CycleReport) -> Seq<char> {
    match report.status {
        HealthStatus::Healthy => "probe ok"@,
        HealthStatus::ProbeFailed(reason) => "probe failed: "@ + reason@,
        HealthStatus::Disconnected => match report.restarted {
            Some(outcome) => "restarted "@ + decimal_digits(outcome.killed_count as nat) + " of "@
                + decimal_digits(outcome.matched_count as nat) + " matching processes"@,
            None => "disconnected"@,
        },
    }
}

/// The structured status line of one cycle: `"probe ok"`,
/// `"probe failed: <reason>"`, or
/// `"restarted <killed> of <matched> matching processes"`.
pub fn status_line(report: &CycleReport) -> (line: String)
    ensures
        line@ == spec_status_line(*report),
{
    match &report.status {
        HealthStatus::Healthy => String::from_str("probe ok"),
        HealthStatus::ProbeFailed(reason) => String::from_str("probe failed: ").concat(
            reason.as_str(),
        ),
        HealthStatus::Disconnected => match &report.restarted {
            Some(outcome) => {
                let mut line = String::from_str("restarted ");
                line = line.concat(decimal_string(outcome.killed_count).as_str());
                line = line.concat(" of ");
                line = line.concat(decimal_string(outcome.matched_count).as_str());
                line.concat(" matching processes")
            },
            None => String::from_str("disconnected"),
        },
    }
}

} // verus!
