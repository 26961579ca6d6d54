//! The six report lines the program prints, each pinned down exactly,
//! and the one piece of arithmetic the report shows.

use vstd::prelude::*;

use crate::digits::decimal;
use crate::digits::decimal_string;

verus! {

/// Mathematical addition, what `calculate` is held to.
pub open spec fn spec_add(a: int, b: int) -> int {
    a + b
}

/// Adds two machine integers; the bound is only what `i32` forces.
pub fn calculate(a: i32, b: i32) -> (r: i32)
    requires
        i32::MIN <= a + b <= i32::MAX,
    ensures
        r == spec_add(a as int, b as int),
{
    a + b
}

/// How many characters the separator line holds.
pub open spec fn separator_width() -> nat {
    30
}

/// The first line: a fixed banner.
pub open spec fn banner_line() -> Seq<char> {
    "Hello from Rust!"@
}

/// The second line: the separator character repeated `separator_width()` times.
pub open spec fn separator_line() -> Seq<char> {
    Seq::new(separator_width(), |i: int| '=')
}

/// The third line: the Unix timestamp in base 10 after a fixed label.
pub open spec fn timestamp_line(ts: u64) -> Seq<char> {
    "Unix timestamp: "@ + decimal(ts as nat)
}

/// The fourth line: the working directory after a fixed label, or the
/// fixed fallback when the query failed.
pub open spec fn workdir_line(wd: Option<String>) -> Seq<char> {
    match wd {
        Some(path) => "Working directory: "@ + path@,
        None => "Working directory: unknown"@,
    }
}

/// The fifth line: the sample addition and its result.
pub open spec fn calc_line() -> Seq<char> {
    "10 + 5 = "@ + decimal(spec_add(10, 5) as nat)
}

/// The sixth line: a fixed closing confirmation.
pub open spec fn closing_line() -> Seq<char> {
    "Rust program finished successfully!"@
}

/// The whole report: the six lines in their fixed order.
pub open spec fn spec_output(ts: u64, wd: Option<String>) -> Seq<Seq<char>> {
    seq![
        banner_line(),
        separator_line(),
        timestamp_line(ts),
        workdir_line(wd),
        calc_line(),
        closing_line(),
    ]
}

/// A string of `count` separator characters.
fn repeat_separator(count: usize) -> (s: String)
    ensures
        s@ == Seq::new(count as nat, |i: int| '='),
{
    let mut s: String = String::new();
    let mut i: usize = 0;
    while i < count
        invariant
            i <= count,
            s@ == Seq::new(i as nat, |j: int| '='),
        decreases count - i,
    {
        s.append("=");
        i += 1;
        proof {
            reveal_strlit("=");
            assert(s@ =~= Seq::new(i as nat, |j: int| '='));
        }
    }
    s
}

/// Builds the whole report from the two values the environment supplies:
/// the clock reading and the working directory (`None` when the query
/// failed). Exactly six lines, in the fixed order `spec_output` gives.
pub fn output_lines(ts: u64, wd: Option<String>) -> (lines: Vec<String>)
    ensures
        lines@.len() == 6,
        lines@.map_values(|l: String| l@) == spec_output(ts, wd),
        lines@[0]@ == banner_line(),
        lines@[1]@ == separator_line(),
        lines@[2]@ == timestamp_line(ts),
        lines@[3]@ == workdir_line(wd),
        lines@[4]@ == calc_line(),
        lines@[5]@ == closing_line(),
{
    let mut lines: Vec<String> = Vec::new();
    lines.push("Hello from Rust!".to_owned());
    lines.push(repeat_separator(30));
    let mut ts_line: String = "Unix timestamp: ".to_owned();
    let ts_digits: String = decimal_string(ts);
    ts_line.append(ts_digits.as_str());
    lines.push(ts_line);
    let wd_line: String = match wd {
        Some(path) => {
            let mut l: String = "Working directory: ".to_owned();
            l.append(path.as_str());
            l
        },
        None => "Working directory: unknown".to_owned(),
    };
    lines.push(wd_line);
    let sum: i32 = calculate(10, 5);
    let mut sum_line: String = "10 + 5 = ".to_owned();
    let sum_digits: String = decimal_string(sum as u64);
    sum_line.append(sum_digits.as_str());
    lines.push(sum_line);
    lines.push("Rust program finished successfully!".to_owned());
    proof {
        assert(lines@.map_values(|l: String| l@) =~~= spec_output(ts, wd));
    }
    lines
}

/// The computation line is exactly `10 + 5 = 15`, in every report.
pub proof fn lemma_calc_line_exact()
    ensures
        calc_line() == "10 + 5 = 15"@,
{
    reveal_strlit("10 + 5 = ");
    reveal_strlit("10 + 5 = 15");
    assert(decimal(1) == seq![crate::digits::digit_char(1)]);
    assert(decimal(15) == decimal(1) + seq![crate::digits::digit_char(5)]);
    assert(calc_line() =~= "10 + 5 = 15"@);
}

/// The fallback: when the working-directory query failed, the fourth
/// line is exactly the fixed fallback string.
pub proof fn lemma_workdir_fallback(ts: u64)
    ensures
        spec_output(ts, None)[3] == "Working directory: unknown"@,
{
}

/// Two reports differ at most in the timestamp line: for any two clock
/// readings and the same working directory, every line but the third is
/// identical, and the reports have the same length.
pub proof fn lemma_runs_agree_off_timestamp(ts1: u64, ts2: u64, wd: Option<String>)
    ensures
        spec_output(ts1, wd).len() == spec_output(ts2, wd).len(),
        forall|i: int|
            0 <= i < spec_output(ts1, wd).len() && i != 2 ==> spec_output(ts1, wd)[i]
                == spec_output(ts2, wd)[i],
{
}

} // verus!
