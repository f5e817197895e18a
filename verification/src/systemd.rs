//! The service manager as the decision core sees it.

use vstd::prelude::*;
use vstd::string::*;
use crate::opinion::{Opinion, OpinionView};
use crate::text::{
    all_white_space, concat2, decimal, decimal_digits, line_texts, occurs_in, str_contains,
    str_is_blank, str_lines, texts,
};

verus! {

/// How often the service manager restarted the service. No probe for it is
/// wired in: the count is never known.
pub fn get_restart_count(_service: &str) -> (count: Option<u32>)
    ensures
        count is None,
{
    None
}

/// A failed service that wants healing. No probe for it is wired in: none is
/// ever reported.
pub fn check() -> (service: Option<String>)
    ensures
        service is None,
{
    None
}

/// Whether the service is active. No probe for it is wired in: every service
/// counts as active.
pub fn is_active(_service: &str) -> (active: bool)
    ensures
        active,
{
    true
}

/// Whether a line of the failed-unit listing names a unit whose failure can
/// be ignored: a terminal login, the Bluetooth service or the print service.
pub open spec fn is_ignorable_line(line: Seq<char>) -> bool {
    ||| occurs_in("getty@"@, line)
    ||| occurs_in("serial-getty@"@, line)
    ||| occurs_in("bluetooth.service"@, line)
    ||| occurs_in("cups.service"@, line)
}

/// How many of the lines can be ignored.
pub open spec fn ignorable_count(lines: Seq<Seq<char>>) -> nat {
    lines.filter(|line: Seq<char>| is_ignorable_line(line)).len()
}

/// How many of the lines cannot be ignored.
pub open spec fn critical_count(lines: Seq<Seq<char>>) -> nat {
    lines.filter(|line: Seq<char>| !is_ignorable_line(line)).len()
}

/// The opinion that a failed-unit listing supports. A blank listing is
/// healthy; one line that cannot be ignored makes it broken; otherwise it is
/// degraded. The reason counts the lines that decided.
pub open spec fn opinion_of_listing(blank: bool, lines: Seq<Seq<char>>) -> OpinionView {
    if blank {
        OpinionView::Healthy
    } else if critical_count(lines) > 0 {
        OpinionView::Broken {
            reason: "Critical systemd units failed: "@ + decimal_digits(critical_count(lines)),
        }
    } else {
        OpinionView::Degraded {
            reason: "Non-critical systemd units failed: "@ + decimal_digits(
                ignorable_count(lines),
            ),
        }
    }
}

/// The opinion that the answer to the failed-unit query supports: broken
/// where the query could not be made, else the opinion of the listing.
pub open spec fn assessed(output: Option<Seq<char>>) -> OpinionView {
    match output {
        None => OpinionView::Broken { reason: "Unable to query systemd state"@ },
        Some(text) => opinion_of_listing(all_white_space(text), line_texts(text)),
    }
}

/// Whether a line of the failed-unit listing can be ignored.
pub fn line_is_ignorable(line: &str) -> (r: bool)
    ensures
        r == is_ignorable_line(line@),
{
    str_contains(line, "getty@") || str_contains(line, "serial-getty@") || str_contains(
        line,
        "bluetooth.service",
    ) || str_contains(line, "cups.service")
}

/// Forms the opinion from the lines of a failed-unit listing. `blank` says
/// that the listing holds nothing but white space.
pub fn assess_lines(blank: bool, lines: &Vec<String>) -> (opinion: Opinion)
    ensures
        opinion@ == opinion_of_listing(blank, texts(lines@)),
{
    if blank {
        return Opinion::Healthy;
    }
    let ghost all = texts(lines@);
    let ghost ignorable = |line: Seq<char>| is_ignorable_line(line);
    let ghost critical = |line: Seq<char>| !is_ignorable_line(line);
    let mut critical_lines: usize = 0;
    let mut ignorable_lines: usize = 0;
    let mut i: usize = 0;
    proof {
        reveal(Seq::filter);
        assert(all.take(0) =~= Seq::<Seq<char>>::empty());
    }
    while i < lines.len()
        invariant
            i <= lines.len(),
            all == texts(lines@),
            ignorable == (|line: Seq<char>| is_ignorable_line(line)),
            critical == (|line: Seq<char>| !is_ignorable_line(line)),
            critical_lines == all.take(i as int).filter(critical).len(),
            ignorable_lines == all.take(i as int).filter(ignorable).len(),
            critical_lines + ignorable_lines == i,
        decreases lines.len() - i,
    {
        proof {
            reveal(Seq::filter);
            assert(all.take(i as int + 1).drop_last() =~= all.take(i as int));
            assert(all.take(i as int + 1).last() == lines@[i as int]@);
        }
        if line_is_ignorable(lines[i].as_str()) {
            ignorable_lines = ignorable_lines + 1;
        } else {
            critical_lines = critical_lines + 1;
        }
        i = i + 1;
    }
    assert(all.take(lines.len() as int) =~= all);
    if critical_lines > 0 {
        let count = decimal(critical_lines as u64);
        Opinion::Broken { reason: concat2("Critical systemd units failed: ", count.as_str()) }
    } else {
        let count = decimal(ignorable_lines as u64);
        Opinion::Degraded {
            reason: concat2("Non-critical systemd units failed: ", count.as_str()),
        }
    }
}

/// Forms the opinion on the service manager from the answer to the
/// failed-unit query: `None` where the query could not be made, else the
/// listing that it printed.
pub fn assess(output: Option<&str>) -> (opinion: Opinion)
    ensures
        opinion@ == assessed(
            match output {
                Some(text) => Some(text@),
                None => None,
            },
        ),
{
    match output {
        None => Opinion::Broken { reason: String::from_str("Unable to query systemd state") },
        Some(text) => {
            let blank = str_is_blank(text);
            let lines = str_lines(text);
            assess_lines(blank, &lines)
        },
    }
}

} // verus!
