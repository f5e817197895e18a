//! Reads the names of the failed services out of the failed-unit listing.

use vstd::prelude::*;
use vstd::string::*;
use crate::text::{
    line_texts, picked, str_lines, str_split_whitespace, texts, whitespace_words,
};

verus! {

/// The unit that a line of the listing names: its second word, after the
/// marker. A line with fewer than two words names none.
pub open spec fn unit_of_line(line: Seq<char>) -> Option<Seq<char>> {
    let words = whitespace_words(line);
    if words.len() >= 2 {
        Some(words[1])
    } else {
        None
    }
}

/// The units that the lines of a listing name, in order.
pub open spec fn units_of_lines(lines: Seq<Seq<char>>) -> Seq<Seq<char>> {
    picked(lines, |line: Seq<char>| unit_of_line(line))
}

/// The text of an optional string.
pub open spec fn option_text(s: Option<String>) -> Option<Seq<char>> {
    match s {
        Some(s) => Some(s@),
        None => None,
    }
}

/// The unit named by a line that was split into its words.
pub fn unit_of_words(words: &Vec<String>) -> (unit: Option<String>)
    ensures
        option_text(unit) == if words@.len() >= 2 {
            Some(words@[1]@)
        } else {
            None
        },
{
    if words.len() >= 2 {
        Some(words[1].clone())
    } else {
        None
    }
}

/// The unit named by one line of the listing.
pub fn failed_service_of_line(line: &str) -> (unit: Option<String>)
    ensures
        option_text(unit) == unit_of_line(line@),
{
    let words = str_split_whitespace(line);
    proof {
        let spec_words = whitespace_words(line@);
        assert(texts(words@) == spec_words);
        assert(words@.len() == spec_words.len());
        if words@.len() >= 2 {
            assert(texts(words@)[1] == words@[1]@);
        }
    }
    unit_of_words(&words)
}

/// The units named by the lines of a listing, in order.
pub fn failed_services_of_lines(lines: &Vec<String>) -> (units: Vec<String>)
    ensures
        texts(units@) == units_of_lines(texts(lines@)),
{
    let mut units: Vec<String> = Vec::new();
    let ghost all = texts(lines@);
    let ghost pick = |line: Seq<char>| unit_of_line(line);
    let mut i: usize = 0;
    assert(all.take(0) =~= Seq::<Seq<char>>::empty());
    assert(texts(units@) =~= picked(all.take(0), pick));
    while i < lines.len()
        invariant
            i <= lines.len(),
            all == texts(lines@),
            pick == (|line: Seq<char>| unit_of_line(line)),
            texts(units@) == picked(all.take(i as int), pick),
        decreases lines.len() - i,
    {
        proof {
            assert(all.take(i as int + 1).drop_last() =~= all.take(i as int));
            assert(all.take(i as int + 1).last() == lines@[i as int]@);
        }
        match failed_service_of_line(lines[i].as_str()) {
            Some(unit) => {
                let ghost before = units@;
                units.push(unit);
                assert(texts(units@) =~= texts(before).push(unit@));
            },
            None => {},
        }
        i = i + 1;
    }
    assert(all.take(lines.len() as int) =~= all);
    units
}

/// All failed services, read from the answer to the failed-unit query:
/// `None` where the query could not be made, which gives no service.
pub fn failed_services(output: Option<&str>) -> (units: Vec<String>)
    ensures
        texts(units@) == match output {
            Some(listing) => units_of_lines(line_texts(listing@)),
            None => Seq::<Seq<char>>::empty(),
        },
{
    match output {
        Some(listing) => {
            let lines = str_lines(listing);
            failed_services_of_lines(&lines)
        },
        None => {
            let units: Vec<String> = Vec::new();
            assert(texts(units@) =~= Seq::<Seq<char>>::empty());
            units
        },
    }
}

/// One failed service, for the healing decision: the unit that the first
/// line of the listing names.
pub fn check(output: Option<&str>) -> (unit: Option<String>)
    ensures
        option_text(unit) == match output {
            Some(listing) => if line_texts(listing@).len() > 0 {
                unit_of_line(line_texts(listing@)[0])
            } else {
                None
            },
            None => None,
        },
{
    match output {
        Some(listing) => {
            let lines = str_lines(listing);
            if lines.len() > 0 {
                assert(texts(lines@)[0] == lines@[0]@);
                failed_service_of_line(lines[0].as_str())
            } else {
                None
            }
        },
        None => None,
    }
}

} // verus!
