//! Raw observations: failed units as scanned, and the boot phase as probed.

use vstd::prelude::*;
use vstd::string::*;
use crate::state::BootContext;
use crate::text::{
    line_texts, picked, str_eq, str_lines, str_split_whitespace, texts, whitespace_words,
};

verus! {

/// One failed unit as the unit scan reports it.
#[derive(Debug)]
pub struct RawDetection {
    pub unit: String,
    pub status: String,
}

/// What a [`RawDetection`] says, as plain values.
pub struct RawDetectionView {
    pub unit: Seq<char>,
    pub status: Seq<char>,
}

impl View for RawDetection {
    type V = RawDetectionView;

    open spec fn view(&self) -> RawDetectionView {
        RawDetectionView { unit: self.unit@, status: self.status@ }
    }
}

/// The views of a list of detections, in order.
pub open spec fn detection_views(detections: Seq<RawDetection>) -> Seq<RawDetectionView> {
    Seq::new(detections.len(), |i: int| detections[i]@)
}

/// What the boot probes found.
#[derive(Debug)]
pub struct BootProbes {
    /// The initramfs run directory exists.
    pub in_initramfs: bool,
    /// Process 1 is the service manager.
    pub pid1_is_systemd: bool,
    /// The rescue target is active.
    pub rescue_target_active: bool,
    /// The run state that the service manager reports, if it answered.
    pub systemd_state: Option<String>,
    /// The graphical target is active.
    pub graphical_target_active: bool,
}

/// The boot phase that a run state of the service manager stands for, given
/// whether the graphical target is active.
pub open spec fn context_of_run_state(run_state: Seq<char>, graphical: bool) -> BootContext {
    if run_state == "initializing"@ || run_state == "starting"@ {
        BootContext::EarlyUserspace
    } else if run_state == "running"@ || run_state == "degraded"@ {
        if graphical {
            BootContext::Graphical
        } else {
            BootContext::MultiUser
        }
    } else {
        BootContext::Unknown
    }
}

/// The boot phase that the probes stand for. The initramfs comes first, then
/// a foreign process 1, then the rescue target, then the run state.
pub open spec fn boot_context_of(probes: BootProbes) -> BootContext {
    if probes.in_initramfs {
        BootContext::EarlyBoot
    } else if !probes.pid1_is_systemd {
        BootContext::Unknown
    } else if probes.rescue_target_active {
        BootContext::Rescue
    } else {
        match probes.systemd_state {
            Some(run_state) => context_of_run_state(run_state@, probes.graphical_target_active),
            None => BootContext::Unknown,
        }
    }
}

/// Decides the boot phase from what the probes found.
pub fn detect_boot_context(probes: &BootProbes) -> (context: BootContext)
    ensures
        context == boot_context_of(*probes),
{
    if probes.in_initramfs {
        return BootContext::EarlyBoot;
    }
    if !probes.pid1_is_systemd {
        return BootContext::Unknown;
    }
    if probes.rescue_target_active {
        return BootContext::Rescue;
    }
    match &probes.systemd_state {
        Some(run_state) => {
            let run_state = run_state.as_str();
            if str_eq(run_state, "initializing") || str_eq(run_state, "starting") {
                BootContext::EarlyUserspace
            } else if str_eq(run_state, "running") || str_eq(run_state, "degraded") {
                if probes.graphical_target_active {
                    BootContext::Graphical
                } else {
                    BootContext::MultiUser
                }
            } else {
                BootContext::Unknown
            }
        },
        None => BootContext::Unknown,
    }
}

/// The detection that the words of a listing line stand for. A line has the
/// marker, the unit, and the load, active and sub states; the status joins
/// the three states with slashes. Fewer than five words give no detection.
pub open spec fn detection_of_words(words: Seq<Seq<char>>) -> Option<RawDetectionView> {
    if words.len() >= 5 {
        Some(
            RawDetectionView {
                unit: words[1],
                status: words[2] + "/"@ + words[3] + "/"@ + words[4],
            },
        )
    } else {
        None
    }
}

/// The detection that a line of the failed-unit listing stands for.
pub open spec fn detection_of_line(line: Seq<char>) -> Option<RawDetectionView> {
    detection_of_words(whitespace_words(line))
}

/// The detections that the lines of a listing stand for, in order.
pub open spec fn detections_of_lines(lines: Seq<Seq<char>>) -> Seq<RawDetectionView> {
    picked(lines, |line: Seq<char>| detection_of_line(line))
}

/// The view of an optional detection.
pub open spec fn option_detection_view(detection: Option<RawDetection>) -> Option<
    RawDetectionView,
> {
    match detection {
        Some(d) => Some(d@),
        None => None,
    }
}

/// Reads a detection from a listing line that was split into its words.
pub fn parse_scan_words(words: &Vec<String>) -> (detection: Option<RawDetection>)
    ensures
        option_detection_view(detection) == detection_of_words(texts(words@)),
{
    if words.len() < 5 {
        return None;
    }
    let mut status = words[2].clone();
    status.append("/");
    status.append(words[3].as_str());
    status.append("/");
    status.append(words[4].as_str());
    Some(RawDetection { unit: words[1].clone(), status })
}

/// Reads a detection from one line of the failed-unit listing.
pub fn parse_scan_line(line: &str) -> (detection: Option<RawDetection>)
    ensures
        option_detection_view(detection) == detection_of_line(line@),
{
    let words = str_split_whitespace(line);
    parse_scan_words(&words)
}

/// Reads the detections from the lines of a listing, in order.
pub fn scan_lines(lines: &Vec<String>) -> (detections: Vec<RawDetection>)
    ensures
        detection_views(detections@) == detections_of_lines(texts(lines@)),
{
    let mut detections: Vec<RawDetection> = Vec::new();
    let ghost all = texts(lines@);
    let ghost pick = |line: Seq<char>| detection_of_line(line);
    let mut i: usize = 0;
    assert(all.take(0) =~= Seq::<Seq<char>>::empty());
    assert(detection_views(detections@) =~= picked(all.take(0), pick));
    while i < lines.len()
        invariant
            i <= lines.len(),
            all == texts(lines@),
            pick == (|line: Seq<char>| detection_of_line(line)),
            detection_views(detections@) == picked(all.take(i as int), pick),
        decreases lines.len() - i,
    {
        proof {
            assert(all.take(i as int + 1).drop_last() =~= all.take(i as int));
            assert(all.take(i as int + 1).last() == lines@[i as int]@);
        }
        match parse_scan_line(lines[i].as_str()) {
            Some(detection) => {
                let ghost before = detections@;
                detections.push(detection);
                assert(detection_views(detections@) =~= detection_views(before).push(detection@));
            },
            None => {},
        }
        i = i + 1;
    }
    assert(all.take(lines.len() as int) =~= all);
    detections
}

/// The detections that the answer of the unit scan stands for: those of the
/// lines of the listing, and none where the scan gave no listing.
pub open spec fn scanned(output: Option<Seq<char>>) -> Seq<RawDetectionView> {
    match output {
        Some(listing) => detections_of_lines(line_texts(listing)),
        None => Seq::empty(),
    }
}

/// Reads the failed units out of the answer of the unit scan: `None` where
/// the scan could not be made, else the listing that it printed. A listing
/// gives one detection for each line that has all five columns. A scan that
/// could not be made gives no detection: nothing is made up, and the caller
/// goes on.
pub fn scan(output: Option<&str>) -> (detections: Vec<RawDetection>)
    ensures
        detection_views(detections@) == scanned(
            match output {
                Some(listing) => Some(listing@),
                None => None,
            },
        ),
        output is None ==> detections@.len() == 0,
{
    match output {
        Some(listing) => {
            let lines = str_lines(listing);
            scan_lines(&lines)
        },
        None => {
            let detections: Vec<RawDetection> = Vec::new();
            assert(detection_views(detections@) =~= Seq::<RawDetectionView>::empty());
            detections
        },
    }
}

} // verus!
