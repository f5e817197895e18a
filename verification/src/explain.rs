//! Tiered, human-readable explanation blocks.

use vstd::prelude::*;
use vstd::string::*;
use crate::clock::unix_seconds;
use crate::text::{concat2, concat3, decimal, decimal_digits, texts};

verus! {

/// One block of explanation. `level` orders the blocks from the overview
/// (1) to the details.
#[derive(Debug, Clone)]
pub struct ExplainBlock {
    pub level: u8,
    pub title: &'static str,
    pub body: &'static str,
}

/// What an [`ExplainBlock`] says, as plain values.
pub struct ExplainBlockView {
    pub level: u8,
    pub title: Seq<char>,
    pub body: Seq<char>,
}

impl View for ExplainBlock {
    type V = ExplainBlockView;

    open spec fn view(&self) -> ExplainBlockView {
        ExplainBlockView { level: self.level, title: self.title@, body: self.body@ }
    }
}

/// The views of a list of blocks, in order.
pub open spec fn block_views(blocks: Seq<ExplainBlock>) -> Seq<ExplainBlockView> {
    Seq::new(blocks.len(), |i: int| blocks[i]@)
}

/// The blocks of one level, in the order of the list.
pub open spec fn blocks_at_level(blocks: Seq<ExplainBlockView>, level: u8) -> Seq<
    ExplainBlockView,
> {
    blocks.filter(|b: ExplainBlockView| b.level == level)
}

/// Selects the blocks of the wanted level, keeping their order. Printing
/// them is left to the caller.
pub fn explain_at_level(blocks: &Vec<ExplainBlock>, level: u8) -> (selected: Vec<ExplainBlock>)
    ensures
        block_views(selected@) == blocks_at_level(block_views(blocks@), level),
{
    let mut selected: Vec<ExplainBlock> = Vec::new();
    let ghost wanted = |b: ExplainBlockView| b.level == level;
    let mut i: usize = 0;
    proof {
        reveal(Seq::filter);
        assert(block_views(blocks@).take(0) =~= Seq::<ExplainBlockView>::empty());
        assert(block_views(selected@) =~= Seq::<ExplainBlockView>::empty());
    }
    while i < blocks.len()
        invariant
            i <= blocks.len(),
            wanted == (|b: ExplainBlockView| b.level == level),
            block_views(selected@) == block_views(blocks@).take(i as int).filter(wanted),
        decreases blocks.len() - i,
    {
        let block = &blocks[i];
        proof {
            reveal(Seq::filter);
            let all = block_views(blocks@);
            assert(all.take(i as int + 1).drop_last() =~= all.take(i as int));
            assert(all.take(i as int + 1).last() == block@);
        }
        if block.level == level {
            let ghost before = selected@;
            selected.push(ExplainBlock { level: block.level, title: block.title, body: block.body });
            assert(block_views(selected@) =~= block_views(before).push(block@));
        }
        i = i + 1;
    }
    assert(block_views(blocks@).take(blocks.len() as int) =~= block_views(blocks@));
    selected
}

/// A log line: the daemon's tag, the time in seconds in square brackets,
/// and the message.
pub open spec fn note_text(message: Seq<char>, seconds: u64) -> Seq<char> {
    "[voxlinux]["@ + decimal_digits(seconds as nat) + "] "@ + message
}

/// Formats a log line for a message written at the given time.
pub fn note_at(message: &str, seconds: u64) -> (line: String)
    ensures
        line@ == note_text(message@, seconds),
{
    let stamp = decimal(seconds);
    let mut line = concat3("[voxlinux][", stamp.as_str(), "] ");
    line.append(message);
    line
}

/// Formats a log line for a message written now. Printing it is left to
/// the caller.
pub fn note(message: &str) -> (line: String)
    ensures
        exists|seconds: u64| line@ == note_text(message@, seconds),
{
    let seconds = unix_seconds();
    note_at(message, seconds)
}

/// The lines of the report on one remediation.
pub open spec fn report_lines(target: Seq<char>, action: Seq<char>) -> Seq<Seq<char>> {
    seq![
        "================ VoxLinux Report ================"@,
        "Detected failed service : "@ + target,
        "Action taken            : "@ + action,
        "Result                  : completed"@,
        "================================================"@,
    ]
}

/// Formats the report on one remediation, line by line. Printing it is left
/// to the caller.
pub fn report(target: &str, action: &str) -> (lines: Vec<String>)
    ensures
        texts(lines@) == report_lines(target@, action@),
{
    let lines = vec![
        String::from_str("================ VoxLinux Report ================"),
        concat2("Detected failed service : ", target),
        concat2("Action taken            : ", action),
        String::from_str("Result                  : completed"),
        String::from_str("================================================"),
    ];
    assert(texts(lines@) =~= report_lines(target@, action@));
    lines
}

} // verus!
