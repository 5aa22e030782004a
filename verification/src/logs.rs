//! The kernel log view state: the latest fetched log body, a change marker,
//! the host identity strings captured at startup, and a scroll offset.
//!
//! The surrounding application fetches text from the host (the three `uname`
//! identity queries at startup, the kernel ring buffer on every poll tick)
//! and hands it in as plain strings; everything this module does with the
//! text is verified.

use crate::lines::count_lines;
use crate::lines::extract_first_line;
use crate::lines::first_line;
use crate::lines::line_count;
use vstd::prelude::*;

verus! {

/// A direction for scrolling a viewport. Horizontal directions are
/// recognized but do not move the kernel log view.
pub enum ScrollDirection {
    Up,
    Down,
    Left,
    Right,
}

/// The largest line count of a log body whose scroll arithmetic stays inside
/// `u16`: the wrap bound is twice the line count, and an offset below the
/// wrap bound must still leave room for one step of three.
pub const MAX_LOG_LINES: usize = 32766;

/// Kernel activity log state.
pub struct KernelLogs {
    /// The complete current log body, newest entry first; empty until the
    /// first successful update.
    pub output: String,
    /// The first line of `output` as of the previous successful update; a
    /// cheap change marker, not displayed.
    pub last_line: String,
    /// The host identity strings captured once at construction, consumed in
    /// order from the front.
    pub uname: Vec<String>,
    /// A display string for a consumer to fill in; never set by this module.
    pub version: String,
    /// The vertical scroll position, in lines, stepped in units of three.
    pub scroll_offset: u16,
}

/// Whether an update that fetched `text` reports new activity: the first
/// line of the fetched text differs from the change marker.
pub open spec fn spec_changed(last_line: Seq<char>, text: Seq<char>) -> bool {
    first_line(text) != last_line
}

/// The scroll offset after one scroll step. Up steps down by three but never
/// below three (an offset of one or two is left where it is); Down steps up
/// by three and wraps modulo twice the line count of a non-empty log body,
/// and does nothing on an empty one; other directions do nothing.
pub open spec fn spec_scroll_offset(offset: int, direction: ScrollDirection, output: Seq<char>) -> int {
    match direction {
        ScrollDirection::Up => if offset > 2 {
            offset - 3
        } else {
            offset
        },
        ScrollDirection::Down => if output.len() > 0 {
            (offset + 3) % (2 * (line_count(output) as int))
        } else {
            offset
        },
        _ => offset,
    }
}

/// The scroll offset after `n` scroll steps in the same direction over the
/// same log body.
pub open spec fn spec_scroll_offset_n(
    offset: int,
    direction: ScrollDirection,
    output: Seq<char>,
    n: nat,
) -> int
    decreases n,
{
    if n == 0 {
        offset
    } else {
        spec_scroll_offset(
            spec_scroll_offset_n(offset, direction, output, (n - 1) as nat),
            direction,
            output,
        )
    }
}

impl KernelLogs {
    /// The machine bounds that keep the scroll arithmetic inside `u16`:
    /// established by `new` and preserved by every method.
    pub open spec fn wf(&self) -> bool {
        &&& self.scroll_offset <= u16::MAX - 3
        &&& self.output@.len() > 0 ==> line_count(self.output@) <= MAX_LOG_LINES as nat
    }

    /// Create the log state with the three host identity strings, captured
    /// in their fixed order: kernel name/release/machine, kernel build
    /// version, platform info. The log body, the change marker and the
    /// version string start empty; the scroll offset starts at zero.
    pub fn new(identity: String, build_version: String, platform: String) -> (logs: Self)
        ensures
            logs.output@.len() == 0,
            logs.last_line@.len() == 0,
            logs.uname@ == seq![identity, build_version, platform],
            logs.version@.len() == 0,
            logs.scroll_offset == 0,
            logs.wf(),
    {
        let mut uname: Vec<String> = Vec::new();
        uname.push(identity);
        uname.push(build_version);
        uname.push(platform);
        proof {
            assert(uname@ =~= seq![identity, build_version, platform]);
        }
        KernelLogs {
            output: String::new(),
            last_line: String::new(),
            uname,
            version: String::new(),
            scroll_offset: 0,
        }
    }

    /// Pop the next host identity string. The identity sequence is one-shot:
    /// it yields the three captured strings in order, then nothing.
    pub fn next_uname(&mut self) -> (item: Option<String>)
        ensures
            old(self).uname@.len() == 0 ==> item is None && *final(self) == *old(self),
            old(self).uname@.len() > 0 ==> {
                &&& item == Some(old(self).uname@[0])
                &&& final(self).uname@ == old(self).uname@.drop_first()
            },
            final(self).output == old(self).output,
            final(self).last_line == old(self).last_line,
            final(self).version == old(self).version,
            final(self).scroll_offset == old(self).scroll_offset,
    {
        if self.uname.len() > 0 {
            let item = self.uname.remove(0);
            proof {
                assert(self.uname@ =~= old(self).uname@.drop_first());
            }
            Some(item)
        } else {
            None
        }
    }

    /// Replace the log body with freshly fetched text and report whether it
    /// brought new activity: true exactly when the first line of `text`
    /// differs from the change marker, which afterwards equals that first
    /// line whatever the comparison found.
    pub fn update(&mut self, text: String) -> (changed: bool)
        requires
            text@.len() > 0,
            line_count(text@) <= MAX_LOG_LINES as nat,
            old(self).scroll_offset <= u16::MAX - 3,
        ensures
            final(self).output == text,
            final(self).last_line@ == first_line(text@),
            changed == spec_changed(old(self).last_line@, text@),
            final(self).uname == old(self).uname,
            final(self).version == old(self).version,
            final(self).scroll_offset == old(self).scroll_offset,
            final(self).wf(),
    {
        self.output = text;
        let fresh = extract_first_line(self.output.as_str());
        let changed = !(fresh == self.last_line);
        self.last_line = fresh;
        changed
    }

    /// Scroll the log view one step. Up steps the offset down by three but
    /// never below three; Down steps it up by three, wrapping modulo twice
    /// the line count of a non-empty log body, and does nothing on an empty
    /// one; horizontal directions do nothing.
    pub fn scroll(&mut self, direction: ScrollDirection)
        requires
            old(self).wf(),
        ensures
            final(self).scroll_offset == spec_scroll_offset(
                old(self).scroll_offset as int,
                direction,
                old(self).output@,
            ),
            direction is Down && old(self).output@.len() > 0 ==> final(self).scroll_offset < 2 * (
            line_count(old(self).output@) as int),
            final(self).output == old(self).output,
            final(self).last_line == old(self).last_line,
            final(self).uname == old(self).uname,
            final(self).version == old(self).version,
            final(self).wf(),
    {
        match direction {
            ScrollDirection::Up => {
                if self.scroll_offset > 2 {
                    self.scroll_offset = self.scroll_offset - 3;
                }
            },
            ScrollDirection::Down => {
                if !self.output.as_str().is_empty() {
                    let lc: usize = count_lines(self.output.as_str());
                    let bound: u16 = (lc as u16) * 2;
                    self.scroll_offset = (self.scroll_offset + 3) % bound;
                }
            },
            _ => {},
        }
    }
}

/// A first update whose fetched text opens with a non-empty line reports a
/// change, because the change marker starts empty; and the fetched text has
/// at least one line.
pub proof fn lemma_first_update_reports_change(last_line: Seq<char>, text: Seq<char>)
    requires
        last_line.len() == 0,
        text.len() > 0,
        first_line(text).len() > 0,
    ensures
        spec_changed(last_line, text),
        line_count(text) >= 1,
{
}

/// Updating twice with the same text detects no change the second time: the
/// first update leaves the change marker equal to the text's first line, so
/// the second comparison finds them equal and leaves the marker as it was.
pub proof fn lemma_repeat_update_no_change(text: Seq<char>)
    ensures
        !spec_changed(first_line(text), text),
{
}

/// From offset zero, any number of Up scrolls leaves the offset at zero: the
/// step down is taken only above two.
pub proof fn lemma_up_scroll_clamped_at_zero(output: Seq<char>, n: nat)
    ensures
        spec_scroll_offset_n(0, ScrollDirection::Up, output, n) == 0,
    decreases n,
{
    if n > 0 {
        lemma_up_scroll_clamped_at_zero(output, (n - 1) as nat);
    }
}

/// On a non-empty log body, any positive number of Down scrolls from any
/// non-negative starting offset lands the offset within `[0, 2 * lines)`.
pub proof fn lemma_down_scroll_in_bound(offset: int, output: Seq<char>, n: nat)
    requires
        offset >= 0,
        output.len() > 0,
        n >= 1,
    ensures
        0 <= spec_scroll_offset_n(offset, ScrollDirection::Down, output, n) < 2 * (
        line_count(output) as int),
    decreases n,
{
    if n > 1 {
        lemma_down_scroll_in_bound(offset, output, (n - 1) as nat);
    }
}

/// On an empty log body, Down scrolls never move the offset, however many
/// are taken.
pub proof fn lemma_down_scroll_empty_noop(offset: int, output: Seq<char>, n: nat)
    requires
        output.len() == 0,
    ensures
        spec_scroll_offset_n(offset, ScrollDirection::Down, output, n) == offset,
    decreases n,
{
    if n > 0 {
        lemma_down_scroll_empty_noop(offset, output, (n - 1) as nat);
    }
}

/// The identity sequence captured by `new` is exhausted by exactly three
/// reads, in capture order: each read pops the front, and after the third
/// nothing is left.
pub proof fn lemma_identity_sequence_exhausts(a: String, b: String, c: String)
    ensures
        seq![a, b, c][0] == a,
        seq![a, b, c].drop_first() =~= seq![b, c],
        seq![b, c][0] == b,
        seq![b, c].drop_first() =~= seq![c],
        seq![c][0] == c,
        seq![c].drop_first().len() == 0,
{
}

} // verus!
