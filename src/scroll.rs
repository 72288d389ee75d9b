//! Scroll position of a text panel that shows `lines` lines through a window
//! `height` lines tall.
use vstd::prelude::*;

verus! {

/// Requests that move a panel's scroll position.
#[derive(Debug, Clone, Copy, PartialEq, Eq)]
pub enum ScrollEvent {
    ScrollDown,
    ScrollUp,
    ScrollDownHalfPage,
    ScrollUpHalfPage,
    ScrollDownPage,
    ScrollUpPage,
}

/// The largest first line a panel of `lines` lines may show.
pub open spec fn max_first_line(lines: u16) -> int {
    if lines == 0 {
        0
    } else {
        lines - 1
    }
}

/// `x` limited to the range `lo..=hi`.
pub open spec fn clamp(x: int, lo: int, hi: int) -> int {
    if x < lo {
        lo
    } else if x > hi {
        hi
    } else {
        x
    }
}

/// How far `event` moves the first shown line, given the window height.
pub open spec fn event_delta(event: ScrollEvent, height: u16) -> int {
    match event {
        ScrollEvent::ScrollDown => 1,
        ScrollEvent::ScrollUp => -1,
        ScrollEvent::ScrollDownHalfPage => height as int / 2,
        ScrollEvent::ScrollUpHalfPage => -(height as int / 2),
        ScrollEvent::ScrollDownPage => height as int,
        ScrollEvent::ScrollUpPage => -(height as int),
    }
}

#[derive(Debug)]
pub struct ScrollState {
    /// First line shown.
    pub scroll: u16,
    /// Height of the window, in lines.
    pub height: u16,
    /// Number of lines of the content, after wrapping.
    pub lines: u16,
}

impl ScrollState {
    /// At the top, with nothing laid out yet.
    pub fn new() -> (r: ScrollState)
        ensures
            r.scroll == 0 && r.height == 0 && r.lines == 0,
    {
        ScrollState { scroll: 0, height: 0, lines: 0 }
    }

    /// Record the window height and the content's line count of the latest layout.
    pub fn set_layout(&mut self, height: u16, lines: u16)
        ensures
            final(self).height == height,
            final(self).lines == lines,
            final(self).scroll == old(self).scroll,
    {
        self.height = height;
        self.lines = lines;
    }

    /// The first line to show: the scroll position, kept within the content.
    pub fn first_shown_line(&self) -> (r: u16)
        ensures
            r == if self.scroll <= max_first_line(self.lines) { self.scroll as int } else { max_first_line(self.lines) },
    {
        let last = if self.lines == 0 { 0 } else { self.lines - 1 };
        if self.scroll <= last { self.scroll } else { last }
    }

    /// Show line `line_no` first, or the last line if the content is shorter.
    pub fn scroll_to(&mut self, line_no: u16)
        ensures
            final(self).scroll == clamp(line_no as int, 0, max_first_line(old(self).lines)),
            final(self).height == old(self).height,
            final(self).lines == old(self).lines,
    {
        let last = if self.lines == 0 { 0 } else { self.lines - 1 };
        self.scroll = if line_no <= last { line_no } else { last };
    }

    /// Move the first shown line by `delta`, staying within the content.
    pub fn scroll(&mut self, delta: i32)
        ensures
            final(self).scroll == clamp(
                clamp(old(self).scroll + delta, 0, u16::MAX as int),
                0,
                max_first_line(old(self).lines),
            ),
            final(self).height == old(self).height,
            final(self).lines == old(self).lines,
    {
        let target: i64 = self.scroll as i64 + delta as i64;
        let line_no: u16 = if target < 0 {
            0
        } else if target > u16::MAX as i64 {
            u16::MAX
        } else {
            target as u16
        };
        self.scroll_to(line_no);
    }

    /// Apply a scroll request.
    pub fn handle_event(&mut self, event: ScrollEvent)
        ensures
            final(self).scroll == clamp(
                clamp(old(self).scroll + event_delta(event, old(self).height), 0, u16::MAX as int),
                0,
                max_first_line(old(self).lines),
            ),
            final(self).height == old(self).height,
            final(self).lines == old(self).lines,
    {
        let half: i32 = (self.height / 2) as i32;
        let page: i32 = self.height as i32;
        match event {
            ScrollEvent::ScrollDown => self.scroll(1),
            ScrollEvent::ScrollUp => self.scroll(-1),
            ScrollEvent::ScrollDownHalfPage => self.scroll(half),
            ScrollEvent::ScrollUpHalfPage => self.scroll(-half),
            ScrollEvent::ScrollDownPage => self.scroll(page),
            ScrollEvent::ScrollUpPage => self.scroll(-page),
        }
    }

    /// Whether the content is taller than a window of `height` lines.
    pub fn overflows(&self, height: u16) -> (r: bool)
        ensures
            r == (self.lines > height),
    {
        self.lines > height
    }
}

/// The last of the lines up to and including line `first_shown` that starts
/// with a letter, if any: the heading of the section the window is in.
pub fn heading_line(starts_with_letter: &Vec<bool>, first_shown: usize) -> (r: Option<usize>)
    ensures
        r is None ==> forall|i: int|
            0 <= i <= first_shown && i < starts_with_letter@.len() ==> !starts_with_letter@[i],
        r matches Some(k) ==> k <= first_shown && k < starts_with_letter@.len()
            && starts_with_letter@[k as int] && forall|i: int|
            k < i <= first_shown && i < starts_with_letter@.len() ==> !starts_with_letter@[i],
{
    let n = starts_with_letter.len();
    let end: usize = if first_shown < n { first_shown + 1 } else { n };
    let mut i: usize = end;
    while i > 0
        invariant
            i <= end <= n,
            n == starts_with_letter@.len(),
            end == if first_shown < n { first_shown + 1 } else { n as int },
            forall|j: int| i <= j < end ==> !starts_with_letter@[j],
        decreases i,
    {
        if starts_with_letter[i - 1] {
            return Some(i - 1);
        }
        i = i - 1;
    }
    None
}

} // verus!
