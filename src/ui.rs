//! View-side state that does not depend on any rendering library: the tab
//! bar and the busy indicator.

use vstd::prelude::*;
use crate::text::{owned, push_str};

verus! {

/// The main tabs, in display order.
#[derive(Debug, Clone, Copy, PartialEq, Eq, Structural)]
pub enum Tab {
    Connection,
    SchemaDiff,
    DataSync,
    TableBrowser,
}

impl Tab {
    /// The position of a tab in the bar.
    pub open spec fn index_spec(self) -> nat {
        match self {
            Tab::Connection => 0,
            Tab::SchemaDiff => 1,
            Tab::DataSync => 2,
            Tab::TableBrowser => 3,
        }
    }

    /// The tab at a position; any position past the last gives the first.
    pub open spec fn from_index_spec(index: nat) -> Tab {
        if index == 1 {
            Tab::SchemaDiff
        } else if index == 2 {
            Tab::DataSync
        } else if index == 3 {
            Tab::TableBrowser
        } else {
            Tab::Connection
        }
    }

    /// The titles shown in the tab bar, in order.
    pub fn titles() -> (r: Vec<&'static str>)
        ensures
            r@.len() == 4,
            r@[0]@ == "F1 Connections"@,
            r@[1]@ == "F2 Schema Diff"@,
            r@[2]@ == "F3 Data Sync"@,
            r@[3]@ == "F4 Browser"@,
    {
        vec!["F1 Connections", "F2 Schema Diff", "F3 Data Sync", "F4 Browser"]
    }

    /// The position of this tab in the bar.
    pub fn index(&self) -> (r: usize)
        ensures
            r as nat == self.index_spec(),
    {
        match self {
            Tab::Connection => 0,
            Tab::SchemaDiff => 1,
            Tab::DataSync => 2,
            Tab::TableBrowser => 3,
        }
    }

    /// The tab at a position; any position past the last gives the first.
    pub fn from_index(index: usize) -> (r: Tab)
        ensures
            r == Self::from_index_spec(index as nat),
    {
        if index == 1 {
            Tab::SchemaDiff
        } else if index == 2 {
            Tab::DataSync
        } else if index == 3 {
            Tab::TableBrowser
        } else {
            Tab::Connection
        }
    }

    /// The tab to the right, wrapping round.
    pub fn next(&self) -> (r: Tab)
        ensures
            r.index_spec() == (self.index_spec() + 1) % 4,
    {
        Tab::from_index((self.index() + 1) % 4)
    }

    /// The tab to the left, wrapping round.
    pub fn prev(&self) -> (r: Tab)
        ensures
            r.index_spec() == (self.index_spec() + 3) % 4,
    {
        Tab::from_index((self.index() + 3) % 4)
    }
}

/// The animation of the busy indicator.
#[derive(Debug, Clone, Copy, PartialEq, Eq, Structural)]
pub enum SpinnerStyle {
    Block,
    Bar,
    Dots,
    Grow,
}

impl SpinnerStyle {
    /// The number of frames of each animation.
    pub open spec fn frame_count(self) -> nat {
        match self {
            SpinnerStyle::Block => 16,
            SpinnerStyle::Bar => 15,
            SpinnerStyle::Dots => 10,
            SpinnerStyle::Grow => 14,
        }
    }

    /// The frames of each animation, in order.
    pub open spec fn frames_spec(self) -> Seq<&'static str> {
        match self {
            SpinnerStyle::Block => seq![
                "▏", "▎", "▍", "▌", "▋", "▊", "▉", "█", "▉", "▊", "▋", "▌", "▍", "▎", "▏", " ",
            ],
            SpinnerStyle::Bar => seq![
                "[■□□□□□□□]",
                "[□■□□□□□□]",
                "[□□■□□□□□]",
                "[□□□■□□□□]",
                "[□□□□■□□□]",
                "[□□□□□■□□]",
                "[□□□□□□■□]",
                "[□□□□□□□■]",
                "[□□□□□□■□]",
                "[□□□□□■□□]",
                "[□□□□■□□□]",
                "[□□□□□□□□]",
                "[□□□■□□□□]",
                "[□□■□□□□□]",
                "[□■□□□□□□]",
            ],
            SpinnerStyle::Dots => seq!["⠋", "⠙", "⠹", "⠸", "⠼", "⠴", "⠦", "⠧", "⠇", "⠏"],
            SpinnerStyle::Grow => seq![
                "▁", "▂", "▃", "▄", "▅", "▆", "▇", "█", "▇", "▆", "▅", "▄", "▃", "▂",
            ],
        }
    }

    /// The frames of the animation, in order.
    pub fn frames(&self) -> (r: Vec<&'static str>)
        ensures
            r@ == self.frames_spec(),
            r@.len() == self.frame_count(),
    {
        match self {
            SpinnerStyle::Block => vec![
                "▏", "▎", "▍", "▌", "▋", "▊", "▉", "█", "▉", "▊", "▋", "▌", "▍", "▎", "▏", " ",
            ],
            SpinnerStyle::Bar => vec![
                "[■□□□□□□□]",
                "[□■□□□□□□]",
                "[□□■□□□□□]",
                "[□□□■□□□□]",
                "[□□□□■□□□]",
                "[□□□□□■□□]",
                "[□□□□□□■□]",
                "[□□□□□□□■]",
                "[□□□□□□■□]",
                "[□□□□□■□□]",
                "[□□□□■□□□]",
                "[□□□□□□□□]",
                "[□□□■□□□□]",
                "[□□■□□□□□]",
                "[□■□□□□□□]",
            ],
            SpinnerStyle::Dots => vec!["⠋", "⠙", "⠹", "⠸", "⠼", "⠴", "⠦", "⠧", "⠇", "⠏"],
            SpinnerStyle::Grow => vec![
                "▁", "▂", "▃", "▄", "▅", "▆", "▇", "█", "▇", "▆", "▅", "▄", "▃", "▂",
            ],
        }
    }
}

/// The busy indicator shown while an operation is in flight. Time is given
/// in milliseconds on any clock that does not go backwards.
#[derive(Debug, Clone)]
pub struct Spinner {
    pub active: bool,
    pub message: String,
    pub style: SpinnerStyle,
    /// The frame shown, counted from the start of the animation.
    pub frame_index: usize,
    /// When the frame last advanced.
    pub last_update_ms: u64,
    /// How long each frame is shown.
    pub frame_duration_ms: u64,
}

impl Spinner {
    /// An idle indicator with the given animation, at frame 0, 80 ms a frame.
    pub fn new(style: SpinnerStyle) -> (r: Spinner)
        ensures
            !r.active,
            r.message@.len() == 0,
            r.style == style,
            r.frame_index as nat == 0,
            r.frame_duration_ms == 80,
    {
        Spinner {
            active: false,
            message: String::new(),
            style,
            frame_index: 0,
            last_update_ms: 0,
            frame_duration_ms: 80,
        }
    }

    /// Starts the indicator at time `now_ms` with a message.
    pub fn start(&mut self, message: &str, now_ms: u64)
        ensures
            final(self).active,
            final(self).message@ == message@,
            final(self).style == old(self).style,
            final(self).frame_index as nat == 0,
            final(self).last_update_ms == now_ms,
            final(self).frame_duration_ms == old(self).frame_duration_ms,
    {
        self.active = true;
        self.message = owned(message);
        self.frame_index = 0;
        self.last_update_ms = now_ms;
    }

    /// Stops the indicator and clears its message.
    pub fn stop(&mut self)
        ensures
            !final(self).active,
            final(self).message@.len() == 0,
            final(self).style == old(self).style,
            final(self).frame_index as nat == old(self).frame_index as nat,
            final(self).last_update_ms == old(self).last_update_ms,
            final(self).frame_duration_ms == old(self).frame_duration_ms,
    {
        self.active = false;
        self.message = String::new();
    }

    /// Advances the animation at time `now_ms` where a frame's time has
    /// passed since the last advance; nothing changes while idle.
    pub fn tick(&mut self, now_ms: u64)
        ensures
            final(self).active == old(self).active,
            final(self).message == old(self).message,
            final(self).style == old(self).style,
            final(self).frame_duration_ms == old(self).frame_duration_ms,
            if old(self).active && now_ms >= old(self).last_update_ms
                && now_ms - old(self).last_update_ms >= old(self).frame_duration_ms {
                &&& final(self).frame_index as nat == (old(self).frame_index as nat + 1)
                    % old(self).style.frame_count()
                &&& final(self).last_update_ms == now_ms
            } else {
                &&& final(self).frame_index as nat == old(self).frame_index as nat
                &&& final(self).last_update_ms == old(self).last_update_ms
            },
    {
        if !self.active {
            return;
        }
        if now_ms >= self.last_update_ms && now_ms - self.last_update_ms >= self.frame_duration_ms {
            let count = self.style.frames().len();
            self.frame_index = crate::views::wrap_next(self.frame_index, count);
            self.last_update_ms = now_ms;
        }
    }

    /// The frame shown now.
    pub fn frame(&self) -> (r: &'static str)
        ensures
            r@ == self.style.frames_spec()[(self.frame_index as nat % self.style.frame_count()) as int]@,
    {
        let frames = self.style.frames();
        frames[self.frame_index % frames.len()]
    }

    /// The frame and the message, or nothing while idle.
    pub fn display(&self) -> (r: String)
        ensures
            !self.active ==> r@.len() == 0,
            self.active ==> r@ == self.style.frames_spec()[(self.frame_index as nat
                % self.style.frame_count()) as int]@ + " "@ + self.message@,
    {
        if !self.active {
            return String::new();
        }
        let mut s = owned(self.frame());
        push_str(&mut s, " ");
        push_str(&mut s, self.message.as_str());
        s
    }
}

impl Default for Spinner {
    fn default() -> (r: Spinner)
        ensures
            !r.active,
            r.message@.len() == 0,
            r.style == SpinnerStyle::Bar,
            r.frame_index as nat == 0,
            r.frame_duration_ms == 80,
    {
        Spinner::new(SpinnerStyle::Bar)
    }
}

} // verus!
