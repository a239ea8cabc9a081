//! The state of a floating window that opens centred and closes on escape
//! or on a click elsewhere.

use vstd::prelude::*;

verus! {

/// For this many milliseconds after it opens, a window is held at the
/// centre and a click elsewhere does not close it.
pub const SETTLE_MILLIS: u64 = 100;

/// How the host shows the window in a frame.
#[derive(Clone, Copy, Debug, PartialEq, Eq)]
pub enum WindowPlacement {
    /// Not shown.
    Closed,
    /// Shown, held at the centre of the screen.
    Centered,
    /// Shown where the user has moved it.
    Free,
}

/// Milliseconds from `since` to `now`; zero if the clock went back.
pub open spec fn elapsed(since: u64, now: u64) -> int {
    if now >= since {
        now - since
    } else {
        0
    }
}

/// A window that the host opens by setting `is_open`.
#[derive(Debug, PartialEq, Eq)]
pub struct FloatingWindow {
    pub is_open: bool,
    pub title: String,
    /// When the window was first shown since it opened, on the host's
    /// millisecond clock.
    pub opening_time: Option<u64>,
}

impl FloatingWindow {
    /// A closed window.
    pub fn new(title: &str) -> (r: Self)
        ensures
            !r.is_open,
            r.opening_time is None,
            r.title@ == title@,
    {
        FloatingWindow { is_open: false, opening_time: None, title: title.to_owned() }
    }

    /// Whether the window is open in this frame: escape closes it.
    pub open spec fn open_in_frame(&self, escape_down: bool) -> bool {
        self.is_open && !escape_down
    }

    /// The time from which the window counts as open, once this frame has
    /// begun at `now`.
    pub open spec fn opened_at(&self, escape_down: bool, now: u64) -> Option<u64> {
        if self.open_in_frame(escape_down) {
            match self.opening_time {
                Some(t) => Some(t),
                None => Some(now),
            }
        } else {
            None
        }
    }

    /// How the window is shown in a frame that begins at `now`.
    pub open spec fn placement(&self, escape_down: bool, now: u64) -> WindowPlacement {
        if !self.open_in_frame(escape_down) {
            WindowPlacement::Closed
        } else if elapsed(self.opened_at(escape_down, now)->0, now) < SETTLE_MILLIS {
            WindowPlacement::Centered
        } else {
            WindowPlacement::Free
        }
    }

    /// Begins a frame at `now`. Escape closes the window. An open window
    /// remembers when it was first shown and is held at the centre until
    /// `SETTLE_MILLIS` have passed; a closed one forgets its opening time.
    pub fn show(&mut self, escape_down: bool, now: u64) -> (r: WindowPlacement)
        ensures
            r == old(self).placement(escape_down, now),
            final(self).is_open == old(self).open_in_frame(escape_down),
            final(self).opening_time == old(self).opened_at(escape_down, now),
            final(self).title == old(self).title,
    {
        if escape_down {
            self.is_open = false;
        }
        if self.is_open {
            let opened: u64 = match self.opening_time {
                Some(t) => t,
                None => now,
            };
            self.opening_time = Some(opened);
            let passed: u64 = if now >= opened { now - opened } else { 0 };
            if passed < SETTLE_MILLIS {
                WindowPlacement::Centered
            } else {
                WindowPlacement::Free
            }
        } else {
            self.opening_time = None;
            WindowPlacement::Closed
        }
    }

    /// Whether a click elsewhere at `now` closes the window: it is open and
    /// has been shown for more than `SETTLE_MILLIS`.
    pub open spec fn closes_on_click(&self, now: u64) -> bool {
        self.is_open && self.opening_time is Some && elapsed(self.opening_time->0, now)
            > SETTLE_MILLIS
    }

    /// Ends a frame in which the window was shown: a click elsewhere
    /// closes it, unless it has only just opened.
    pub fn after_show(&mut self, clicked_elsewhere: bool, now: u64)
        ensures
            final(self).is_open == (old(self).is_open && !(clicked_elsewhere && old(
                self,
            ).closes_on_click(now))),
            final(self).opening_time == old(self).opening_time,
            final(self).title == old(self).title,
    {
        if self.is_open && clicked_elsewhere {
            if let Some(opened) = self.opening_time {
                let passed: u64 = if now >= opened { now - opened } else { 0 };
                if passed > SETTLE_MILLIS {
                    self.is_open = false;
                }
            }
        }
    }
}

} // verus!
