//! The state of a colour-picking window: it remembers the colour that was
//! current when it opened, to show it beside the new one.

use vstd::prelude::*;
use crate::floating_window::FloatingWindow;
use crate::floating_window::WindowPlacement;
use crate::primitives::Color;

verus! {

/// A floating window in which the user mixes a colour.
#[derive(Debug, PartialEq, Eq)]
pub struct ColorSelector {
    /// The colour at the time the window opened; nothing while closed.
    pub old_color: Option<Color>,
    pub title: String,
    pub window: FloatingWindow,
}

impl ColorSelector {
    /// A selector with its window closed.
    pub fn new(title: &str) -> (r: Self)
        ensures
            r.old_color is None,
            r.title@ == title@,
            r.window.title@ == title@,
            !r.window.is_open,
            r.window.opening_time is None,
    {
        ColorSelector { title: title.to_owned(), window: FloatingWindow::new(title), old_color: None }
    }

    /// The remembered colour once a frame has begun: an open window keeps
    /// the one it has, or takes the current colour.
    pub open spec fn remembered(&self, escape_down: bool, color: Color) -> Option<Color> {
        if self.window.open_in_frame(escape_down) {
            match self.old_color {
                Some(c) => Some(c),
                None => Some(color),
            }
        } else {
            self.old_color
        }
    }

    /// Begins a frame at `now` with `color` the current colour. Says how the
    /// window is shown; a shown window shows `old_color` beside `color`.
    pub fn update(&mut self, escape_down: bool, now: u64, color: Color) -> (r: WindowPlacement)
        ensures
            r == old(self).window.placement(escape_down, now),
            final(self).window.is_open == old(self).window.open_in_frame(escape_down),
            final(self).window.opening_time == old(self).window.opened_at(escape_down, now),
            final(self).window.title == old(self).window.title,
            final(self).title == old(self).title,
            final(self).old_color == old(self).remembered(escape_down, color),
    {
        let placement = self.window.show(escape_down, now);
        if self.window.is_open {
            if self.old_color.is_none() {
                self.old_color = Some(color);
            }
        }
        placement
    }

    /// Ends the frame: a click elsewhere may close the window, and a
    /// closed window forgets the remembered colour.
    pub fn after_update(&mut self, clicked_elsewhere: bool, now: u64)
        ensures
            final(self).window.is_open == (old(self).window.is_open && !(clicked_elsewhere && old(
                self,
            ).window.closes_on_click(now))),
            final(self).window.opening_time == old(self).window.opening_time,
            final(self).window.title == old(self).window.title,
            final(self).title == old(self).title,
            final(self).old_color == (if final(self).window.is_open {
                old(self).old_color
            } else {
                None
            }),
    {
        self.window.after_show(clicked_elsewhere, now);
        if !self.window.is_open {
            self.old_color = None;
        }
    }
}

} // verus!
