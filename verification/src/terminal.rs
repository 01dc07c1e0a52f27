//! What setting up and restoring the terminal does, decided from the
//! drawing settings; the terminal calls themselves are made around this crate.

use vstd::prelude::*;
use crate::model::ModelInit;

verus! {

/// The part of the screen the interface draws in.
#[derive(Debug, Clone, Copy, PartialEq, Eq, Structural)]
pub enum ViewportKind {
    /// The given number of rows below the shell prompt.
    Inline(u16),
    /// The whole screen.
    Fullscreen,
}

/// How the terminal is set up.
#[derive(Debug, Clone, Copy, PartialEq, Eq, Structural)]
pub struct TerminalPlan {
    /// Whether to switch to the alternate screen (and back on restore).
    pub alternate_screen: bool,
    pub viewport: ViewportKind,
}

/// The setup for the given drawing settings and inline height: full-screen
/// drawing uses the alternate screen and the whole screen; inline drawing
/// uses `height` rows in the normal screen.
pub fn terminal_plan(init: &ModelInit, height: u16) -> (r: TerminalPlan)
    ensures
        r.alternate_screen == !init.inline_view(),
        r.viewport == (if init.inline_view() {
            ViewportKind::Inline(height)
        } else {
            ViewportKind::Fullscreen
        }),
{
    if init.inline_mode() {
        TerminalPlan { alternate_screen: false, viewport: ViewportKind::Inline(height) }
    } else {
        TerminalPlan { alternate_screen: true, viewport: ViewportKind::Fullscreen }
    }
}

/// Where inline output must start so that `height` rows and the prompt line
/// fit at the bottom of a window of `window_rows` rows: `Some(row)` when the
/// cursor, at `start_row`, is above that row and must move down to it;
/// `None` when it may stay.
pub fn bottom_aligned_row(window_rows: u16, start_row: u16, height: u16) -> (r: Option<u16>)
    ensures
        ({
            let needed = if height == u16::MAX { u16::MAX as int } else { height + 1 };
            let expected = if window_rows >= needed { window_rows - needed } else { 0 };
            &&& start_row < expected ==> r == Some(expected as u16)
            &&& start_row >= expected ==> r is None
        }),
{
    let expected = window_rows.saturating_sub(height.saturating_add(1));
    if start_row < expected {
        Some(expected)
    } else {
        None
    }
}

/// The row from which an inline interface of `height` rows is cleared when
/// the terminal is restored, in a window of `window_rows` rows.
pub fn restore_clear_row(window_rows: u16, height: u16) -> (r: u16)
    ensures
        r == (if window_rows >= height { window_rows - height } else { 0 }),
{
    window_rows.saturating_sub(height)
}

/// Keeps the drawing settings the terminal was set up with, so that it can
/// be restored the same way.
#[derive(Debug)]
pub struct TerminalGuard {
    init: ModelInit,
}

impl TerminalGuard {
    /// The settings the terminal was set up with.
    pub closed spec fn init_view(&self) -> ModelInit {
        self.init
    }

    /// A guard for a terminal set up with `init`.
    pub fn new(init: &ModelInit) -> (r: TerminalGuard)
        ensures
            r.init_view() == *init,
    {
        TerminalGuard { init: *init }
    }

    /// Whether restoring leaves the alternate screen: only full-screen
    /// drawing entered it.
    pub fn leaves_alternate_screen(&self) -> (b: bool)
        ensures
            b == !self.init_view().inline_view(),
    {
        !self.init.inline_mode()
    }
}

} // verus!
