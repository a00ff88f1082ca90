//! The values that the overlay edits.

use crate::color::PackedColor;
use crate::viewport::Size;
use vstd::prelude::*;

verus! {

/// Largest blur-kernel size that the overlay accepts.
pub const MAX_BLUR_KERNEL: u8 = 120;

/// What the event loop tells the application about an event on a window.
#[derive(Clone, Copy, Debug, PartialEq, Eq, Structural)]
pub enum WindowEvent {
    /// The user asked for the window to be closed.
    CloseRequested,
    /// The window has taken a new size.
    Resized(Size),
    /// Any other event: input, focus, movement and the like.
    Other,
}

/// What the overlay's controls report after one pass over them.
#[derive(Clone, Copy, Debug, PartialEq, Eq, Structural)]
pub struct UiEdits {
    /// The colour picked for the triangle, if its picker was changed.
    pub triangle_color: Option<PackedColor>,
    /// The colour picked for the background, if its picker was changed.
    pub bg_color: Option<PackedColor>,
    /// The blur-kernel size that was dragged or typed, if any was.
    pub blur_kernel: Option<i64>,
}

/// The state that the user can adjust.
#[derive(Clone, Copy, Debug, PartialEq, Eq, Structural)]
pub struct App {
    pub bg_color: PackedColor,
    pub triangle_color: PackedColor,
    pub blur_kernel: u8,
}

/// The value in `0..=MAX_BLUR_KERNEL` that is nearest to `attempted`.
pub open spec fn clamped_blur_kernel(attempted: int) -> int {
    if attempted < 0 {
        0
    } else if attempted > MAX_BLUR_KERNEL {
        MAX_BLUR_KERNEL as int
    } else {
        attempted
    }
}

/// Brings an attempted blur-kernel size into `0..=MAX_BLUR_KERNEL`.
pub fn clamp_blur_kernel(attempted: i64) -> (size: u8)
    ensures
        size == clamped_blur_kernel(attempted as int),
        attempted < 0 ==> size == 0,
        attempted > MAX_BLUR_KERNEL ==> size == MAX_BLUR_KERNEL,
        0 <= attempted <= MAX_BLUR_KERNEL ==> size == attempted,
{
    if attempted < 0 {
        0
    } else if attempted > MAX_BLUR_KERNEL as i64 {
        MAX_BLUR_KERNEL
    } else {
        attempted as u8
    }
}

/// Clamping yields a value within the bounds, and no value within the bounds is
/// nearer to the attempted one.
pub proof fn lemma_clamp_is_nearest(attempted: int, other: int)
    requires
        0 <= other <= MAX_BLUR_KERNEL,
    ensures
        0 <= clamped_blur_kernel(attempted) <= MAX_BLUR_KERNEL,
        vstd::math::abs(attempted - clamped_blur_kernel(attempted)) <= vstd::math::abs(
            attempted - other,
        ),
{
}

impl App {
    /// The blur-kernel size is within its bounds.
    pub open spec fn well_formed(self) -> bool {
        self.blur_kernel <= MAX_BLUR_KERNEL
    }

    /// The state after the overlay has reported `edits`: a colour changes only if
    /// its picker reported one, and the blur-kernel size is what the control holds
    /// after the pass, brought within its bounds.
    pub open spec fn edited(self, edits: UiEdits) -> App {
        App {
            bg_color: match edits.bg_color {
                Some(color) => color,
                None => self.bg_color,
            },
            triangle_color: match edits.triangle_color {
                Some(color) => color,
                None => self.triangle_color,
            },
            blur_kernel: clamped_blur_kernel(
                match edits.blur_kernel {
                    Some(attempted) => attempted as int,
                    None => self.blur_kernel as int,
                },
            ) as u8,
        }
    }

    /// The state at startup: a dark grey background, a blue triangle, no blur.
    pub fn new() -> (app: App)
        ensures
            app.bg_color == (PackedColor { r: 26, g: 26, b: 26, a: 255 }),
            app.triangle_color == (PackedColor { r: 0, g: 0, b: 255, a: 255 }),
            app.blur_kernel == 0,
            app.well_formed(),
    {
        App {
            bg_color: PackedColor { r: 26, g: 26, b: 26, a: 255 },
            triangle_color: PackedColor::blue(),
            blur_kernel: 0,
        }
    }

    /// Hears of an event on a window. No event changes the state.
    pub fn handle_window_event(&mut self, window_id: u64, event: &WindowEvent)
        ensures
            *final(self) == *old(self),
    {
    }

    /// Takes over what the overlay's controls reported in one pass.
    pub fn ui(&mut self, edits: &UiEdits)
        ensures
            *final(self) == old(self).edited(*edits),
            final(self).well_formed(),
    {
        if let Some(color) = edits.triangle_color {
            self.triangle_color = color;
        }
        if let Some(color) = edits.bg_color {
            self.bg_color = color;
        }
        let attempted: i64 = match edits.blur_kernel {
            Some(attempted) => attempted,
            None => self.blur_kernel as i64,
        };
        self.blur_kernel = clamp_blur_kernel(attempted);
    }
}

} // verus!
