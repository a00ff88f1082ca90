//! The steps that make up one frame.

use crate::color::PackedColor;
use crate::viewport::Size;
use vstd::prelude::*;

verus! {

/// An image that a render pass can write to.
#[derive(Clone, Copy, Debug, PartialEq, Eq, Structural)]
pub enum TextureView {
    /// The frame that was acquired from the surface and will be presented.
    Frame,
    /// The viewport's offscreen multisample target.
    Offscreen,
}

/// What a render pass does with the contents of its attachment before it draws.
#[derive(Clone, Copy, Debug, PartialEq, Eq, Structural)]
pub enum LoadOp {
    /// Replaces them with one colour.
    Clear(PackedColor),
    /// Keeps them.
    Load,
}

/// The colour attachment of a render pass.
#[derive(Clone, Copy, Debug, PartialEq, Eq, Structural)]
pub struct ColorAttachment {
    /// The image drawn into.
    pub view: TextureView,
    /// Where the samples of `view` are resolved to, when it is multisampled.
    pub resolve_target: Option<TextureView>,
    pub load: LoadOp,
    /// Whether what was drawn is kept.
    pub store: bool,
}

impl ColorAttachment {
    /// The image that holds the result of the pass.
    pub open spec fn output(self) -> TextureView {
        match self.resolve_target {
            Some(target) => target,
            None => self.view,
        }
    }
}

/// The pass that clears the frame and draws the triangle.
#[derive(Clone, Copy, Debug, PartialEq, Eq, Structural)]
pub struct BackgroundPass {
    pub attachment: ColorAttachment,
    /// The colour to upload as the fragment stage's uniform.
    pub color: PackedColor,
    /// The draw covers the indices `0..num_indices`.
    pub num_indices: u32,
    pub instances: u32,
}

/// The pass that draws the overlay on top of what the frame holds.
#[derive(Clone, Copy, Debug, PartialEq, Eq, Structural)]
pub struct GuiPass {
    pub attachment: ColorAttachment,
    /// Size of the screen that the overlay is laid out for.
    pub size_in_pixels: Size,
}

/// One step of a frame. Each pass is submitted to the queue on its own, so the
/// order of the steps is the order in which the layers appear.
#[derive(Clone, Copy, Debug, PartialEq, Eq, Structural)]
pub enum FrameStep {
    /// Wait for the surface's next frame.
    Acquire,
    Background(BackgroundPass),
    Gui(GuiPass),
    /// Hand the frame to the display.
    Present,
}

} // verus!
