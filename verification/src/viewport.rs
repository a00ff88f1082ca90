//! A window's drawable surface: its configuration and its optional offscreen
//! multisample target.

use crate::color::PackedColor;
use crate::gpu::default_max_texture_dimension_3d;
use crate::pipeline::MSAA_SAMPLES;
use vstd::prelude::*;

verus! {

/// Which of the pixel formats that a surface reports is taken.
pub const FORMAT_INDEX: usize = 0;

/// Which of the alpha modes that a surface reports is taken.
pub const ALPHA_MODES_INDEX: usize = 0;

/// Largest width and height of an offscreen target: the graphics API's default
/// limit on texture dimensions.
pub const MAX_TARGET_DIMENSION: u32 = 2048;

/// A size in physical pixels.
#[derive(Clone, Copy, Debug, PartialEq, Eq, Structural)]
pub struct Size {
    pub width: u32,
    pub height: u32,
}

impl Size {
    /// Nothing can be drawn at this size; a minimised window reports one.
    pub open spec fn is_empty(self) -> bool {
        self.width == 0 || self.height == 0
    }
}

/// When frames are handed to the display.
#[derive(Clone, Copy, Debug, PartialEq, Eq, Structural)]
pub enum PresentMode {
    AutoVsync,
    AutoNoVsync,
    /// In step with the display's refresh; a frame waits for the one before it.
    Fifo,
    FifoRelaxed,
    Immediate,
    Mailbox,
}

/// What a surface supports on the chosen adapter, each list in the order reported.
#[derive(Debug, PartialEq, Eq)]
pub struct SurfaceCapabilities {
    pub formats: Vec<wgpu::TextureFormat>,
    pub alpha_modes: Vec<wgpu::CompositeAlphaMode>,
}

/// How a surface is configured.
#[derive(Clone, Copy, Debug, PartialEq, Eq)]
pub struct SurfaceConfiguration {
    pub format: wgpu::TextureFormat,
    pub width: u32,
    pub height: u32,
    pub present_mode: PresentMode,
    pub alpha_mode: wgpu::CompositeAlphaMode,
}

/// An offscreen two-dimensional texture to render into with several samples per
/// pixel, before the result is resolved into the frame.
#[derive(Clone, Copy, Debug, PartialEq, Eq)]
pub struct TargetTexture {
    pub width: u32,
    pub height: u32,
    pub sample_count: u32,
    pub format: wgpu::TextureFormat,
}

/// The offscreen target that goes with a surface of the given size and format:
/// one exists when there is more than one sample per pixel and both dimensions
/// are within `max_dimension`.
pub open spec fn target_texture_for(
    sample_count: u32,
    max_dimension: u32,
    size: Size,
    format: wgpu::TextureFormat,
) -> Option<TargetTexture> {
    if sample_count > 1 && size.width <= max_dimension && size.height <= max_dimension {
        Some(TargetTexture { width: size.width, height: size.height, sample_count, format })
    } else {
        None
    }
}

/// Decides on the offscreen target for `sample_count` samples per pixel.
pub fn target_texture(sample_count: u32, size: Size, format: wgpu::TextureFormat) -> (target:
    Option<TargetTexture>)
    ensures
        target == target_texture_for(sample_count, MAX_TARGET_DIMENSION, size, format),
{
    if sample_count <= 1 {
        return None;
    }
    let max_dim = default_max_texture_dimension_3d();
    if size.width > max_dim || size.height > max_dim {
        return None;
    }
    Some(TargetTexture { width: size.width, height: size.height, sample_count, format })
}

/// A window that is to be drawn into, before its surface is configured.
#[derive(Clone, Copy, Debug, PartialEq, Eq, Structural)]
pub struct ViewportDesc {
    /// Identifies the window.
    pub window: u64,
    pub background: PackedColor,
}

/// What has to be done to a surface after a resize.
#[derive(Clone, Copy, Debug, PartialEq, Eq)]
pub struct Reconfigure {
    /// The configuration to apply to the surface.
    pub config: SurfaceConfiguration,
    /// The offscreen target to allocate, if any.
    pub render_target: Option<TargetTexture>,
    /// Whether there is an earlier offscreen target to release.
    pub release_previous: bool,
}

/// A window with its configured surface.
#[derive(Clone, Copy, Debug, PartialEq, Eq)]
pub struct Viewport {
    pub desc: ViewportDesc,
    pub config: SurfaceConfiguration,
    pub render_target: Option<TargetTexture>,
}

impl ViewportDesc {
    pub fn new(window: u64, background: PackedColor) -> (desc: ViewportDesc)
        ensures
            desc == (ViewportDesc { window, background }),
    {
        ViewportDesc { window, background }
    }

    /// Decides on the offscreen target for a surface of this size and format.
    pub fn create_target_texture(&self, size: Size, format: wgpu::TextureFormat) -> (target:
        Option<TargetTexture>)
        ensures
            target == target_texture_for(MSAA_SAMPLES, MAX_TARGET_DIMENSION, size, format),
    {
        target_texture(MSAA_SAMPLES, size, format)
    }

    /// The viewport that `build` makes of this window.
    pub open spec fn built(self, caps: SurfaceCapabilities, size: Size) -> Viewport {
        let format = caps.formats@[FORMAT_INDEX as int];
        Viewport {
            desc: self,
            config: SurfaceConfiguration {
                format,
                width: size.width,
                height: size.height,
                present_mode: PresentMode::Fifo,
                alpha_mode: caps.alpha_modes@[ALPHA_MODES_INDEX as int],
            },
            render_target: target_texture_for(MSAA_SAMPLES, MAX_TARGET_DIMENSION, size, format),
        }
    }

    /// Settles the configuration of the window's surface: the first pixel format
    /// and the first alpha mode that the surface reports, the given size, and
    /// presentation in step with the display. The surface must report at least
    /// one format and one alpha mode.
    pub fn build(self, caps: &SurfaceCapabilities, size: Size) -> (viewport: Viewport)
        requires
            caps.formats@.len() > FORMAT_INDEX,
            caps.alpha_modes@.len() > ALPHA_MODES_INDEX,
        ensures
            viewport == self.built(*caps, size),
            viewport.well_formed(),
    {
        let format = caps.formats[FORMAT_INDEX];
        let config = SurfaceConfiguration {
            format,
            width: size.width,
            height: size.height,
            present_mode: PresentMode::Fifo,
            alpha_mode: caps.alpha_modes[ALPHA_MODES_INDEX],
        };
        let render_target = self.create_target_texture(size, format);
        Viewport { desc: self, config, render_target }
    }
}

impl Viewport {
    /// The size the surface is configured for.
    pub open spec fn size(self) -> Size {
        Size { width: self.config.width, height: self.config.height }
    }

    /// The offscreen target is the one that goes with the surface's configuration.
    pub open spec fn well_formed(self) -> bool {
        self.render_target == target_texture_for(
            MSAA_SAMPLES,
            MAX_TARGET_DIMENSION,
            self.size(),
            self.config.format,
        )
    }

    /// The viewport after the window has taken the size `size`. An empty size
    /// changes nothing.
    pub open spec fn resized(self, size: Size) -> Viewport {
        if size.is_empty() {
            self
        } else {
            Viewport {
                desc: self.desc,
                config: SurfaceConfiguration {
                    width: size.width,
                    height: size.height,
                    ..self.config
                },
                render_target: target_texture_for(
                    MSAA_SAMPLES,
                    MAX_TARGET_DIMENSION,
                    size,
                    self.config.format,
                ),
            }
        }
    }

    /// What has to be done to the surface when the window takes the size `size`:
    /// nothing for an empty size.
    pub open spec fn reconfigure_for(self, size: Size) -> Option<Reconfigure> {
        if size.is_empty() {
            None
        } else {
            Some(
                Reconfigure {
                    config: self.resized(size).config,
                    render_target: self.resized(size).render_target,
                    release_previous: self.render_target is Some,
                },
            )
        }
    }

    /// Follows a change of the window's size. For an empty size nothing changes
    /// and nothing is to be done. Otherwise the configuration takes the new width
    /// and height, the offscreen target is decided anew, and the result says how
    /// to reconfigure the surface.
    pub fn resize(&mut self, size: Size) -> (todo: Option<Reconfigure>)
        ensures
            *final(self) == old(self).resized(size),
            todo == old(self).reconfigure_for(size),
            old(self).well_formed() ==> final(self).well_formed(),
    {
        if size.width == 0 || size.height == 0 {
            return None;
        }
        self.config.width = size.width;
        self.config.height = size.height;
        let next_target = self.desc.create_target_texture(size, self.config.format);
        let release_previous = self.render_target.is_some();
        self.render_target = next_target;
        Some(Reconfigure { config: self.config, render_target: next_target, release_previous })
    }
}

/// A resize to an empty size leaves a viewport as it was, and a later resize to
/// a size that is not empty has the same outcome as if the empty one had never
/// happened.
pub proof fn lemma_empty_resize_is_forgotten(viewport: Viewport, empty: Size, size: Size)
    requires
        empty.is_empty(),
    ensures
        viewport.resized(empty) == viewport,
        viewport.reconfigure_for(empty) is None,
        viewport.resized(empty).resized(size) == viewport.resized(size),
        viewport.resized(empty).reconfigure_for(size) == viewport.reconfigure_for(size),
{
}

/// After a resize to a size that is not empty the surface is configured for
/// exactly that size, with its format, alpha mode and present mode as before,
/// and the offscreen target goes with the new configuration.
pub proof fn lemma_resize_reconfigures(viewport: Viewport, size: Size)
    requires
        !size.is_empty(),
    ensures
        viewport.resized(size).size() == size,
        viewport.resized(size).config.format == viewport.config.format,
        viewport.resized(size).config.alpha_mode == viewport.config.alpha_mode,
        viewport.resized(size).config.present_mode == viewport.config.present_mode,
        viewport.resized(size).desc == viewport.desc,
        viewport.resized(size).well_formed(),
        viewport.reconfigure_for(size) is Some,
{
}

} // verus!
