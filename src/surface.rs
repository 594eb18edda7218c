use vstd::prelude::*;
use crate::resources::{ColorFormat, srgb_of};

verus! {

/// Frames that may be queued for presentation.
pub const MAX_FRAME_LATENCY: u32 = 2;

/// How presentation waits for the display.
#[derive(Clone, Copy, Debug, PartialEq, Eq, Structural)]
pub enum PresentMode {
    AutoVsync,
    AutoNoVsync,
    Fifo,
    Immediate,
}

/// The configuration handed to the presentation surface. Its images are
/// always used as render attachments.
#[derive(Clone, Copy, Debug, PartialEq, Eq, Structural)]
pub struct SurfaceConfig {
    pub width: u32,
    pub height: u32,
    pub format: ColorFormat,
    /// The one extra format in which views of the surface's images may be made.
    pub view_format: ColorFormat,
    pub present_mode: PresentMode,
    pub max_frame_latency: u32,
}

pub open spec fn surface_config_spec(width: u32, height: u32, format: ColorFormat) -> SurfaceConfig {
    SurfaceConfig {
        width,
        height,
        format,
        view_format: srgb_of(format),
        present_mode: PresentMode::AutoVsync,
        max_frame_latency: MAX_FRAME_LATENCY,
    }
}

/// The configuration for a window of the given size: adaptive vsync, two
/// frames in flight, and sRGB views allowed.
pub fn surface_config(width: u32, height: u32, format: ColorFormat) -> (r: SurfaceConfig)
    ensures
        r == surface_config_spec(width, height, format),
{
    SurfaceConfig {
        width,
        height,
        format,
        view_format: format.add_srgb_suffix(),
        present_mode: PresentMode::AutoVsync,
        max_frame_latency: MAX_FRAME_LATENCY,
    }
}

/// Size of a presentable image.
#[derive(Clone, Copy, Debug, PartialEq, Eq, Structural)]
pub struct ImageSize {
    pub width: u32,
    pub height: u32,
}

/// Why no presentable image could be acquired.
#[derive(Clone, Copy, Debug, PartialEq, Eq, Structural)]
pub enum AcquireError {
    /// The surface was never configured.
    Unconfigured,
    /// The surface was configured for another window size.
    Outdated,
    /// The window has no area to present to.
    ZeroSized,
}

/// The presentation surface of one window: the window's current size and the
/// configuration last applied.
#[derive(Clone, Copy, Debug, PartialEq, Eq, Structural)]
pub struct SurfaceState {
    pub window: ImageSize,
    pub format: ColorFormat,
    pub config: Option<SurfaceConfig>,
}

impl SurfaceState {
    /// A surface of a window of the given size, not configured yet.
    pub open spec fn new_spec(width: u32, height: u32, format: ColorFormat) -> SurfaceState {
        SurfaceState { window: ImageSize { width, height }, format, config: None }
    }

    /// The state after configuring for the current window size.
    pub open spec fn configured(self) -> SurfaceState {
        SurfaceState {
            config: Some(surface_config_spec(self.window.width, self.window.height, self.format)),
            ..self
        }
    }

    /// The state after a resize event: the new size is kept, and the surface
    /// is reconfigured when the new size has an area.
    pub open spec fn resized(self, width: u32, height: u32) -> SurfaceState {
        let s = SurfaceState { window: ImageSize { width, height }, ..self };
        if width > 0 && height > 0 {
            s.configured()
        } else {
            s
        }
    }

    /// What acquiring the next presentable image gives in this state.
    pub open spec fn acquire_spec(self) -> Result<ImageSize, AcquireError> {
        match self.config {
            None => Err(AcquireError::Unconfigured),
            Some(c) => if c.width != self.window.width || c.height != self.window.height {
                Err(AcquireError::Outdated)
            } else if c.width == 0 || c.height == 0 {
                Err(AcquireError::ZeroSized)
            } else {
                Ok(ImageSize { width: c.width, height: c.height })
            },
        }
    }

    /// A surface of a window of the given size, not configured yet.
    pub fn new(width: u32, height: u32, format: ColorFormat) -> (r: SurfaceState)
        ensures
            r == SurfaceState::new_spec(width, height, format),
    {
        SurfaceState { window: ImageSize { width, height }, format, config: None }
    }

    /// Configures the surface for the current window size, and returns the
    /// configuration to apply.
    pub fn configure_surface(&mut self) -> (r: SurfaceConfig)
        ensures
            *final(self) == old(self).configured(),
            final(self).config == Some(r),
    {
        let c = surface_config(self.window.width, self.window.height, self.format);
        self.config = Some(c);
        c
    }

    /// Records a new window size, and returns the configuration to apply
    /// when the surface was reconfigured for it.
    pub fn resize(&mut self, width: u32, height: u32) -> (r: Option<SurfaceConfig>)
        ensures
            *final(self) == old(self).resized(width, height),
            r is Some <==> width > 0 && height > 0,
            r matches Some(c) ==> final(self).config == Some(c),
    {
        self.window = ImageSize { width, height };
        if width > 0 && height > 0 {
            Some(self.configure_surface())
        } else {
            None
        }
    }

    /// The size of the next presentable image, or why there is none.
    pub fn acquire(&self) -> (r: Result<ImageSize, AcquireError>)
        ensures
            r == self.acquire_spec(),
    {
        match self.config {
            None => Err(AcquireError::Unconfigured),
            Some(c) => if c.width != self.window.width || c.height != self.window.height {
                Err(AcquireError::Outdated)
            } else if c.width == 0 || c.height == 0 {
                Err(AcquireError::ZeroSized)
            } else {
                Ok(ImageSize { width: c.width, height: c.height })
            },
        }
    }
}

/// After a resize to a size with an area, the next presentable image can be
/// acquired and has exactly the new size.
pub proof fn lemma_acquire_after_resize(s: SurfaceState, width: u32, height: u32)
    requires
        width > 0,
        height > 0,
    ensures
        s.resized(width, height).acquire_spec() == Ok::<ImageSize, AcquireError>(
            ImageSize { width, height },
        ),
{
}

/// Configuring twice in a row leaves the same state as configuring once.
pub proof fn lemma_configure_idempotent(s: SurfaceState)
    ensures
        s.configured().configured() == s.configured(),
{
}

/// Two resizes to the same size leave the same state as one.
pub proof fn lemma_resize_idempotent(s: SurfaceState, width: u32, height: u32)
    ensures
        s.resized(width, height).resized(width, height) == s.resized(width, height),
{
}

} // verus!
