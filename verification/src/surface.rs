//! The render target and the drawing surface: what is asked of the GPU layer,
//! derived from what the driver and the window report, and what is accepted
//! back from it.

use vstd::prelude::*;
use crate::convert::{framebuffer_id, pixel_extent, sample_count, stencil_depth};
use crate::convert::{spec_framebuffer_id, spec_sample_count};
use crate::error::ShellError;

verus! {

/// The color format of a framebuffer.
#[derive(Clone, Copy, Debug, PartialEq, Eq, Structural)]
pub enum ColorFormat {
    Rgba8,
    Bgra8,
}

/// The pixel layout of a drawing surface.
#[derive(Clone, Copy, Debug, PartialEq, Eq, Structural)]
pub enum ColorType {
    Rgba8888,
    Bgra8888,
}

/// The corner of a surface at which its coordinates start.
#[derive(Clone, Copy, Debug, PartialEq, Eq, Structural)]
pub enum SurfaceOrigin {
    TopLeft,
    BottomLeft,
}

/// The framebuffer that the window system has bound, as read from the driver
/// once the context is current.
#[derive(Clone, Copy, Debug, PartialEq, Eq, Structural)]
pub struct FramebufferDescriptor {
    pub fboid: u32,
    pub format: ColorFormat,
}

/// What the window reports when a surface is bound to it: the negotiated
/// pixel format and the size in device pixels.
#[derive(Clone, Copy, Debug, PartialEq, Eq)]
pub struct PixelFormatInfo {
    /// The negotiated multisampling level, `None` where it is off.
    pub multisampling: Option<u16>,
    pub stencil_bits: u8,
    pub physical_width: u32,
    pub physical_height: u32,
}

/// The parameters of a GPU-backed render target.
#[derive(Clone, Copy, Debug, PartialEq, Eq, Structural)]
pub struct RenderTarget {
    pub width: i32,
    pub height: i32,
    pub sample_count: usize,
    pub stencil_bits: usize,
    pub framebuffer: FramebufferDescriptor,
}

/// What is asked of the GPU layer: a surface that wraps `target`.
#[derive(Clone, Copy, Debug, PartialEq, Eq, Structural)]
pub struct SurfaceRequest {
    pub target: RenderTarget,
    pub origin: SurfaceOrigin,
    pub color_type: ColorType,
}

/// The drawing surface that the GPU layer made, by the size it reports.
#[derive(Clone, Copy, Debug, PartialEq, Eq, Structural)]
pub struct RenderSurface {
    pub width: i32,
    pub height: i32,
}

impl RenderSurface {
    /// The surface's width in device pixels.
    pub fn width(&self) -> (w: i32)
        ensures
            w == self.width,
    {
        self.width
    }

    /// The surface's height in device pixels.
    pub fn height(&self) -> (h: i32)
        ensures
            h == self.height,
    {
        self.height
    }
}

/// The descriptor of the framebuffer with the raw binding `raw`.
pub open spec fn spec_framebuffer(raw: i32) -> Result<FramebufferDescriptor, ShellError> {
    match spec_framebuffer_id(raw) {
        Ok(fboid) => Ok(FramebufferDescriptor { fboid, format: ColorFormat::Rgba8 }),
        Err(e) => Err(e),
    }
}

/// The render target for a framebuffer and what the window reports: the
/// window's physical size, its sample count (0 where multisampling is off)
/// and its stencil depth, on that framebuffer.
pub open spec fn spec_render_target(
    framebuffer: FramebufferDescriptor,
    info: PixelFormatInfo,
) -> Result<RenderTarget, ShellError> {
    if info.physical_width <= i32::MAX && info.physical_height <= i32::MAX {
        Ok(
            RenderTarget {
                width: info.physical_width as i32,
                height: info.physical_height as i32,
                sample_count: spec_sample_count(info.multisampling),
                stencil_bits: info.stencil_bits as usize,
                framebuffer,
            },
        )
    } else {
        Err(ShellError::SurfaceBinding)
    }
}

/// The surface request for a raw framebuffer binding and what the window
/// reports: the render target on that framebuffer, with the origin at the top
/// left and four 8-bit channels in the order red, green, blue, alpha.
pub open spec fn spec_plan_surface(raw: i32, info: PixelFormatInfo) -> Result<
    SurfaceRequest,
    ShellError,
> {
    match spec_framebuffer(raw) {
        Ok(framebuffer) => match spec_render_target(framebuffer, info) {
            Ok(target) => Ok(
                SurfaceRequest {
                    target,
                    origin: SurfaceOrigin::TopLeft,
                    color_type: ColorType::Rgba8888,
                },
            ),
            Err(e) => Err(e),
        },
        Err(e) => Err(e),
    }
}

/// The surface that is accepted for a request: the one that the GPU layer
/// made, if it made one and it has the size that was asked for.
pub open spec fn spec_bind_surface(request: SurfaceRequest, created: Option<(i32, i32)>) -> Result<
    RenderSurface,
    ShellError,
> {
    match created {
        Some((width, height)) => if width == request.target.width && height
            == request.target.height {
            Ok(RenderSurface { width, height })
        } else {
            Err(ShellError::SurfaceBinding)
        },
        None => Err(ShellError::SurfaceBinding),
    }
}

impl FramebufferDescriptor {
    /// Describes the framebuffer whose binding was read from the driver as
    /// `raw`. The binding is taken as read, never assumed to be 0; a negative
    /// one is a `SurfaceBinding` error.
    pub fn from_binding(raw: i32) -> (framebuffer: Result<FramebufferDescriptor, ShellError>)
        ensures
            framebuffer == spec_framebuffer(raw),
            framebuffer is Ok <==> raw >= 0,
    {
        match framebuffer_id(raw) {
            Ok(fboid) => Ok(FramebufferDescriptor { fboid, format: ColorFormat::Rgba8 }),
            Err(e) => Err(e),
        }
    }
}

impl RenderTarget {
    /// Builds the render target for `framebuffer` from what the window
    /// reports. A physical extent above `i32::MAX` is a `SurfaceBinding`
    /// error.
    pub fn describe(framebuffer: FramebufferDescriptor, info: &PixelFormatInfo) -> (target: Result<
        RenderTarget,
        ShellError,
    >)
        ensures
            target == spec_render_target(framebuffer, *info),
            target is Ok <==> info.physical_width <= i32::MAX && info.physical_height <= i32::MAX,
    {
        let width: i32 = match pixel_extent(info.physical_width) {
            Ok(w) => w,
            Err(e) => {
                return Err(e);
            },
        };
        let height: i32 = match pixel_extent(info.physical_height) {
            Ok(h) => h,
            Err(e) => {
                return Err(e);
            },
        };
        Ok(
            RenderTarget {
                width,
                height,
                sample_count: sample_count(info.multisampling),
                stencil_bits: stencil_depth(info.stencil_bits),
                framebuffer,
            },
        )
    }
}

/// Decides what surface to ask of the GPU layer, from the framebuffer binding
/// read from the driver and from what the window reports.
pub fn plan_surface(raw: i32, info: &PixelFormatInfo) -> (request: Result<
    SurfaceRequest,
    ShellError,
>)
    ensures
        request == spec_plan_surface(raw, *info),
        request is Ok <==> raw >= 0 && info.physical_width <= i32::MAX && info.physical_height
            <= i32::MAX,
        request matches Err(e) ==> e == ShellError::SurfaceBinding,
{
    let framebuffer = match FramebufferDescriptor::from_binding(raw) {
        Ok(f) => f,
        Err(e) => {
            return Err(e);
        },
    };
    match RenderTarget::describe(framebuffer, info) {
        Ok(target) => Ok(
            SurfaceRequest {
                target,
                origin: SurfaceOrigin::TopLeft,
                color_type: ColorType::Rgba8888,
            },
        ),
        Err(e) => Err(e),
    }
}

/// Accepts what the GPU layer made for `request`: `created` is the size that
/// the new surface reports, or `None` where the GPU layer made none. A
/// surface of another size than the one asked for is rejected.
pub fn bind_surface(request: &SurfaceRequest, created: Option<(i32, i32)>) -> (surface: Result<
    RenderSurface,
    ShellError,
>)
    ensures
        surface == spec_bind_surface(*request, created),
        surface matches Ok(s) ==> s.width == request.target.width && s.height
            == request.target.height,
        surface matches Err(e) ==> e == ShellError::SurfaceBinding,
{
    match created {
        Some((width, height)) => {
            if width == request.target.width && height == request.target.height {
                Ok(RenderSurface { width, height })
            } else {
                Err(ShellError::SurfaceBinding)
            }
        },
        None => Err(ShellError::SurfaceBinding),
    }
}

} // verus!
