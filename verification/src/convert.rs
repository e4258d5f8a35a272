//! Range-checked conversions of the integers that the driver and the window
//! system report into the integer types of a render target. A value that does
//! not fit is an error, never a truncation.

use vstd::prelude::*;
use crate::error::ShellError;

verus! {

/// The framebuffer id that a raw driver binding stands for, where it is one:
/// the driver reports the binding as a signed integer, an id is unsigned.
pub open spec fn spec_framebuffer_id(raw: i32) -> Result<u32, ShellError> {
    if raw >= 0 {
        Ok(raw as u32)
    } else {
        Err(ShellError::SurfaceBinding)
    }
}

/// The signed extent, in device pixels, that an unsigned physical extent
/// stands for, where it fits.
pub open spec fn spec_pixel_extent(physical: u32) -> Result<i32, ShellError> {
    if physical <= i32::MAX {
        Ok(physical as i32)
    } else {
        Err(ShellError::SurfaceBinding)
    }
}

/// The sample count of a render target: the negotiated multisampling level,
/// or 0 where multisampling is off.
pub open spec fn spec_sample_count(multisampling: Option<u16>) -> usize {
    match multisampling {
        Some(level) => level as usize,
        None => 0,
    }
}

/// Converts the framebuffer binding read from the driver into a framebuffer
/// id. A negative binding is rejected.
pub fn framebuffer_id(raw: i32) -> (id: Result<u32, ShellError>)
    ensures
        id == spec_framebuffer_id(raw),
        id is Ok <==> raw >= 0,
        id matches Ok(v) ==> v as int == raw as int,
{
    match u32::try_from(raw) {
        Ok(v) => Ok(v),
        Err(_) => Err(ShellError::SurfaceBinding),
    }
}

/// Converts a physical extent of the window into the signed extent of a
/// render target. An extent above `i32::MAX` is rejected.
pub fn pixel_extent(physical: u32) -> (extent: Result<i32, ShellError>)
    ensures
        extent == spec_pixel_extent(physical),
        extent is Ok <==> physical <= i32::MAX,
        extent matches Ok(v) ==> v as int == physical as int,
{
    if physical <= 0x7fff_ffff {
        Ok(physical as i32)
    } else {
        Err(ShellError::SurfaceBinding)
    }
}

/// The sample count for a negotiated multisampling level: the level itself,
/// or 0 where the pixel format has none. Every level fits.
pub fn sample_count(multisampling: Option<u16>) -> (count: usize)
    ensures
        count == spec_sample_count(multisampling),
        multisampling is None ==> count == 0,
        multisampling matches Some(level) ==> count as int == level as int,
{
    match multisampling {
        Some(level) => usize::from(level),
        None => 0,
    }
}

/// The stencil depth of a render target for a negotiated number of stencil
/// bits. Every depth fits.
pub fn stencil_depth(bits: u8) -> (depth: usize)
    ensures
        depth as int == bits as int,
{
    usize::from(bits)
}

} // verus!
