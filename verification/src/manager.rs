//! The conversion engine's rules: how large a buffer to ask the hardware
//! buffer manager for, which two surfaces a conversion blits between, and
//! what the engine's status codes mean.

use crate::image::{Image, ImageView, Rect};
use crate::physical::G2DPhysical;
use crate::surface::{destination_of, g2d_surface_new, source_of, FrameInfo};
use vstd::prelude::*;

verus! {

/// Why no buffer was allocated.
#[derive(Clone, Copy, Debug, PartialEq, Eq, Structural)]
pub enum AllocError {
    /// A dimension or the channel count is negative, or the byte count is
    /// more than the buffer manager can be asked for.
    Size,
    /// The buffer manager gave no buffer.
    Refused,
}

/// Why a conversion failed.
#[derive(Clone, Copy, Debug, PartialEq, Eq, Structural)]
pub enum ConversionError {
    /// A buffer's format is not one of the catalog's.
    UnsupportedFormat,
    /// A buffer's address did not resolve.
    Unresolved,
    /// A surface's layout does not fit the machine.
    Geometry,
    /// The engine refused the blit, with this status.
    Blit(i32),
    /// The engine failed to finish, with this status.
    Finish(i32),
}

/// The two surfaces of a blit.
#[derive(Clone, Copy, Debug, PartialEq, Eq)]
pub struct BlitPlan {
    pub source: g2d_surface_new,
    pub destination: g2d_surface_new,
}

/// The bytes of a buffer of the given dimensions and channel count.
pub open spec fn buffer_bytes(width: int, height: int, channels: int) -> int {
    width * height * channels
}

/// Whether a buffer can be asked for: no number is negative and the byte
/// count fits the manager's signed 32 bits.
pub open spec fn allocatable(width: int, height: int, channels: int) -> bool {
    &&& 0 <= width
    &&& 0 <= height
    &&& 0 <= channels
    &&& buffer_bytes(width, height, channels) <= i32::MAX
}

/// The blit that converts a frame into an image, or why there is none. The
/// source's fault is found before the destination's.
pub open spec fn blit_plan(
    from: FrameInfo,
    from_phys: G2DPhysical,
    to: ImageView,
    to_phys: G2DPhysical,
    crop: Option<Rect>,
) -> Result<BlitPlan, ConversionError> {
    match source_of(from, from_phys, crop) {
        Err(e) => Err(e),
        Ok(source) => match destination_of(to, to_phys) {
            Err(e) => Err(e),
            Ok(destination) => Ok(BlitPlan { source, destination }),
        },
    }
}

/// What a status of the blit call means: zero is success.
pub open spec fn blit_outcome(status: i32) -> Result<(), ConversionError> {
    if status == 0 {
        Ok(())
    } else {
        Err(ConversionError::Blit(status))
    }
}

/// What a status of the finish call means: zero is success.
pub open spec fn finish_outcome(status: i32) -> Result<(), ConversionError> {
    if status == 0 {
        Ok(())
    } else {
        Err(ConversionError::Finish(status))
    }
}

/// The conversion engine's rules. It holds no hardware: what it decides is
/// carried out by whoever owns the engine.
#[derive(Clone, Copy, Debug)]
pub struct ImageManager {}

impl ImageManager {
    /// The rules of the conversion engine.
    pub fn new() -> ImageManager {
        ImageManager {  }
    }

    /// The bytes to ask the buffer manager for, for a buffer of the given
    /// dimensions and channel count.
    pub fn alloc_size(&self, width: i32, height: i32, channels: i32) -> (r: Result<i32, AllocError>)
        ensures
            match r {
                Ok(size) => allocatable(width as int, height as int, channels as int) && size
                    == buffer_bytes(width as int, height as int, channels as int),
                Err(e) => e == AllocError::Size && !allocatable(
                    width as int,
                    height as int,
                    channels as int,
                ),
            },
    {
        if width < 0 || height < 0 || channels < 0 {
            return Err(AllocError::Size);
        }
        let w: u64 = width as u64;
        let h: u64 = height as u64;
        let c: u64 = channels as u64;
        assert(w * h <= 0x7fff_ffff * 0x7fff_ffff) by (nonlinear_arith)
            requires
                w <= 0x7fff_ffff,
                h <= 0x7fff_ffff,
        ;
        let area: u64 = w * h;
        if area > 0x7fff_ffff {
            proof {
                assert(area * c >= area || c == 0) by (nonlinear_arith)
                    requires
                        0 <= area,
                        0 <= c,
                ;
            }
            if c == 0 {
                assert(area * c == 0) by (nonlinear_arith)
                    requires
                        c == 0,
                ;
                return Ok(0);
            }
            return Err(AllocError::Size);
        }
        assert(area * c <= 0x7fff_ffff * 0x7fff_ffff) by (nonlinear_arith)
            requires
                area <= 0x7fff_ffff,
                c <= 0x7fff_ffff,
        ;
        let bytes: u64 = area * c;
        if bytes > 0x7fff_ffff {
            return Err(AllocError::Size);
        }
        Ok(bytes as i32)
    }

    /// What the buffer manager's answer to a request means: a buffer, or
    /// the refusal where it gave none.
    pub fn alloc_result(&self, granted: Option<crate::image::G2DBuffer>) -> (r: Result<
        crate::image::G2DBuffer,
        AllocError,
    >)
        ensures
            match granted {
                Some(buffer) => r == Ok::<crate::image::G2DBuffer, AllocError>(buffer),
                None => r == Err::<crate::image::G2DBuffer, AllocError>(AllocError::Refused),
            },
    {
        match granted {
            Some(buffer) => Ok(buffer),
            None => Err(AllocError::Refused),
        }
    }

    /// The blit that converts a decoded frame into an image: from all of
    /// the frame, or from the crop rectangle where one is given, to all of
    /// the image. Both addresses have been resolved by the caller; one
    /// that is zero is refused and never reaches the engine.
    pub fn convert_phys(
        &self,
        from: &FrameInfo,
        from_phys: G2DPhysical,
        to: &Image,
        to_phys: G2DPhysical,
        crop: &Option<Rect>,
    ) -> (r: Result<BlitPlan, ConversionError>)
        ensures
            r == blit_plan(*from, from_phys, to@, to_phys, *crop),
    {
        let whole = match g2d_surface_new::from(from, from_phys) {
            Ok(surface) => surface,
            Err(e) => {
                return Err(e);
            },
        };
        let source = match crop {
            None => whole,
            Some(rect) => match whole.crop(rect) {
                Ok(surface) => surface,
                Err(e) => {
                    return Err(e);
                },
            },
        };
        let destination = match g2d_surface_new::from_image(to, to_phys) {
            Ok(surface) => surface,
            Err(e) => {
                return Err(e);
            },
        };
        Ok(BlitPlan { source, destination })
    }

    /// What the status of the blit call means.
    pub fn blit_result(&self, status: i32) -> (r: Result<(), ConversionError>)
        ensures
            r == blit_outcome(status),
    {
        if status != 0 {
            Err(ConversionError::Blit(status))
        } else {
            Ok(())
        }
    }

    /// What the status of the finish call means.
    pub fn finish_result(&self, status: i32) -> (r: Result<(), ConversionError>)
        ensures
            r == finish_outcome(status),
    {
        if status != 0 {
            Err(ConversionError::Finish(status))
        } else {
            Ok(())
        }
    }
}

} // verus!
