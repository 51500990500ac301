//! The format catalog: which four-character codes the blit engine knows,
//! the identifier it knows each by, and how many bytes a row and an image of
//! each take.

use crate::fourcc::{nv12, rgb3, rgba, rgbx, yuyv, FourCC};
use vstd::prelude::*;

verus! {

/// The blit engine's identifier of 32-bit RGBA.
pub const G2D_RGBA8888: u32 = 1;

/// The blit engine's identifier of 32-bit RGB with an unused fourth byte.
pub const G2D_RGBX8888: u32 = 2;

/// The blit engine's identifier of 24-bit RGB.
pub const G2D_RGB888: u32 = 10;

/// The blit engine's identifier of planar 4:2:0 YUV.
pub const G2D_NV12: u32 = 20;

/// The blit engine's identifier of packed 4:2:2 YUV.
pub const G2D_YUYV: u32 = 24;

/// Why the catalog has no answer.
#[derive(Clone, Copy, Debug, PartialEq, Eq, Structural)]
pub enum FormatError {
    /// The code is not one of the catalog's formats.
    UnsupportedFormat,
    /// A dimension is negative, or the byte count does not fit the machine.
    Dimensions,
}

/// The identifier by which the blit engine knows a format, if the catalog
/// holds the format.
pub open spec fn hardware_id(format: FourCC) -> Option<u32> {
    if format == rgb3() {
        Some(G2D_RGB888)
    } else if format == rgbx() {
        Some(G2D_RGBX8888)
    } else if format == rgba() {
        Some(G2D_RGBA8888)
    } else if format == yuyv() {
        Some(G2D_YUYV)
    } else if format == nv12() {
        Some(G2D_NV12)
    } else {
        None
    }
}

/// The format that the blit engine knows by an identifier, if the catalog
/// holds one.
pub open spec fn format_of_id(id: u32) -> Option<FourCC> {
    if id == G2D_RGB888 {
        Some(rgb3())
    } else if id == G2D_RGBX8888 {
        Some(rgbx())
    } else if id == G2D_RGBA8888 {
        Some(rgba())
    } else if id == G2D_YUYV {
        Some(yuyv())
    } else if id == G2D_NV12 {
        Some(nv12())
    } else {
        None
    }
}

/// Whether the catalog holds a format.
pub open spec fn supported(format: FourCC) -> bool {
    hardware_id(format) is Some
}

/// Whether a format keeps luma and chroma in planes of their own.
pub open spec fn planar(format: FourCC) -> bool {
    format == nv12()
}

/// The bytes that one row of `width` pixels takes: three per pixel for
/// `RGB3`, four for `RGBX` and `RGBA`, two for `YUYV`, and for `NV12` one
/// and a half, the half rounded down.
pub open spec fn row_stride(format: FourCC, width: int) -> int {
    if format == rgb3() {
        3 * width
    } else if format == rgbx() || format == rgba() {
        4 * width
    } else if format == yuyv() {
        2 * width
    } else if format == nv12() {
        width / 2 + width
    } else {
        0
    }
}

/// The bytes that an image takes: its rows, one after the other.
pub open spec fn image_bytes(format: FourCC, width: int, height: int) -> int {
    row_stride(format, width) * height
}

/// Whether the catalog can size an image: it holds the format, neither
/// dimension is negative, and the bytes of a row and of the image each fit
/// a `usize`.
pub open spec fn sizable(format: FourCC, width: int, height: int) -> bool {
    &&& supported(format)
    &&& 0 <= width
    &&& 0 <= height
    &&& row_stride(format, width) <= usize::MAX
    &&& image_bytes(format, width, height) <= usize::MAX
}

/// A format as the blit engine names it. Only catalog formats have one.
pub struct G2DFormat(u32);

impl G2DFormat {
    #[verifier::type_invariant]
    spec fn known(self) -> bool {
        format_of_id(self.0) is Some
    }

    /// The identifier held.
    pub closed spec fn id(self) -> u32 {
        self.0
    }

    /// Whether the identifier held is one of the catalog's.
    pub open spec fn wf(self) -> bool {
        format_of_id(self.id()) is Some
    }

    /// Looks a four-character code up in the catalog. A code that the
    /// catalog does not hold is refused; none is put in its place.
    pub fn from(fourcc: FourCC) -> (r: Result<G2DFormat, FormatError>)
        ensures
            match r {
                Ok(g) => g.wf() && hardware_id(fourcc) == Some(g.id()),
                Err(e) => e == FormatError::UnsupportedFormat && !supported(fourcc),
            },
    {
        if fourcc == rgb3() {
            Ok(G2DFormat(G2D_RGB888))
        } else if fourcc == rgbx() {
            Ok(G2DFormat(G2D_RGBX8888))
        } else if fourcc == rgba() {
            Ok(G2DFormat(G2D_RGBA8888))
        } else if fourcc == yuyv() {
            Ok(G2DFormat(G2D_YUYV))
        } else if fourcc == nv12() {
            Ok(G2DFormat(G2D_NV12))
        } else {
            Err(FormatError::UnsupportedFormat)
        }
    }

    /// The identifier to hand to the blit engine.
    pub fn format(&self) -> (id: u32)
        ensures
            id == self.id(),
            self.wf(),
    {
        proof {
            use_type_invariant(self);
        }
        self.0
    }

    /// The four-character code of the format: the one that
    /// [`G2DFormat::from`] was given.
    pub fn fourcc(&self) -> (f: FourCC)
        ensures
            format_of_id(self.id()) == Some(f),
            hardware_id(f) == Some(self.id()),
    {
        proof {
            use_type_invariant(self);
        }
        if self.0 == G2D_RGB888 {
            rgb3()
        } else if self.0 == G2D_RGBX8888 {
            rgbx()
        } else if self.0 == G2D_RGBA8888 {
            rgba()
        } else if self.0 == G2D_YUYV {
            yuyv()
        } else {
            nv12()
        }
    }
}

/// The catalog maps each of its formats to an identifier that maps back to
/// the format, and each identifier that it knows to a format that maps back
/// to the identifier.
pub proof fn lemma_catalog_round_trip(format: FourCC, id: u32)
    ensures
        hardware_id(format) == Some(id) <==> format_of_id(id) == Some(format),
        supported(format) ==> format_of_id(hardware_id(format).unwrap()) == Some(format),
{
}

/// The bytes that one row of `width` pixels of a format takes.
pub fn format_row_stride(format: FourCC, width: i32) -> (r: Result<usize, FormatError>)
    ensures
        match r {
            Ok(stride) => sizable(format, width as int, 1) && stride == row_stride(
                format,
                width as int,
            ),
            Err(FormatError::UnsupportedFormat) => !supported(format),
            Err(FormatError::Dimensions) => supported(format) && !sizable(format, width as int, 1),
        },
{
    image_size(width, 1, format)
}

/// The bytes that an image of a format takes.
pub fn image_size(width: i32, height: i32, format: FourCC) -> (r: Result<usize, FormatError>)
    ensures
        match r {
            Ok(size) => sizable(format, width as int, height as int) && size == image_bytes(
                format,
                width as int,
                height as int,
            ),
            Err(FormatError::UnsupportedFormat) => !supported(format),
            Err(FormatError::Dimensions) => supported(format) && !sizable(
                format,
                width as int,
                height as int,
            ),
        },
{
    if !(format == rgb3() || format == rgbx() || format == rgba() || format == yuyv() || format
        == nv12()) {
        return Err(FormatError::UnsupportedFormat);
    }
    if width < 0 || height < 0 {
        return Err(FormatError::Dimensions);
    }
    let w: u64 = width as u64;
    let h: u64 = height as u64;
    let stride: u64 = if format == rgb3() {
        3 * w
    } else if format == rgbx() || format == rgba() {
        4 * w
    } else if format == yuyv() {
        2 * w
    } else {
        w / 2 + w
    };
    assert(stride == row_stride(format, width as int));
    assert(stride * h <= 0x1_ffff_fffc * 0x7fff_ffff) by (nonlinear_arith)
        requires
            stride <= 0x1_ffff_fffc,
            h <= 0x7fff_ffff,
    ;
    let size: u64 = stride * h;
    if stride > usize::MAX as u64 || size > usize::MAX as u64 {
        return Err(FormatError::Dimensions);
    }
    Ok(size as usize)
}

} // verus!
