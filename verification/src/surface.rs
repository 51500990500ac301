//! Surfaces: what the blit engine is told about a rectangle of pixels in
//! memory, and how one is laid out for a frame or an image.

use crate::format::{hardware_id, planar, supported, G2DFormat};
use crate::fourcc::FourCC;
use crate::image::{Image, ImageView, Rect};
use crate::manager::ConversionError;
use crate::physical::{BufferHandle, G2DPhysical};
use vstd::prelude::*;

verus! {

/// Blending switched off.
pub const BLEND_NONE: u32 = 0;

/// Every pixel fully opaque.
pub const ALPHA_OPAQUE: i32 = 255;

/// The colour that clears a surface, unused by a blit.
pub const CLEAR_COLOR: i32 = 0;

/// No rotation.
pub const ROTATION_NONE: u32 = 0;

/// A decoded frame as the decoder describes it.
#[derive(Clone, Copy, Debug, PartialEq, Eq, Structural)]
pub struct FrameInfo {
    /// The frame's address on the bus, where the decoder knows it.
    pub paddr: Option<u64>,
    /// The descriptor of the frame's memory.
    pub fd: i32,
    /// The frame's four-character code, packed.
    pub fourcc: u32,
    pub width: i32,
    pub height: i32,
}

impl FrameInfo {
    /// The frame's pixel format.
    pub open spec fn format(self) -> FourCC {
        FourCC::unpacked(self.fourcc as int)
    }

    /// What names the frame's buffer: its address where the decoder knows
    /// it, and the descriptor of its memory otherwise.
    pub open spec fn spec_handle(self) -> BufferHandle {
        match self.paddr {
            Some(address) => BufferHandle::Physical(address),
            None => BufferHandle::Descriptor(self.fd),
        }
    }

    /// What names the frame's buffer: its address where the decoder knows
    /// it, and the descriptor of its memory otherwise.
    #[verifier::when_used_as_spec(spec_handle)]
    pub fn handle(self) -> (h: BufferHandle)
        ensures
            h == self.spec_handle(),
    {
        match self.paddr {
            Some(address) => BufferHandle::Physical(address),
            None => BufferHandle::Descriptor(self.fd),
        }
    }
}

/// What the blit engine is told about one side of a blit. The fields after
/// `height` have to be filled in though no blit here uses what they switch
/// on: they are always the neutral values.
#[allow(non_camel_case_types)]
#[derive(Clone, Copy, Debug, PartialEq, Eq)]
pub struct g2d_surface_new {
    /// The format, by the engine's identifier.
    pub format: u32,
    /// The address of each plane; zero for a plane that the format lacks.
    pub planes: [u64; 3],
    pub left: i32,
    pub top: i32,
    pub right: i32,
    pub bottom: i32,
    /// The length of a row, in pixels.
    pub stride: i32,
    pub width: i32,
    pub height: i32,
    pub blendfunc: u32,
    pub global_alpha: i32,
    pub clrcolor: i32,
    pub rot: u32,
}

/// The bytes of a frame's luma plane: one per pixel.
pub open spec fn luma_bytes(width: int, height: int) -> int {
    width * height
}

/// The bytes of one of a frame's chroma planes: a quarter of the luma
/// plane's, rounded down.
pub open spec fn chroma_bytes(width: int, height: int) -> int {
    luma_bytes(width, height) / 4
}

/// Where the three planes of a surface lie. A planar format has its luma
/// plane at the base and the two chroma planes behind it, one after the
/// other; any other format has one plane, at the base, and zero twice.
pub open spec fn plane_addresses(format: FourCC, base: int, width: int, height: int) -> Seq<int> {
    if planar(format) {
        seq![
            base,
            base + luma_bytes(width, height),
            base + luma_bytes(width, height) + chroma_bytes(width, height),
        ]
    } else {
        seq![base, 0, 0]
    }
}

/// Whether a surface can be laid out: neither dimension is negative and
/// every plane's address fits 64 bits.
pub open spec fn addressable(format: FourCC, base: int, width: int, height: int) -> bool {
    &&& 0 <= width
    &&& 0 <= height
    &&& plane_addresses(format, base, width, height)[2] <= u64::MAX
}

/// Why no surface can be made of a buffer, if there is a reason: the first
/// that holds of an unknown format, an address that is not resolved, and a
/// layout that does not fit the machine.
pub open spec fn surface_fault(format: FourCC, phys: G2DPhysical, width: i32, height: i32) -> Option<
    ConversionError,
> {
    if !supported(format) {
        Some(ConversionError::UnsupportedFormat)
    } else if !phys.is_resolved() {
        Some(ConversionError::Unresolved)
    } else if !addressable(format, phys.0 as int, width as int, height as int) {
        Some(ConversionError::Geometry)
    } else {
        None
    }
}

/// The surface that covers all of a buffer of the given format and
/// dimensions at the given address.
pub open spec fn full_surface(format: FourCC, phys: G2DPhysical, width: i32, height: i32)
    -> g2d_surface_new {
    let planes = plane_addresses(format, phys.0 as int, width as int, height as int);
    g2d_surface_new {
        format: hardware_id(format).unwrap(),
        planes: [planes[0] as u64, planes[1] as u64, planes[2] as u64],
        left: 0,
        top: 0,
        right: width,
        bottom: height,
        stride: width,
        width,
        height,
        blendfunc: BLEND_NONE,
        global_alpha: ALPHA_OPAQUE,
        clrcolor: CLEAR_COLOR,
        rot: ROTATION_NONE,
    }
}

/// Whether the far edges of a rectangle are numbers that a surface can hold.
pub open spec fn croppable(rect: Rect) -> bool {
    &&& i32::MIN <= rect.x + rect.width <= i32::MAX
    &&& i32::MIN <= rect.y + rect.height <= i32::MAX
}

/// A surface narrowed to a rectangle: the same memory, with the region set
/// to the rectangle.
pub open spec fn cropped(surface: g2d_surface_new, rect: Rect) -> g2d_surface_new {
    g2d_surface_new {
        left: rect.x,
        top: rect.y,
        right: (rect.x + rect.width) as i32,
        bottom: (rect.y + rect.height) as i32,
        ..surface
    }
}

/// The surface of a buffer, or why there is none.
pub open spec fn surface_of(format: FourCC, phys: G2DPhysical, width: i32, height: i32) -> Result<
    g2d_surface_new,
    ConversionError,
> {
    match surface_fault(format, phys, width, height) {
        Some(e) => Err(e),
        None => Ok(full_surface(format, phys, width, height)),
    }
}

/// The surface to read a frame from: all of the frame, or the part inside
/// the crop rectangle where one is given.
pub open spec fn source_of(frame: FrameInfo, phys: G2DPhysical, crop: Option<Rect>) -> Result<
    g2d_surface_new,
    ConversionError,
> {
    match surface_of(frame.format(), phys, frame.width, frame.height) {
        Err(e) => Err(e),
        Ok(surface) => match crop {
            None => Ok(surface),
            Some(rect) => if croppable(rect) {
                Ok(cropped(surface, rect))
            } else {
                Err(ConversionError::Geometry)
            },
        },
    }
}

/// The surface to write an image to: all of the image.
pub open spec fn destination_of(image: ImageView, phys: G2DPhysical) -> Result<
    g2d_surface_new,
    ConversionError,
> {
    surface_of(image.format, phys, image.width, image.height)
}

impl g2d_surface_new {
    /// The surface that covers all of a buffer.
    pub fn new(format: FourCC, phys: G2DPhysical, width: i32, height: i32) -> (r: Result<
        g2d_surface_new,
        ConversionError,
    >)
        ensures
            r == surface_of(format, phys, width, height),
    {
        let id = match G2DFormat::from(format) {
            Ok(id) => id,
            Err(_) => {
                return Err(ConversionError::UnsupportedFormat);
            },
        };
        if !phys.is_resolved() {
            return Err(ConversionError::Unresolved);
        }
        if width < 0 || height < 0 {
            return Err(ConversionError::Geometry);
        }
        let base: u64 = phys.address();
        let w: u64 = width as u64;
        let h: u64 = height as u64;
        assert(w * h <= 0x7fff_ffff * 0x7fff_ffff) by (nonlinear_arith)
            requires
                w <= 0x7fff_ffff,
                h <= 0x7fff_ffff,
        ;
        let planes: [u64; 3] = if format == crate::fourcc::nv12() {
            let luma: u64 = w * h;
            let chroma: u64 = luma / 4;
            if base > u64::MAX - luma - chroma {
                return Err(ConversionError::Geometry);
            }
            [base, base + luma, base + luma + chroma]
        } else {
            [base, 0, 0]
        };
        let surface = g2d_surface_new {
            format: id.format(),
            planes,
            left: 0,
            top: 0,
            right: width,
            bottom: height,
            stride: width,
            width,
            height,
            blendfunc: BLEND_NONE,
            global_alpha: ALPHA_OPAQUE,
            clrcolor: CLEAR_COLOR,
            rot: ROTATION_NONE,
        };
        proof {
            let expected = full_surface(format, phys, width, height);
            assert(surface.planes@ =~= expected.planes@);
        }
        Ok(surface)
    }

    /// The surface that covers all of a decoded frame.
    pub fn from(frame: &FrameInfo, phys: G2DPhysical) -> (r: Result<
        g2d_surface_new,
        ConversionError,
    >)
        ensures
            r == source_of(*frame, phys, None),
    {
        g2d_surface_new::new(FourCC::from_u32(frame.fourcc), phys, frame.width, frame.height)
    }

    /// The surface that covers all of an image.
    pub fn from_image(image: &Image, phys: G2DPhysical) -> (r: Result<
        g2d_surface_new,
        ConversionError,
    >)
        ensures
            r == destination_of(image@, phys),
    {
        g2d_surface_new::new(image.format(), phys, image.width(), image.height())
    }

    /// The surface narrowed to a rectangle. Refused when a far edge of the
    /// rectangle is not a number that a surface can hold.
    pub fn crop(self, rect: &Rect) -> (r: Result<g2d_surface_new, ConversionError>)
        ensures
            croppable(*rect) ==> r == Ok::<g2d_surface_new, ConversionError>(cropped(self, *rect)),
            !croppable(*rect) ==> r == Err::<g2d_surface_new, ConversionError>(
                ConversionError::Geometry,
            ),
    {
        let right = match rect.x.checked_add(rect.width) {
            Some(v) => v,
            None => {
                return Err(ConversionError::Geometry);
            },
        };
        let bottom = match rect.y.checked_add(rect.height) {
            Some(v) => v,
            None => {
                return Err(ConversionError::Geometry);
            },
        };
        Ok(g2d_surface_new { left: rect.x, top: rect.y, right, bottom, ..self })
    }
}

/// The planes of a planar frame lie one behind the other: the second starts
/// where the luma plane ends, a pixel count behind the first, and the third
/// a quarter of a pixel count behind the second.
pub proof fn lemma_planar_planes(format: FourCC, phys: G2DPhysical, width: i32, height: i32)
    requires
        planar(format),
        surface_fault(format, phys, width, height) is None,
    ensures
        full_surface(format, phys, width, height).planes[0] == phys.0,
        full_surface(format, phys, width, height).planes[1] == phys.0 + width * height,
        full_surface(format, phys, width, height).planes[2] == full_surface(
            format,
            phys,
            width,
            height,
        ).planes[1] + width * height / 4,
{
    assert(0 <= width * height) by (nonlinear_arith)
        requires
            0 <= width,
            0 <= height,
    ;
}

/// A format that is not planar has one plane, at the buffer's address.
pub proof fn lemma_packed_planes(format: FourCC, phys: G2DPhysical, width: i32, height: i32)
    requires
        !planar(format),
    ensures
        full_surface(format, phys, width, height).planes@ == seq![phys.0, 0u64, 0u64],
{
    assert(full_surface(format, phys, width, height).planes@ =~= seq![phys.0, 0u64, 0u64]);
}

/// A cropped surface reads the rectangle and nothing else: its region starts
/// at the rectangle's corner and has the rectangle's extent, while the
/// memory, the format and the row length stay those of the whole surface.
pub proof fn lemma_crop_region(surface: g2d_surface_new, rect: Rect)
    requires
        croppable(rect),
    ensures
        cropped(surface, rect).left == rect.x,
        cropped(surface, rect).top == rect.y,
        cropped(surface, rect).right - cropped(surface, rect).left == rect.width,
        cropped(surface, rect).bottom - cropped(surface, rect).top == rect.height,
        cropped(surface, rect).planes == surface.planes,
        cropped(surface, rect).format == surface.format,
        cropped(surface, rect).stride == surface.stride,
        cropped(surface, rect).width == surface.width,
        cropped(surface, rect).height == surface.height,
{
}

} // verus!
