//! Image buffers: a rectangle, a hardware buffer as the buffer manager
//! describes it, and an image that lives in such a buffer.

use crate::format::{image_bytes, image_size, row_stride, sizable, supported, FormatError};
use crate::fourcc::FourCC;
use vstd::prelude::*;

verus! {

/// A rectangle of pixels: its top-left corner and its extent.
#[derive(Clone, Copy, Debug, PartialEq, Eq, Structural)]
pub struct Rect {
    pub x: i32,
    pub y: i32,
    pub width: i32,
    pub height: i32,
}

impl Rect {
    /// The rectangle with the given corner and extent.
    pub fn new(x: i32, y: i32, width: i32, height: i32) -> (r: Rect)
        ensures
            r == (Rect { x, y, width, height }),
    {
        Rect { x, y, width, height }
    }
}

/// A buffer as the hardware buffer manager describes it. Every field is a
/// number that the manager gave; none is interpreted here.
#[derive(Clone, Copy, Debug, PartialEq, Eq, Structural)]
pub struct G2DBuffer {
    /// The manager's descriptor of the buffer: what is handed back to free it.
    pub buf: usize,
    /// The manager's handle of the memory.
    pub handle: usize,
    /// Where the memory is mapped in this process.
    pub vaddr: usize,
    /// Where the memory lies on the bus.
    pub paddr: i32,
    /// The bytes that the buffer holds.
    pub size: i32,
}

impl G2DBuffer {
    /// The manager's handle of the memory.
    pub fn buf_handle(&self) -> (h: usize)
        ensures
            h == self.handle,
    {
        self.handle
    }

    /// Where the memory is mapped in this process.
    pub fn buf_vaddr(&self) -> (a: usize)
        ensures
            a == self.vaddr,
    {
        self.vaddr
    }

    /// Where the memory lies on the bus.
    pub fn buf_paddr(&self) -> (a: i32)
        ensures
            a == self.paddr,
    {
        self.paddr
    }

    /// The bytes that the buffer holds.
    pub fn buf_size(&self) -> (n: i32)
        ensures
            n == self.size,
    {
        self.size
    }
}

/// What an [`Image`] holds.
pub struct ImageView {
    /// The descriptor of the backing memory.
    pub fd: i32,
    pub width: i32,
    pub height: i32,
    pub format: FourCC,
}

/// A raw pixel buffer: its dimensions, its format, and the descriptor of the
/// memory behind it. The format is one of the catalog's and the byte size
/// fits the machine, so stride and size are always defined.
#[derive(Clone, Copy, Debug, PartialEq, Eq)]
pub struct Image {
    fd: i32,
    width: i32,
    height: i32,
    format: FourCC,
}

impl View for Image {
    type V = ImageView;

    closed spec fn view(&self) -> ImageView {
        ImageView { fd: self.fd, width: self.width, height: self.height, format: self.format }
    }
}

impl Image {
    #[verifier::type_invariant]
    spec fn sized(self) -> bool {
        sizable(self.format, self.width as int, self.height as int)
    }

    /// Whether the catalog can size the image. Every `Image` that this
    /// library hands out can be sized.
    pub open spec fn wf(self) -> bool {
        sizable(self@.format, self@.width as int, self@.height as int)
    }

    /// The image that holds the given values.
    pub closed spec fn spec_new(fd: i32, width: i32, height: i32, format: FourCC) -> Image {
        Image { fd, width, height, format }
    }

    /// The image made of four values holds them.
    pub broadcast proof fn lemma_spec_new(fd: i32, width: i32, height: i32, format: FourCC)
        ensures
            (#[trigger] Image::spec_new(fd, width, height, format))@ == (ImageView {
                fd,
                width,
                height,
                format,
            }),
    {
    }

    /// The image in memory that is already there, behind `fd`. Refused when
    /// the catalog cannot size it.
    pub fn new_preallocated(fd: i32, width: i32, height: i32, format: FourCC) -> (r: Result<
        Image,
        FormatError,
    >)
        ensures
            match r {
                Ok(image) => image.wf() && image == Image::spec_new(fd, width, height, format)
                    && image@ == (ImageView { fd, width, height, format }),
                Err(FormatError::UnsupportedFormat) => !supported(format),
                Err(FormatError::Dimensions) => supported(format) && !sizable(
                    format,
                    width as int,
                    height as int,
                ),
            },
    {
        match image_size(width, height, format) {
            Ok(_) => Ok(Image { fd, width, height, format }),
            Err(e) => Err(e),
        }
    }

    /// The image in memory that is already there, of a format and of
    /// dimensions that the catalog is known to size.
    pub(crate) fn known(fd: i32, width: i32, height: i32, format: FourCC) -> (image: Image)
        requires
            sizable(format, width as int, height as int),
        ensures
            image.wf(),
            image == Image::spec_new(fd, width, height, format),
            image@ == (ImageView { fd, width, height, format }),
    {
        Image { fd, width, height, format }
    }

    /// The descriptor of the backing memory.
    pub fn raw_fd(&self) -> (fd: i32)
        ensures
            fd == self@.fd,
    {
        self.fd
    }

    /// The width in pixels.
    pub fn width(&self) -> (w: i32)
        ensures
            w == self@.width,
            0 <= w,
    {
        proof {
            use_type_invariant(self);
        }
        self.width
    }

    /// The height in pixels.
    pub fn height(&self) -> (h: i32)
        ensures
            h == self@.height,
            0 <= h,
    {
        proof {
            use_type_invariant(self);
        }
        self.height
    }

    /// The pixel format.
    pub fn format(&self) -> (f: FourCC)
        ensures
            f == self@.format,
            supported(f),
    {
        proof {
            use_type_invariant(self);
        }
        self.format
    }

    /// The bytes that one row takes.
    pub fn row_stride(&self) -> (n: usize)
        ensures
            self.wf(),
            n == row_stride(self@.format, self@.width as int),
    {
        proof {
            use_type_invariant(self);
        }
        match image_size(self.width, 1, self.format) {
            Ok(n) => n,
            Err(_) => 0,
        }
    }

    /// The bytes that the image takes.
    pub fn size(&self) -> (n: usize)
        ensures
            self.wf(),
            n == image_bytes(self@.format, self@.width as int, self@.height as int),
    {
        proof {
            use_type_invariant(self);
        }
        match image_size(self.width, self.height, self.format) {
            Ok(n) => n,
            Err(_) => 0,
        }
    }
}

} // verus!
