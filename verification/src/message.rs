//! The message that announces an image to other processes.

use crate::format::image_bytes;
use crate::image::{Image, ImageView};
use vstd::prelude::*;

verus! {

/// What another process needs to reach an image: whose descriptor it is,
/// the descriptor, and how the pixels lie behind it.
#[derive(Clone, Copy, Debug, PartialEq, Eq, Structural)]
pub struct DmaBuffer {
    /// The process that owns the descriptor.
    pub pid: u32,
    /// The descriptor of the image's memory.
    pub fd: i32,
    pub width: u32,
    pub height: u32,
    /// The length of a row, in pixels.
    pub stride: u32,
    /// The image's four-character code, packed.
    pub fourcc: u32,
    /// The bytes that the image takes.
    pub length: u32,
}

/// The message for an image, where the image's size can be said in 32
/// bits.
pub open spec fn dma_message(image: ImageView, pid: u32) -> Option<DmaBuffer> {
    let length = image_bytes(image.format, image.width as int, image.height as int);
    if length <= u32::MAX {
        Some(
            DmaBuffer {
                pid,
                fd: image.fd,
                width: image.width as u32,
                height: image.height as u32,
                stride: image.width as u32,
                fourcc: image.format.packed() as u32,
                length: length as u32,
            },
        )
    } else {
        None
    }
}

/// The message that announces an image of the process `pid`. `None` where
/// the image takes more bytes than the message can say.
pub fn build_dma_msg_image(buf: &Image, pid: u32) -> (r: Option<DmaBuffer>)
    ensures
        r == dma_message(buf@, pid),
{
    let length = buf.size();
    if length > u32::MAX as usize {
        return None;
    }
    let width = buf.width() as u32;
    Some(
        DmaBuffer {
            pid,
            fd: buf.raw_fd(),
            width,
            height: buf.height() as u32,
            stride: width,
            fourcc: buf.format().as_u32(),
            length: length as u32,
        },
    )
}

} // verus!
