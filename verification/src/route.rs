//! Where a recorded message goes: to a decoder, to the bus, or nowhere.

use vstd::prelude::*;

verus! {

/// The schema of messages that hold compressed video.
pub const VIDEO_SCHEMA: &'static str = "foxglove_msgs/msg/CompressedVideo";

/// The schema of messages that hold one compressed image.
pub const IMAGE_SCHEMA: &'static str = "sensor_msgs/msg/CompressedImage";

/// The schema of messages that announce an image buffer.
pub const BUFFER_SCHEMA: &'static str = "edgefirst_msgs/msg/DmaBuffer";

/// How a payload is compressed.
#[derive(Clone, Copy, Debug, PartialEq, Eq, Structural)]
pub enum Codec {
    /// A chunk of an H264 bitstream.
    H264,
    /// One JPEG image.
    Jpeg,
}

/// What to do with a message.
#[derive(Clone, Copy, Debug, PartialEq, Eq, Structural)]
pub struct Routing {
    /// The decoder that the payload goes to, if it goes to one.
    pub decode: Option<Codec>,
    /// Whether the message goes out on the bus as it is.
    pub forward: bool,
}

/// What to do with a message of a schema, given whether video has been seen
/// before. A recorded buffer announcement is dropped: the buffer that it
/// names is gone. Video is decoded; images are decoded as long as no video
/// has been seen. Everything but the announcement is forwarded.
pub open spec fn routing_of(schema: Seq<char>, seen_video: bool) -> Routing {
    if schema == BUFFER_SCHEMA@ {
        Routing { decode: None, forward: false }
    } else if schema == VIDEO_SCHEMA@ {
        Routing { decode: Some(Codec::H264), forward: true }
    } else if schema == IMAGE_SCHEMA@ && !seen_video {
        Routing { decode: Some(Codec::Jpeg), forward: true }
    } else {
        Routing { decode: None, forward: true }
    }
}

/// The name by which a message says that its payload is of a codec.
pub open spec fn format_name(codec: Codec) -> Seq<char> {
    match codec {
        Codec::H264 => "h264"@,
        Codec::Jpeg => "jpeg"@,
    }
}

/// Whether two texts are the same.
fn same_text(a: &str, b: &str) -> (same: bool)
    ensures
        same == (a@ == b@),
{
    a.to_owned() == b.to_owned()
}

/// The router of a replay: it remembers whether video has been seen.
#[derive(Clone, Copy, Debug)]
pub struct Router {
    seen_video: bool,
}

impl View for Router {
    type V = bool;

    closed spec fn view(&self) -> bool {
        self.seen_video
    }
}

impl Router {
    /// A router that has seen no message.
    pub fn new() -> (router: Router)
        ensures
            router@ == false,
    {
        Router { seen_video: false }
    }

    /// Says what to do with a message of the given schema, and remembers
    /// video once it has been seen.
    pub fn route(&mut self, schema: &str) -> (routing: Routing)
        ensures
            routing == routing_of(schema@, old(self)@),
            final(self)@ == (old(self)@ || (schema@ == VIDEO_SCHEMA@ && schema@
                != BUFFER_SCHEMA@)),
    {
        if same_text(schema, BUFFER_SCHEMA) {
            return Routing { decode: None, forward: false };
        }
        if same_text(schema, VIDEO_SCHEMA) {
            self.seen_video = true;
            return Routing { decode: Some(Codec::H264), forward: true };
        }
        if !self.seen_video && same_text(schema, IMAGE_SCHEMA) {
            return Routing { decode: Some(Codec::Jpeg), forward: true };
        }
        Routing { decode: None, forward: true }
    }

    /// Whether a payload that calls its format `format` is of the codec.
    pub fn accepts(codec: Codec, format: &str) -> (accepted: bool)
        ensures
            accepted == (format@ == format_name(codec)),
    {
        match codec {
            Codec::H264 => same_text(format, "h264"),
            Codec::Jpeg => same_text(format, "jpeg"),
        }
    }
}

} // verus!
