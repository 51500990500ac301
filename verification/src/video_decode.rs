//! The decode session: one video stream's way from compressed messages to
//! images in a pool of four hardware buffers.
//!
//! The session owns no hardware. Each step ends in an [`Action`] that names
//! what the hardware has to do next, and the session goes on when it is
//! told, as an [`Event`], how that went. What the session decides is a
//! function of its state and the event, [`Session::next`], and the action
//! that it asks for is a function of its state, [`Session::pending`]; both
//! stand with the session's model, and what holds of every session stands
//! with its laws.

use crate::format::image_size;
use crate::fourcc::rgba;
use crate::image::{G2DBuffer, Image, Rect};
use crate::manager::{AllocError, BlitPlan, ConversionError, ImageManager};
use crate::physical::{AddressQuery, BufferHandle};
use crate::session::{
    lemma_accept_h264_wf, lemma_accept_jpeg_wf, lemma_next_wf, Attempt, Resume, Session, Stage,
};
use crate::surface::FrameInfo;
use vstd::prelude::*;
use vstd::slice::slice_subrange;

verus! {

/// The number of buffers in a session's pool.
pub const BUF_COUNT: usize = 4;

/// How often the decoder is fed while one message is handled.
pub const DECODE_ATTEMPTS: usize = 3;

/// The bytes per pixel of the images that a session hands out.
pub const OUTPUT_CHANNELS: i32 = 4;

/// One buffer of the pool and the image that lives in it.
#[derive(Clone, Copy, Debug, PartialEq, Eq)]
pub struct PoolSlot {
    pub buffer: G2DBuffer,
    pub image: Image,
}

/// Why a message gave no image.
#[derive(Clone, Copy, Debug, PartialEq, Eq, Structural)]
pub enum DecodeError {
    /// The decoder reported an error that it cannot recover from.
    DecodeFailure,
    /// The decoder was fed as often as allowed, gave no frame and left
    /// input unread.
    Incomplete,
    /// The pool could not be allocated.
    AllocationFailure(AllocError),
    /// The frame could not be converted into its slot.
    ConversionFailure(ConversionError),
    /// The decoded pixels are fewer than the slot's image takes.
    UndersizedSource,
    /// The slot's memory could not be mapped.
    MapFailure,
}

impl DecodeError {
    /// Whether the error is one of the session and not of the message: a
    /// pool that could not be allocated.
    pub open spec fn spec_halts(self) -> bool {
        self is AllocationFailure
    }

    /// Whether the replay has to stop on the error. An error of a message
    /// costs that message and the replay goes on with the next; a pool
    /// that could not be allocated ends the replay.
    #[verifier::when_used_as_spec(spec_halts)]
    pub fn halts(self) -> (halts: bool)
        ensures
            halts == self.spec_halts(),
    {
        match self {
            DecodeError::AllocationFailure(_) => true,
            _ => false,
        }
    }
}

/// What a message comes to: an image, nothing yet, or an error.
pub type Outcome = Result<Option<Image>, DecodeError>;

/// What the decoder said of one feeding.
#[derive(Clone, Copy, Debug, PartialEq, Eq, Structural)]
pub struct DecodeOutcome {
    /// Whether the decoder has just learnt the stream's parameters.
    pub initialized: bool,
    /// How many of the bytes fed the decoder has read.
    pub bytes: usize,
    /// The frame that the decoder produced, if it produced one.
    pub frame: Option<FrameInfo>,
    /// The part of a frame that holds the picture, as the decoder sees it
    /// now.
    pub crop: Rect,
}

/// How copying into a slot's memory went.
#[derive(Clone, Copy, Debug, PartialEq, Eq, Structural)]
pub enum CopyOutcome {
    /// The bytes are in place and the memory is unmapped again.
    Copied,
    /// The memory could not be mapped; nothing was copied.
    MapFailed,
    /// The bytes are in place, but the memory could not be unmapped.
    UnmapFailed,
}

/// What the hardware did.
#[derive(Clone, Copy, Debug, PartialEq, Eq, Structural)]
pub enum Event {
    /// The decoder took a feeding.
    Decoded(DecodeOutcome),
    /// The decoder reported an error that it cannot recover from.
    DecodeFailed,
    /// The buffer manager gave a buffer, exported under `fd`.
    Allocated { buffer: G2DBuffer, fd: i32 },
    /// The buffer manager gave no buffer.
    AllocationFailed,
    /// A buffer went back to the buffer manager.
    Released,
    /// The device was asked where a descriptor's memory lies.
    Resolved(AddressQuery),
    /// The blit was issued, with this status.
    Blitted(i32),
    /// The engine was told to finish, with this status.
    Finished(i32),
    /// The destination's cache lines were invalidated.
    Invalidated,
    /// The decoded pixels were copied, or not.
    Copied(CopyOutcome),
}

/// What the hardware is to do next.
#[derive(Clone, Copy, Debug, PartialEq, Eq)]
pub enum Action {
    /// Feed the decoder the session's input from `offset` on.
    Decode { offset: usize },
    /// Ask the buffer manager for a buffer of `size` bytes and export it.
    Allocate { size: i32 },
    /// Give the buffer back to the buffer manager.
    Release { buffer: G2DBuffer },
    /// Ask the device where the memory behind `fd` lies.
    Resolve { fd: i32 },
    /// Blit from the plan's source to its destination.
    Blit(BlitPlan),
    /// Wait until the engine has finished.
    Finish,
    /// Invalidate the cache lines of the buffer, which the engine wrote.
    Invalidate { buffer: G2DBuffer },
    /// Map the memory behind `fd`, copy the first `len` decoded bytes into
    /// it and unmap it.
    Copy { fd: i32, len: usize },
    /// Nothing: the message is done, with this outcome.
    Done(Outcome),
}

/// One step in taking a session down.
#[derive(Clone, Copy, Debug, PartialEq, Eq, Structural)]
pub enum Teardown {
    /// Give the buffer back to the buffer manager.
    FreeBuffer(G2DBuffer),
    /// Let the decoder go.
    ReleaseDecoder,
    /// Close the blit engine.
    CloseEngine,
}

/// The steps that take a session down: every buffer that it holds goes
/// back, the pool's before those in hand, then the decoder is let go, and
/// the engine is closed last.
pub open spec fn teardown_of(s: Session) -> Seq<Teardown> {
    (s.pool + s.pending).map_values(|slot: PoolSlot| Teardown::FreeBuffer(slot.buffer)) + seq![
        Teardown::ReleaseDecoder,
        Teardown::CloseEngine,
    ]
}

/// A decode session: the pool, the decoder's input and the count of the
/// images handed out, for one video stream.
pub struct VideoDecoder {
    pool: Vec<PoolSlot>,
    pending: Vec<PoolSlot>,
    last_data: Vec<u8>,
    pixels: Vec<u8>,
    frame_count: usize,
    stage: Stage,
}

impl View for VideoDecoder {
    type V = Session;

    closed spec fn view(&self) -> Session {
        Session {
            pool: self.pool@,
            pending: self.pending@,
            carry: self.last_data@,
            pixels: self.pixels@,
            frame_count: self.frame_count,
            stage: self.stage,
        }
    }
}

impl VideoDecoder {
    /// Whether the session is one that its steps can reach. Every session
    /// that this library hands out is.
    pub open spec fn wf(&self) -> bool {
        self@.wf()
    }

    /// A session that has seen nothing: no pool, no input, no image.
    pub fn new() -> (decoder: VideoDecoder)
        ensures
            decoder.wf(),
            decoder@ == Session::fresh(),
    {
        VideoDecoder {
            pool: Vec::new(),
            pending: Vec::new(),
            last_data: Vec::new(),
            pixels: Vec::new(),
            frame_count: 0,
            stage: Stage::Idle { last: Ok(None) },
        }
    }

    /// The images handed out so far.
    pub fn frame_count(&self) -> (n: usize)
        ensures
            n == self@.frame_count,
    {
        self.frame_count
    }

    /// Whether the session waits for a message.
    pub fn is_idle(&self) -> (idle: bool)
        ensures
            idle == (self@.stage is Idle),
    {
        match self.stage {
            Stage::Idle { .. } => true,
            _ => false,
        }
    }

    /// The slots of the pool: none, or `BUF_COUNT`.
    pub fn frames(&self) -> (slots: &Vec<PoolSlot>)
        ensures
            slots@ == self@.pool,
    {
        &self.pool
    }

    /// The bytes to feed the decoder: the input from where the decoder has
    /// read to, while the session waits for the decoder, and nothing
    /// otherwise.
    pub fn input(&self) -> (bytes: &[u8])
        requires
            self.wf(),
        ensures
            bytes@ == match self@.stage {
                Stage::Decoding { run } => self@.carry.subrange(
                    run.consumed as int,
                    self@.carry.len() as int,
                ),
                _ => Seq::empty(),
            },
    {
        match self.stage {
            Stage::Decoding { run } => slice_subrange(
                self.last_data.as_slice(),
                run.consumed,
                self.last_data.len(),
            ),
            _ => slice_subrange(self.last_data.as_slice(), 0, 0),
        }
    }

    /// The bytes to copy into the slot: as many of the decoded pixels as
    /// the slot's image takes, while the session waits for the copy, and
    /// nothing otherwise.
    pub fn copy_source(&self) -> (bytes: &[u8])
        requires
            self.wf(),
        ensures
            bytes@ == match self@.stage {
                Stage::Copying { len } => self@.pixels.subrange(0, len as int),
                _ => Seq::empty(),
            },
    {
        match self.stage {
            Stage::Copying { len } => slice_subrange(self.pixels.as_slice(), 0, len),
            _ => slice_subrange(self.pixels.as_slice(), 0, 0),
        }
    }

    /// The action that the session waits for the result of.
    pub fn pending(&self) -> (action: Action)
        requires
            self.wf(),
        ensures
            action == self@.pending(),
    {
        match self.stage {
            Stage::Idle { last } => Action::Done(last),
            Stage::Decoding { run } => Action::Decode { offset: run.consumed },
            Stage::Allocating { size, .. } => Action::Allocate { size },
            Stage::Releasing { .. } => Action::Release {
                buffer: self.pending[self.pending.len() - 1].buffer,
            },
            Stage::ResolvingSource { frame, .. } => Action::Resolve { fd: frame.fd },
            Stage::ResolvingDestination { .. } => Action::Resolve {
                fd: self.pool[self.frame_count % BUF_COUNT].image.raw_fd(),
            },
            Stage::Blitting { plan, .. } => Action::Blit(plan),
            Stage::Finishing { .. } => Action::Finish,
            Stage::Invalidating { .. } => Action::Invalidate {
                buffer: self.pool[self.frame_count % BUF_COUNT].buffer,
            },
            Stage::Copying { len } => Action::Copy {
                fd: self.pool[self.frame_count % BUF_COUNT].image.raw_fd(),
                len,
            },
        }
    }

    fn settle(&mut self, last: Outcome)
        ensures
            final(self)@ == old(self)@.settled(last),
    {
        self.pixels = Vec::new();
        self.stage = Stage::Idle { last };
    }

    fn emit(&mut self)
        requires
            old(self)@.pool.len() == BUF_COUNT,
            old(self)@.frame_count < usize::MAX,
        ensures
            final(self)@ == old(self)@.emitted(),
    {
        let image = self.pool[self.frame_count % BUF_COUNT].image;
        self.frame_count = self.frame_count + 1;
        self.settle(Ok(Some(image)));
    }

    fn rewind(&mut self, total: usize)
        requires
            total <= old(self)@.carry.len(),
        ensures
            final(self)@ == old(self)@.rewound(total),
    {
        let start = self.last_data.len() - total;
        let tail = self.last_data.split_off(start);
        self.last_data = tail;
    }

    fn start_allocating(&mut self, width: i32, height: i32, resume: Resume)
        ensures
            final(self)@ == old(self)@.allocating(width as int, height as int, resume),
    {
        let request = ImageManager::new().alloc_size(width, height, OUTPUT_CHANNELS);
        let sized = image_size(width, height, rgba());
        match (request, sized) {
            (Ok(size), Ok(_)) => {
                self.stage = Stage::Allocating { width, height, size, resume };
            },
            _ => {
                self.settle(Err(DecodeError::AllocationFailure(AllocError::Size)));
            },
        }
    }

    fn start_converting(&mut self, total: usize, frame: FrameInfo, crop: Rect)
        ensures
            final(self)@ == old(self)@.converting_frame(total, frame, crop),
    {
        let handle = frame.handle();
        match handle.descriptor() {
            Some(_) => {
                self.stage = Stage::ResolvingSource { total, frame, crop };
            },
            None => {
                self.stage = Stage::ResolvingDestination {
                    total,
                    frame,
                    crop,
                    source: handle.resolve(AddressQuery::Failed),
                };
            },
        }
    }

    fn start_copying(&mut self)
        requires
            old(self)@.pool.len() == BUF_COUNT,
            old(self)@.pool_uniform(),
        ensures
            final(self)@ == old(self)@.copying(),
    {
        let len = self.pool[self.frame_count % BUF_COUNT].image.size();
        if self.pixels.len() < len {
            self.settle(Err(DecodeError::UndersizedSource));
        } else {
            self.stage = Stage::Copying { len };
        }
    }

    fn feed(&mut self, run: Attempt, outcome: DecodeOutcome)
        requires
            old(self)@.fits(run),
        ensures
            final(self)@ == old(self)@.fed(run, outcome),
    {
        match outcome.frame {
            Some(frame) => {
                if self.pool.len() == 0 {
                    self.settle(Ok(None));
                } else {
                    self.start_converting(run.total, frame, outcome.crop);
                }
            },
            None => {
                let available = self.last_data.len();
                let consumed = if outcome.bytes >= available - run.consumed {
                    available
                } else {
                    run.consumed + outcome.bytes
                };
                if run.attempt + 1 < DECODE_ATTEMPTS {
                    self.stage = Stage::Decoding {
                        run: Attempt { consumed, attempt: run.attempt + 1, total: run.total },
                    };
                } else {
                    self.rewind(run.total);
                    if consumed >= run.total {
                        self.settle(Ok(None));
                    } else {
                        self.settle(Err(DecodeError::Incomplete));
                    }
                }
            },
        }
    }

    fn take_buffer(&mut self, width: i32, height: i32, resume: Resume, buffer: G2DBuffer, fd: i32)
        requires
            old(self).wf(),
            old(self)@.stage matches Stage::Allocating { width: w, height: h, resume: r, .. } && w
                == width && h == height && r == resume,
        ensures
            final(self)@ == old(self)@.allocated(width, height, resume, buffer, fd),
    {
        let image = Image::known(fd, width, height, rgba());
        self.pending.push(PoolSlot { buffer, image });
        if self.pending.len() >= BUF_COUNT {
            core::mem::swap(&mut self.pool, &mut self.pending);
            proof {
                broadcast use Image::lemma_spec_new;

                assert(self.pending@ =~= Seq::<PoolSlot>::empty());
                assert(self@.pool_uniform());
            }
            match resume {
                Resume::H264 { run, outcome } => {
                    self.feed(run, outcome);
                },
                Resume::Jpeg => {
                    self.start_copying();
                },
            }
        }
    }

    /// Takes an H264 message: appends it to the decoder's input and asks
    /// for the decoder to be fed. While another message is in hand the
    /// message is not taken, and the action is the one that is still
    /// waited for.
    pub fn decode_h264_msg(&mut self, data: &[u8]) -> (action: Action)
        requires
            old(self).wf(),
            old(self)@.frame_count < usize::MAX,
        ensures
            final(self).wf(),
            final(self)@ == old(self)@.accept_h264(data@),
            action == final(self)@.pending(),
    {
        let total = data.len();
        proof {
            lemma_accept_h264_wf(self@, data@);
        }
        if self.is_idle() {
            self.last_data.extend_from_slice(data);
            self.stage = Stage::Decoding { run: Attempt { consumed: 0, attempt: 0, total } };
            assert(self@.carry =~= old(self)@.carry + data@);
        }
        self.pending()
    }

    /// Takes a JPEG message that has been decoded into `pixels`, four bytes
    /// a pixel, row after row. Asks for the pool to be allocated where
    /// there is none, and for the pixels to be copied into the next slot
    /// otherwise. While another message is in hand the message is not
    /// taken, and the action is the one that is still waited for.
    pub fn decode_jpeg_msg(&mut self, width: u32, height: u32, pixels: Vec<u8>) -> (action: Action)
        requires
            old(self).wf(),
            old(self)@.frame_count < usize::MAX,
        ensures
            final(self).wf(),
            final(self)@ == old(self)@.accept_jpeg(width, height, pixels@),
            action == final(self)@.pending(),
    {
        proof {
            lemma_accept_jpeg_wf(self@, width, height, pixels@);
        }
        if self.is_idle() {
            self.pixels = pixels;
            if self.pool.len() == 0 {
                if width > i32::MAX as u32 || height > i32::MAX as u32 {
                    self.settle(Err(DecodeError::AllocationFailure(AllocError::Size)));
                } else {
                    self.start_allocating(width as i32, height as i32, Resume::Jpeg);
                }
            } else {
                self.start_copying();
            }
        }
        self.pending()
    }

    /// Takes what the hardware did and says what it is to do next. An
    /// event that the session does not wait for changes nothing, and the
    /// action is the one that is still waited for.
    pub fn advance(&mut self, event: Event) -> (action: Action)
        requires
            old(self).wf(),
        ensures
            final(self).wf(),
            final(self)@ == old(self)@.next(event),
            action == final(self)@.pending(),
    {
        proof {
            lemma_next_wf(self@, event);
        }
        match (self.stage, event) {
            (Stage::Decoding { run }, Event::Decoded(outcome)) => {
                if outcome.initialized && self.pool.len() == 0 {
                    self.start_allocating(
                        outcome.crop.width,
                        outcome.crop.height,
                        Resume::H264 { run, outcome },
                    );
                } else {
                    self.feed(run, outcome);
                }
            },
            (Stage::Decoding { .. }, Event::DecodeFailed) => {
                self.settle(Err(DecodeError::DecodeFailure));
            },
            (Stage::Allocating { width, height, resume, .. }, Event::Allocated { buffer, fd }) => {
                self.take_buffer(width, height, resume, buffer, fd);
            },
            (Stage::Allocating { .. }, Event::AllocationFailed) => {
                if self.pending.len() == 0 {
                    self.settle(Err(DecodeError::AllocationFailure(AllocError::Refused)));
                } else {
                    self.stage = Stage::Releasing { error: AllocError::Refused };
                }
            },
            (Stage::Releasing { error }, Event::Released) => {
                self.pending.pop();
                assert(self.pending@ =~= old(self)@.pending.drop_last());
                if self.pending.len() == 0 {
                    self.settle(Err(DecodeError::AllocationFailure(error)));
                }
            },
            (Stage::ResolvingSource { total, frame, crop }, Event::Resolved(query)) => {
                self.stage = Stage::ResolvingDestination {
                    total,
                    frame,
                    crop,
                    source: frame.handle().resolve(query),
                };
            },
            (
                Stage::ResolvingDestination { total, frame, crop, source },
                Event::Resolved(query),
            ) => {
                let image = self.pool[self.frame_count % BUF_COUNT].image;
                let destination = BufferHandle::Descriptor(image.raw_fd()).resolve(query);
                match ImageManager::new().convert_phys(
                    &frame,
                    source,
                    &image,
                    destination,
                    &Some(crop),
                ) {
                    Ok(plan) => {
                        self.stage = Stage::Blitting { total, plan };
                    },
                    Err(e) => {
                        self.settle(Err(DecodeError::ConversionFailure(e)));
                    },
                }
            },
            (Stage::Blitting { total, .. }, Event::Blitted(status)) => {
                match ImageManager::new().blit_result(status) {
                    Ok(_) => {
                        self.stage = Stage::Finishing { total };
                    },
                    Err(e) => {
                        self.settle(Err(DecodeError::ConversionFailure(e)));
                    },
                }
            },
            (Stage::Finishing { total }, Event::Finished(status)) => {
                match ImageManager::new().finish_result(status) {
                    Ok(_) => {
                        self.stage = Stage::Invalidating { total };
                    },
                    Err(e) => {
                        self.settle(Err(DecodeError::ConversionFailure(e)));
                    },
                }
            },
            (Stage::Invalidating { total }, Event::Invalidated) => {
                self.rewind(total);
                self.emit();
            },
            (Stage::Copying { .. }, Event::Copied(outcome)) => {
                match outcome {
                    CopyOutcome::MapFailed => {
                        self.settle(Err(DecodeError::MapFailure));
                    },
                    _ => {
                        self.emit();
                    },
                }
            },
            _ => {},
        }
        self.pending()
    }

    /// Ends the session and says how to take it down: the steps of
    /// [`teardown_of`], in their order.
    pub fn close(self) -> (steps: Vec<Teardown>)
        ensures
            steps@ == teardown_of(self@),
    {
        let mut steps: Vec<Teardown> = Vec::new();
        let ghost free = |slot: PoolSlot| Teardown::FreeBuffer(slot.buffer);
        let mut i: usize = 0;
        while i < self.pool.len()
            invariant
                i <= self.pool.len(),
                free == |slot: PoolSlot| Teardown::FreeBuffer(slot.buffer),
                steps@ == self.pool@.subrange(0, i as int).map_values(free),
            decreases self.pool.len() - i,
        {
            steps.push(Teardown::FreeBuffer(self.pool[i].buffer));
            i = i + 1;
            assert(steps@ =~= self.pool@.subrange(0, i as int).map_values(free));
        }
        let mut j: usize = 0;
        while j < self.pending.len()
            invariant
                i == self.pool.len(),
                j <= self.pending.len(),
                free == |slot: PoolSlot| Teardown::FreeBuffer(slot.buffer),
                steps@ == (self.pool@ + self.pending@.subrange(0, j as int)).map_values(free),
            decreases self.pending.len() - j,
        {
            steps.push(Teardown::FreeBuffer(self.pending[j].buffer));
            j = j + 1;
            assert(steps@ =~= (self.pool@ + self.pending@.subrange(0, j as int)).map_values(
                free,
            ));
        }
        steps.push(Teardown::ReleaseDecoder);
        steps.push(Teardown::CloseEngine);
        assert(steps@ =~= teardown_of(self@));
        steps
    }
}

} // verus!
