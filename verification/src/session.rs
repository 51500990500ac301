//! The decode session as a value: what it holds, which of its states can
//! be reached, and how it goes from one to the next.

use crate::format::{image_bytes, sizable};
use crate::fourcc::rgba;
use crate::image::{G2DBuffer, Image, Rect};
use crate::manager::{
    allocatable, blit_outcome, blit_plan, buffer_bytes, finish_outcome, AllocError, BlitPlan,
};
use crate::physical::{AddressQuery, G2DPhysical};
use crate::surface::FrameInfo;
use crate::video_decode::{
    Action, CopyOutcome, DecodeError, DecodeOutcome, Event, Outcome, PoolSlot, BUF_COUNT,
    DECODE_ATTEMPTS, OUTPUT_CHANNELS,
};
use vstd::prelude::*;

verus! {

/// How far the feeding of one H264 message has come.
#[derive(Clone, Copy, Debug, PartialEq, Eq, Structural)]
pub struct Attempt {
    /// The bytes of the input that the decoder has read.
    pub consumed: usize,
    /// The feedings that are over.
    pub attempt: usize,
    /// The length of the message.
    pub total: usize,
}

/// What a session goes on with once its pool is allocated.
#[derive(Clone, Copy, Debug, PartialEq, Eq, Structural)]
pub enum Resume {
    /// With what the decoder said when it asked for the pool.
    H264 { run: Attempt, outcome: DecodeOutcome },
    /// With copying the decoded pixels.
    Jpeg,
}

/// What a session waits for.
#[derive(Clone, Copy, Debug, PartialEq, Eq)]
pub enum Stage {
    /// For a message. `last` is what the message before came to.
    Idle { last: Outcome },
    /// For the decoder to take a feeding.
    Decoding { run: Attempt },
    /// For a buffer of the pool.
    Allocating { width: i32, height: i32, size: i32, resume: Resume },
    /// For a buffer in hand to go back, after the pool could not be
    /// completed.
    Releasing { error: AllocError },
    /// For the address of the frame.
    ResolvingSource { total: usize, frame: FrameInfo, crop: Rect },
    /// For the address of the slot.
    ResolvingDestination { total: usize, frame: FrameInfo, crop: Rect, source: G2DPhysical },
    /// For the blit to be issued.
    Blitting { total: usize, plan: BlitPlan },
    /// For the engine to finish.
    Finishing { total: usize },
    /// For the slot's cache lines to be invalidated.
    Invalidating { total: usize },
    /// For the decoded pixels to be copied.
    Copying { len: usize },
}

/// Whether a pool of buffers for images of the given dimensions can be
/// asked for: the buffer manager can be asked for one buffer, and the
/// catalog can size the image in it.
pub open spec fn pool_allocatable(width: int, height: int) -> bool {
    &&& allocatable(width, height, OUTPUT_CHANNELS as int)
    &&& sizable(rgba(), width, height)
}

/// How many bytes the decoder has read after one more feeding: what it had
/// read and what it read now, and never more than there are.
pub open spec fn consumed_after(consumed: int, bytes: int, available: int) -> int {
    if consumed + bytes >= available {
        available
    } else {
        consumed + bytes
    }
}

/// A decode session as a value: what [`VideoDecoder`] holds.
pub struct Session {
    /// The pool: empty until it is allocated, and `BUF_COUNT` slots after.
    pub pool: Seq<PoolSlot>,
    /// The buffers of a pool that is being allocated or given back.
    pub pending: Seq<PoolSlot>,
    /// The input of the decoder.
    pub carry: Seq<u8>,
    /// The decoded pixels of the JPEG message in hand.
    pub pixels: Seq<u8>,
    /// The images handed out so far.
    pub frame_count: usize,
    pub stage: Stage,
}

impl Session {
    /// A session that has seen nothing.
    pub open spec fn fresh() -> Session {
        Session {
            pool: Seq::empty(),
            pending: Seq::empty(),
            carry: Seq::empty(),
            pixels: Seq::empty(),
            frame_count: 0,
            stage: Stage::Idle { last: Ok(None) },
        }
    }

    /// The slot that the next image goes to.
    pub open spec fn slot(self) -> int {
        self.frame_count as int % BUF_COUNT as int
    }

    /// Whether every slot of the pool holds an image of the output format
    /// and of the dimensions of the first.
    pub open spec fn pool_uniform(self) -> bool {
        forall|i: int|
            0 <= i < self.pool.len() ==> {
                &&& (#[trigger] self.pool[i]).image.wf()
                &&& self.pool[i].image@.format == rgba()
                &&& self.pool[i].image@.width == self.pool[0].image@.width
                &&& self.pool[i].image@.height == self.pool[0].image@.height
            }
    }

    /// Whether every buffer in hand holds an image of the output format and
    /// of the given dimensions.
    pub open spec fn pending_sized(self, width: i32, height: i32) -> bool {
        forall|i: int|
            0 <= i < self.pending.len() ==> {
                &&& (#[trigger] self.pending[i]).image.wf()
                &&& self.pending[i].image@.format == rgba()
                &&& self.pending[i].image@.width == width
                &&& self.pending[i].image@.height == height
            }
    }

    /// Whether a feeding's bookkeeping fits the input.
    pub open spec fn fits(self, run: Attempt) -> bool {
        &&& run.consumed <= self.carry.len()
        &&& run.total <= self.carry.len()
        &&& run.attempt < DECODE_ATTEMPTS
    }

    /// Whether the session is one that the steps below can reach.
    pub open spec fn wf(self) -> bool {
        &&& self.pool.len() == 0 || self.pool.len() == BUF_COUNT
        &&& self.pool_uniform()
        &&& match self.stage {
            Stage::Idle { .. } => self.pending.len() == 0 && self.pixels.len() == 0,
            Stage::Decoding { run } => {
                &&& self.pending.len() == 0
                &&& self.pixels.len() == 0
                &&& self.fits(run)
                &&& self.frame_count < usize::MAX
            },
            Stage::Allocating { width, height, size, resume } => {
                &&& self.pool.len() == 0
                &&& self.pending.len() < BUF_COUNT
                &&& self.pending_sized(width, height)
                &&& pool_allocatable(width as int, height as int)
                &&& size == buffer_bytes(width as int, height as int, OUTPUT_CHANNELS as int)
                &&& self.frame_count < usize::MAX
                &&& match resume {
                    Resume::H264 { run, .. } => self.fits(run) && self.pixels.len() == 0,
                    Resume::Jpeg => true,
                }
            },
            Stage::Releasing { .. } => {
                &&& self.pool.len() == 0
                &&& 0 < self.pending.len() < BUF_COUNT
            },
            Stage::ResolvingSource { total, .. } => self.converting(total),
            Stage::ResolvingDestination { total, .. } => self.converting(total),
            Stage::Blitting { total, .. } => self.converting(total),
            Stage::Finishing { total } => self.converting(total),
            Stage::Invalidating { total } => self.converting(total),
            Stage::Copying { len } => {
                &&& self.pending.len() == 0
                &&& self.pool.len() == BUF_COUNT
                &&& self.frame_count < usize::MAX
                &&& len <= self.pixels.len()
                &&& len == image_bytes(
                    rgba(),
                    self.pool[self.slot()].image@.width as int,
                    self.pool[self.slot()].image@.height as int,
                )
            },
        }
    }

    /// What holds while a frame is converted into its slot.
    pub open spec fn converting(self, total: usize) -> bool {
        &&& self.pending.len() == 0
        &&& self.pixels.len() == 0
        &&& self.pool.len() == BUF_COUNT
        &&& total <= self.carry.len()
        &&& self.frame_count < usize::MAX
    }

    /// The action that the session waits for the result of.
    pub open spec fn pending(self) -> Action {
        match self.stage {
            Stage::Idle { last } => Action::Done(last),
            Stage::Decoding { run } => Action::Decode { offset: run.consumed },
            Stage::Allocating { size, .. } => Action::Allocate { size },
            Stage::Releasing { .. } => Action::Release { buffer: self.pending.last().buffer },
            Stage::ResolvingSource { frame, .. } => Action::Resolve { fd: frame.fd },
            Stage::ResolvingDestination { .. } => Action::Resolve {
                fd: self.pool[self.slot()].image@.fd,
            },
            Stage::Blitting { plan, .. } => Action::Blit(plan),
            Stage::Finishing { .. } => Action::Finish,
            Stage::Invalidating { .. } => Action::Invalidate {
                buffer: self.pool[self.slot()].buffer,
            },
            Stage::Copying { len } => Action::Copy { fd: self.pool[self.slot()].image@.fd, len },
        }
    }

    /// The session at rest, with what the message came to. The decoded
    /// pixels are let go.
    pub open spec fn settled(self, last: Outcome) -> Session {
        Session { pixels: Seq::empty(), stage: Stage::Idle { last }, ..self }
    }

    /// The session after the image in its slot went out: one more image is
    /// counted.
    pub open spec fn emitted(self) -> Session {
        Session { frame_count: (self.frame_count + 1) as usize, ..self }.settled(
            Ok(Some(self.pool[self.slot()].image)),
        )
    }

    /// The session with its input cut back to the message in hand, the last
    /// `total` bytes of it.
    pub open spec fn rewound(self, total: usize) -> Session {
        Session {
            carry: self.carry.subrange(self.carry.len() - total, self.carry.len() as int),
            ..self
        }
    }

    /// The session when it starts to allocate its pool, for images of the
    /// given dimensions. Dimensions that no buffer can be asked for end the
    /// message, and the hardware is not asked.
    pub open spec fn allocating(self, width: int, height: int, resume: Resume) -> Session {
        if i32::MIN <= width <= i32::MAX && i32::MIN <= height <= i32::MAX && pool_allocatable(
            width,
            height,
        ) {
            Session {
                stage: Stage::Allocating {
                    width: width as i32,
                    height: height as i32,
                    size: buffer_bytes(width, height, OUTPUT_CHANNELS as int) as i32,
                    resume,
                },
                ..self
            }
        } else {
            self.settled(Err(DecodeError::AllocationFailure(AllocError::Size)))
        }
    }

    /// The session when it starts to convert a frame into its slot. The
    /// device is asked for the frame's address only where the frame does
    /// not carry it.
    pub open spec fn converting_frame(self, total: usize, frame: FrameInfo, crop: Rect) -> Session {
        match frame.handle().descriptor() {
            Some(_) => Session { stage: Stage::ResolvingSource { total, frame, crop }, ..self },
            None => Session {
                stage: Stage::ResolvingDestination {
                    total,
                    frame,
                    crop,
                    source: frame.handle().resolved(AddressQuery::Failed),
                },
                ..self
            },
        }
    }

    /// The session after a feeding, once it is settled whether the pool has
    /// to be allocated first. A frame goes to its slot, or is dropped while
    /// there is no pool. Without a frame the decoder is fed again, up to
    /// `DECODE_ATTEMPTS` times in all; after the last the input is cut back
    /// to the message, which is incomplete unless the decoder has read as
    /// many bytes as the message has.
    pub open spec fn fed(self, run: Attempt, outcome: DecodeOutcome) -> Session {
        match outcome.frame {
            Some(frame) => if self.pool.len() == 0 {
                self.settled(Ok(None))
            } else {
                self.converting_frame(run.total, frame, outcome.crop)
            },
            None => {
                let consumed = consumed_after(
                    run.consumed as int,
                    outcome.bytes as int,
                    self.carry.len() as int,
                ) as usize;
                if run.attempt + 1 < DECODE_ATTEMPTS {
                    Session {
                        stage: Stage::Decoding {
                            run: Attempt {
                                consumed,
                                attempt: (run.attempt + 1) as usize,
                                total: run.total,
                            },
                        },
                        ..self
                    }
                } else {
                    self.rewound(run.total).settled(
                        if consumed >= run.total {
                            Ok(None)
                        } else {
                            Err(DecodeError::Incomplete)
                        },
                    )
                }
            },
        }
    }

    /// The session after a feeding. When the decoder has learnt the
    /// stream's parameters and there is no pool yet, the pool is allocated
    /// first, for images as large as the decoder's crop rectangle. A pool
    /// that is there is kept: it is allocated once in a session's life.
    pub open spec fn decoded(self, run: Attempt, outcome: DecodeOutcome) -> Session {
        if outcome.initialized && self.pool.len() == 0 {
            self.allocating(
                outcome.crop.width as int,
                outcome.crop.height as int,
                Resume::H264 { run, outcome },
            )
        } else {
            self.fed(run, outcome)
        }
    }

    /// The session when it starts to copy decoded pixels into its slot.
    /// Pixels that are fewer than the slot's image takes end the message,
    /// and nothing is copied.
    pub open spec fn copying(self) -> Session {
        let image = self.pool[self.slot()].image@;
        let len = image_bytes(rgba(), image.width as int, image.height as int);
        if self.pixels.len() < len {
            self.settled(Err(DecodeError::UndersizedSource))
        } else {
            Session { stage: Stage::Copying { len: len as usize }, ..self }
        }
    }

    /// The session after the buffer manager gave a buffer. The buffer and
    /// its image are kept in hand until there are `BUF_COUNT`; those become
    /// the pool, and the session goes on with what it allocated the pool
    /// for.
    pub open spec fn allocated(
        self,
        width: i32,
        height: i32,
        resume: Resume,
        buffer: G2DBuffer,
        fd: i32,
    ) -> Session {
        let filled = self.pending.push(
            PoolSlot { buffer, image: Image::spec_new(fd, width, height, rgba()) },
        );
        if filled.len() < BUF_COUNT {
            Session { pending: filled, ..self }
        } else {
            let ready = Session { pool: filled, pending: Seq::empty(), ..self };
            match resume {
                Resume::H264 { run, outcome } => ready.fed(run, outcome),
                Resume::Jpeg => ready.copying(),
            }
        }
    }

    /// The session after a buffer in hand went back to the buffer manager.
    /// When none is left the message ends with the allocation's error.
    pub open spec fn released(self, error: AllocError) -> Session {
        let rest = self.pending.drop_last();
        if rest.len() == 0 {
            Session { pending: rest, ..self }.settled(Err(DecodeError::AllocationFailure(error)))
        } else {
            Session { pending: rest, ..self }
        }
    }

    /// The session after the buffer manager gave no buffer. The buffers in
    /// hand go back one by one, the last first; no pool is kept.
    pub open spec fn refused(self) -> Session {
        if self.pending.len() == 0 {
            self.settled(Err(DecodeError::AllocationFailure(AllocError::Refused)))
        } else {
            Session { stage: Stage::Releasing { error: AllocError::Refused }, ..self }
        }
    }

    /// The session after the slot's address was resolved: the blit is
    /// planned, from the crop rectangle of the frame to all of the slot's
    /// image, or the message ends with the reason why there is none.
    pub open spec fn planned(
        self,
        total: usize,
        frame: FrameInfo,
        crop: Rect,
        source: G2DPhysical,
        query: AddressQuery,
    ) -> Session {
        match blit_plan(
            frame,
            source,
            self.pool[self.slot()].image@,
            G2DPhysical(query.address()),
            Some(crop),
        ) {
            Ok(plan) => Session { stage: Stage::Blitting { total, plan }, ..self },
            Err(e) => self.settled(Err(DecodeError::ConversionFailure(e))),
        }
    }

    /// The session after an H264 message arrived: the message is appended
    /// to the input and the decoder is fed from the start. A message that
    /// arrives while another is in hand is not taken.
    pub open spec fn accept_h264(self, data: Seq<u8>) -> Session {
        if self.stage is Idle {
            Session {
                carry: self.carry + data,
                stage: Stage::Decoding {
                    run: Attempt { consumed: 0, attempt: 0, total: data.len() as usize },
                },
                ..self
            }
        } else {
            self
        }
    }

    /// The session after a JPEG message arrived, decoded into `pixels`. The
    /// pool is allocated first where there is none, for images as large as
    /// this one. A message that arrives while another is in hand is not
    /// taken.
    pub open spec fn accept_jpeg(self, width: u32, height: u32, pixels: Seq<u8>) -> Session {
        if self.stage is Idle {
            let loaded = Session { pixels, ..self };
            if self.pool.len() == 0 {
                loaded.allocating(width as int, height as int, Resume::Jpeg)
            } else {
                loaded.copying()
            }
        } else {
            self
        }
    }

    /// The session after an event. An event that the session does not wait
    /// for changes nothing.
    pub open spec fn next(self, event: Event) -> Session {
        match (self.stage, event) {
            (Stage::Decoding { run }, Event::Decoded(outcome)) => self.decoded(run, outcome),
            (Stage::Decoding { .. }, Event::DecodeFailed) => self.settled(
                Err(DecodeError::DecodeFailure),
            ),
            (Stage::Allocating { width, height, resume, .. }, Event::Allocated { buffer, fd }) => {
                self.allocated(width, height, resume, buffer, fd)
            },
            (Stage::Allocating { .. }, Event::AllocationFailed) => self.refused(),
            (Stage::Releasing { error }, Event::Released) => self.released(error),
            (Stage::ResolvingSource { total, frame, crop }, Event::Resolved(query)) => Session {
                stage: Stage::ResolvingDestination {
                    total,
                    frame,
                    crop,
                    source: frame.handle().resolved(query),
                },
                ..self
            },
            (
                Stage::ResolvingDestination { total, frame, crop, source },
                Event::Resolved(query),
            ) => self.planned(total, frame, crop, source, query),
            (Stage::Blitting { total, .. }, Event::Blitted(status)) => match blit_outcome(status) {
                Ok(_) => Session { stage: Stage::Finishing { total }, ..self },
                Err(e) => self.settled(Err(DecodeError::ConversionFailure(e))),
            },
            (Stage::Finishing { total }, Event::Finished(status)) => match finish_outcome(
                status,
            ) {
                Ok(_) => Session { stage: Stage::Invalidating { total }, ..self },
                Err(e) => self.settled(Err(DecodeError::ConversionFailure(e))),
            },
            (Stage::Invalidating { total }, Event::Invalidated) => self.rewound(total).emitted(),
            (Stage::Copying { .. }, Event::Copied(outcome)) => match outcome {
                CopyOutcome::MapFailed => self.settled(Err(DecodeError::MapFailure)),
                _ => self.emitted(),
            },
            _ => self,
        }
    }
}

/// Every step of a session leads to a session that the steps can reach.
pub proof fn lemma_next_wf(s: Session, event: Event)
    requires
        s.wf(),
    ensures
        s.next(event).wf(),
{
    broadcast use Image::lemma_spec_new;

    match (s.stage, event) {
        (Stage::Allocating { width, height, resume, .. }, Event::Allocated { buffer, fd }) => {
            let slot = PoolSlot { buffer, image: Image::spec_new(fd, width, height, rgba()) };
            let filled = s.pending.push(slot);
            assert(forall|i: int|
                0 <= i < filled.len() ==> {
                    &&& (#[trigger] filled[i]).image.wf()
                    &&& filled[i].image@.format == rgba()
                    &&& filled[i].image@.width == width
                    &&& filled[i].image@.height == height
                });
        },
        _ => {},
    }
}

/// The session starts out in a state that the steps can reach.
pub proof fn lemma_fresh_wf()
    ensures
        Session::fresh().wf(),
{
}

/// An H264 message that is taken leads to a session that the steps can
/// reach.
pub proof fn lemma_accept_h264_wf(s: Session, data: Seq<u8>)
    requires
        s.wf(),
        s.frame_count < usize::MAX,
        data.len() <= usize::MAX,
    ensures
        s.accept_h264(data).wf(),
{
}

/// A JPEG message that is taken leads to a session that the steps can
/// reach.
pub proof fn lemma_accept_jpeg_wf(s: Session, width: u32, height: u32, pixels: Seq<u8>)
    requires
        s.wf(),
        s.frame_count < usize::MAX,
    ensures
        s.accept_jpeg(width, height, pixels).wf(),
{
}

} // verus!
