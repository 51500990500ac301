//! What holds of every decode session: how its pool comes to be, which
//! slot an image goes to, and how a message ends.

use crate::format::image_bytes;
use crate::fourcc::rgba;
use crate::image::{G2DBuffer, Image};
use crate::manager::{blit_plan, ConversionError};
use crate::physical::{AddressQuery, G2DPhysical};
use crate::session::{consumed_after, lemma_next_wf, pool_allocatable, Session, Stage};
use crate::video_decode::{
    teardown_of, Action, CopyOutcome, DecodeError, DecodeOutcome, Event, PoolSlot, Teardown,
    BUF_COUNT,
};
use vstd::prelude::*;

verus! {

/// The slot that an image goes to depends on the count of the images
/// before it alone, and slots are taken in turn: the next image goes to the
/// next slot, the images after it to other slots, and only the image that
/// comes `BUF_COUNT` images later goes to the same slot again. So an image
/// that was handed out stays as it is while `BUF_COUNT - 1` further images
/// are made.
pub proof fn lemma_slots_in_turn(s: Session, later: Session)
    ensures
        0 <= s.slot() < BUF_COUNT,
        later.frame_count == s.frame_count + 1 ==> later.slot() == (s.slot() + 1) % (
        BUF_COUNT as int),
        s.frame_count < later.frame_count < s.frame_count + BUF_COUNT ==> later.slot()
            != s.slot(),
        later.frame_count == s.frame_count + BUF_COUNT ==> later.slot() == s.slot(),
{
}

/// The pool is all or nothing. After every step it is empty or holds
/// `BUF_COUNT` slots, each with an image of the output format and of the
/// same dimensions; a pool that has just been allocated has the dimensions
/// that were asked for. A message that ends with a failed allocation leaves
/// no pool and no buffer in hand. A pool that is there is never replaced.
pub proof fn lemma_pool_all_or_nothing(s: Session, event: Event)
    requires
        s.wf(),
    ensures
        s.next(event).pool.len() == 0 || s.next(event).pool.len() == BUF_COUNT,
        s.next(event).pool_uniform(),
        s.pool.len() == BUF_COUNT ==> s.next(event).pool == s.pool,
        s.pool.len() == 0 && s.next(event).pool.len() == BUF_COUNT ==> (s.stage matches Stage::Allocating {
            width,
            height,
            ..
        } && s.next(event).pool[0].image@.width == width && s.next(event).pool[0].image@.height
            == height && event is Allocated && s.pending.len() + 1 == BUF_COUNT),
        !(s.stage is Idle) && (s.next(event).stage matches Stage::Idle {
            last: Err(DecodeError::AllocationFailure(_)),
        }) ==> s.next(event).pool.len() == 0 && s.next(event).pending.len() == 0,
{
    broadcast use Image::lemma_spec_new;

    lemma_next_wf(s, event);
}

/// A message gives at most one image, and the images come in the order of
/// their count. The step that ends a message with an image hands out the
/// image of the slot whose turn it is, leaves that slot where it is in the
/// pool, and counts one image more; no other step changes the count.
pub proof fn lemma_frames_in_order(s: Session, event: Event)
    requires
        s.wf(),
    ensures
        match s.next(event).stage {
            Stage::Idle { last: Ok(Some(image)) } => s.stage is Idle || {
                &&& s.pool.len() == BUF_COUNT
                &&& s.next(event).pool == s.pool
                &&& image == s.pool[s.slot()].image
                &&& s.next(event).frame_count == s.frame_count + 1
            },
            _ => s.next(event).frame_count == s.frame_count,
        },
        s.stage is Idle ==> s.next(event) == s,
{
}

/// Taking a message hands out nothing by itself: the count of images stays,
/// and so does the pool.
pub proof fn lemma_accept_keeps_frames(
    s: Session,
    data: Seq<u8>,
    width: u32,
    height: u32,
    pixels: Seq<u8>,
)
    requires
        s.wf(),
    ensures
        s.accept_h264(data).frame_count == s.frame_count,
        s.accept_h264(data).pool == s.pool,
        s.accept_jpeg(width, height, pixels).frame_count == s.frame_count,
        s.accept_jpeg(width, height, pixels).pool == s.pool,
{
}

/// What the decoder has read after three feedings, of `available` bytes.
pub open spec fn read_in_three(first: int, second: int, third: int, available: int) -> int {
    consumed_after(
        consumed_after(consumed_after(0, first, available), second, available),
        third,
        available,
    )
}

/// A message over which the decoder is fed three times without a frame
/// ends after the third feeding, and the decoder's input is then the
/// message alone. It ends without an image and without an error where the
/// decoder has read as many bytes as the message has, and as incomplete
/// where it has read fewer. (The pool is left aside here: either it is
/// there, or the decoder does not report the stream's parameters.)
pub proof fn lemma_three_feedings(
    s: Session,
    data: Seq<u8>,
    first: DecodeOutcome,
    second: DecodeOutcome,
    third: DecodeOutcome,
)
    requires
        s.wf(),
        s.stage is Idle,
        data.len() <= usize::MAX,
        s.carry.len() + data.len() <= usize::MAX,
        first.frame is None && second.frame is None && third.frame is None,
        s.pool.len() == BUF_COUNT || !(first.initialized || second.initialized
            || third.initialized),
    ensures
        ({
            let end = s.accept_h264(data).next(Event::Decoded(first)).next(
                Event::Decoded(second),
            ).next(Event::Decoded(third));
            let read = read_in_three(
                first.bytes as int,
                second.bytes as int,
                third.bytes as int,
                (s.carry.len() + data.len()) as int,
            );
            &&& end.carry == data
            &&& end.frame_count == s.frame_count
            &&& end.pool == s.pool
            &&& read >= data.len() ==> end.stage == (Stage::Idle { last: Ok(None) })
            &&& read < data.len() ==> end.stage == (Stage::Idle {
                last: Err(DecodeError::Incomplete),
            })
        }),
{
    let fed0 = s.accept_h264(data);
    let fed1 = fed0.next(Event::Decoded(first));
    let fed2 = fed1.next(Event::Decoded(second));
    let end = fed2.next(Event::Decoded(third));
    assert(fed0.carry.len() == s.carry.len() + data.len());
    assert(fed1.stage is Decoding);
    assert(fed2.stage is Decoding);
    assert(end.carry =~= data);
}

/// The same holds where the first feeding makes the decoder report the
/// stream's parameters while there is no pool, as long as a pool of the
/// crop rectangle's dimensions can be asked for and the buffer manager
/// gives the four buffers: the pool is then allocated between the first
/// feeding and the second, and the message ends as it would have.
pub proof fn lemma_three_feedings_with_pool(
    s: Session,
    data: Seq<u8>,
    first: DecodeOutcome,
    second: DecodeOutcome,
    third: DecodeOutcome,
    buffers: Seq<G2DBuffer>,
    descriptors: Seq<i32>,
)
    requires
        s.wf(),
        s.stage is Idle,
        s.pool.len() == 0,
        s.carry.len() + data.len() <= usize::MAX,
        first.frame is None && second.frame is None && third.frame is None,
        first.initialized,
        pool_allocatable(first.crop.width as int, first.crop.height as int),
        buffers.len() == BUF_COUNT,
        descriptors.len() == BUF_COUNT,
    ensures
        ({
            let end = s.accept_h264(data).next(Event::Decoded(first)).next(
                Event::Allocated { buffer: buffers[0], fd: descriptors[0] },
            ).next(Event::Allocated { buffer: buffers[1], fd: descriptors[1] }).next(
                Event::Allocated { buffer: buffers[2], fd: descriptors[2] },
            ).next(Event::Allocated { buffer: buffers[3], fd: descriptors[3] }).next(
                Event::Decoded(second),
            ).next(Event::Decoded(third));
            let read = read_in_three(
                first.bytes as int,
                second.bytes as int,
                third.bytes as int,
                (s.carry.len() + data.len()) as int,
            );
            &&& end.carry == data
            &&& end.frame_count == s.frame_count
            &&& end.pool.len() == BUF_COUNT
            &&& forall|i: int|
                0 <= i < BUF_COUNT ==> (#[trigger] end.pool[i]) == (PoolSlot {
                    buffer: buffers[i],
                    image: Image::spec_new(
                        descriptors[i],
                        first.crop.width,
                        first.crop.height,
                        rgba(),
                    ),
                })
            &&& read >= data.len() ==> end.stage == (Stage::Idle { last: Ok(None) })
            &&& read < data.len() ==> end.stage == (Stage::Idle {
                last: Err(DecodeError::Incomplete),
            })
        }),
{
    let fed0 = s.accept_h264(data);
    assert(fed0.carry.len() == s.carry.len() + data.len());
    let asked = fed0.next(Event::Decoded(first));
    assert(asked.stage is Allocating);
    let one = asked.next(Event::Allocated { buffer: buffers[0], fd: descriptors[0] });
    assert(one.pending.len() == 1);
    let two = one.next(Event::Allocated { buffer: buffers[1], fd: descriptors[1] });
    assert(two.pending.len() == 2);
    let three = two.next(Event::Allocated { buffer: buffers[2], fd: descriptors[2] });
    assert(three.pending.len() == 3);
    let fed1 = three.next(Event::Allocated { buffer: buffers[3], fd: descriptors[3] });
    assert(fed1.pool.len() == 4);
    assert(fed1.stage is Decoding);
    let fed2 = fed1.next(Event::Decoded(second));
    assert(fed2.stage is Decoding);
    let end = fed2.next(Event::Decoded(third));
    assert(end.carry =~= data);
    assert(end.pool == fed1.pool);
}

/// With an input that held nothing before the message, three feedings
/// without a frame read the whole message exactly when the three counts
/// add up to its length or more.
pub proof fn lemma_read_in_three(first: int, second: int, third: int, available: int)
    requires
        0 <= first,
        0 <= second,
        0 <= third,
        0 <= available,
    ensures
        read_in_three(first, second, third, available) >= available <==> first + second + third
            >= available,
        read_in_three(first, second, third, available) <= available,
{
}

/// Decoded pixels that are fewer than the slot's image takes end a JPEG
/// message as undersized, at once where the pool is there and after the
/// last buffer where it is being allocated. No copy is asked for, no image
/// is counted, and the pool is not touched.
pub proof fn lemma_undersized_source(s: Session, width: u32, height: u32, pixels: Seq<u8>)
    requires
        s.wf(),
        s.stage is Idle,
        s.pool.len() == BUF_COUNT,
        pixels.len() < image_bytes(
            rgba(),
            s.pool[s.slot()].image@.width as int,
            s.pool[s.slot()].image@.height as int,
        ),
    ensures
        s.accept_jpeg(width, height, pixels) == s.settled(Err(DecodeError::UndersizedSource)),
        s.accept_jpeg(width, height, pixels).pending() == Action::Done(
            Err(DecodeError::UndersizedSource),
        ),
        s.accept_jpeg(width, height, pixels).frame_count == s.frame_count,
        s.accept_jpeg(width, height, pixels).pool == s.pool,
{
    assert(s.pixels =~= Seq::<u8>::empty());
    assert(s.accept_jpeg(width, height, pixels) == s.settled(Err(DecodeError::UndersizedSource)));
}

/// Decoded pixels that are as many as the slot's image takes, or more, go
/// into the slot whose turn it is: the copy is asked for with the slot's
/// descriptor and the image's size, and unless the memory cannot be mapped
/// the message ends with that slot's image and one image more is counted.
/// Memory that cannot be unmapped does not undo the copy.
pub proof fn lemma_jpeg_copied(
    s: Session,
    width: u32,
    height: u32,
    pixels: Seq<u8>,
    outcome: CopyOutcome,
)
    requires
        s.wf(),
        s.stage is Idle,
        s.frame_count < usize::MAX,
        s.pool.len() == BUF_COUNT,
        pixels.len() >= image_bytes(
            rgba(),
            s.pool[s.slot()].image@.width as int,
            s.pool[s.slot()].image@.height as int,
        ),
    ensures
        ({
            let image = s.pool[s.slot()].image;
            let taken = s.accept_jpeg(width, height, pixels);
            let end = taken.next(Event::Copied(outcome));
            &&& taken.pending() matches Action::Copy { fd, len } && fd == image@.fd && len
                == image_bytes(rgba(), image@.width as int, image@.height as int)
            &&& taken.pixels == pixels
            &&& end.pool == s.pool
            &&& outcome is MapFailed ==> end.stage == (Stage::Idle {
                last: Err(DecodeError::MapFailure),
            }) && end.frame_count == s.frame_count
            &&& !(outcome is MapFailed) ==> end.stage == (Stage::Idle { last: Ok(Some(image)) })
                && end.frame_count == s.frame_count + 1
        }),
{
    let image = s.pool[s.slot()].image;
    assert(image.wf());
    let taken = s.accept_jpeg(width, height, pixels);
    assert(taken.stage is Copying);
    assert(taken.slot() == s.slot());
}

/// A copy is only ever asked for with as many bytes as the slot's image
/// takes, and never with more than there are decoded pixels.
pub proof fn lemma_copy_fits(s: Session)
    requires
        s.wf(),
        s.pending() is Copy,
    ensures
        s.pending() matches Action::Copy { fd, len } && fd == s.pool[s.slot()].image@.fd && len
            <= s.pixels.len() && len == image_bytes(
            rgba(),
            s.pool[s.slot()].image@.width as int,
            s.pool[s.slot()].image@.height as int,
        ),
{
}

/// The steps that convert a frame into its slot, once the frame is there:
/// the frame's address where the frame does not carry it, the slot's
/// address, the blit, the finish and the invalidation.
pub open spec fn converted(
    s: Session,
    source: AddressQuery,
    destination: AddressQuery,
    blit: i32,
    finish: i32,
) -> Session {
    let resolved = if s.stage is ResolvingSource {
        s.next(Event::Resolved(source))
    } else {
        s
    };
    resolved.next(Event::Resolved(destination)).next(Event::Blitted(blit)).next(
        Event::Finished(finish),
    ).next(Event::Invalidated)
}

/// A frame that the decoder produces while the pool is there goes through
/// the conversion into the slot whose turn it is. When both addresses
/// resolve so that a blit can be planned, and blit and finish report
/// success, the message ends with that slot's image, one image more is
/// counted, and the decoder's input is the message alone. When the blit or
/// the finish reports a status other than zero, the message ends with that
/// status as its error, and no image is counted.
pub proof fn lemma_frame_converted(
    s: Session,
    data: Seq<u8>,
    outcome: DecodeOutcome,
    source: AddressQuery,
    destination: AddressQuery,
    blit: i32,
    finish: i32,
)
    requires
        s.wf(),
        s.stage is Idle,
        s.frame_count < usize::MAX,
        s.pool.len() == BUF_COUNT,
        s.carry.len() + data.len() <= usize::MAX,
        outcome.frame is Some,
        blit_plan(
            outcome.frame.unwrap(),
            outcome.frame.unwrap().handle().resolved(source),
            s.pool[s.slot()].image@,
            G2DPhysical(destination.address()),
            Some(outcome.crop),
        ) is Ok,
    ensures
        ({
            let end = converted(
                s.accept_h264(data).next(Event::Decoded(outcome)),
                source,
                destination,
                blit,
                finish,
            );
            &&& end.pool == s.pool
            &&& blit == 0 && finish == 0 ==> {
                &&& end.stage == (Stage::Idle { last: Ok(Some(s.pool[s.slot()].image)) })
                &&& end.frame_count == s.frame_count + 1
                &&& end.carry == data
            }
            &&& blit != 0 ==> {
                &&& end.stage == (Stage::Idle {
                    last: Err(DecodeError::ConversionFailure(ConversionError::Blit(blit))),
                })
                &&& end.frame_count == s.frame_count
            }
            &&& blit == 0 && finish != 0 ==> {
                &&& end.stage == (Stage::Idle {
                    last: Err(DecodeError::ConversionFailure(ConversionError::Finish(finish))),
                })
                &&& end.frame_count == s.frame_count
            }
        }),
{
    let fed = s.accept_h264(data).next(Event::Decoded(outcome));
    let frame = outcome.frame.unwrap();
    assert(fed.carry.len() == s.carry.len() + data.len());
    assert(fed.slot() == s.slot());
    let resolved = if fed.stage is ResolvingSource {
        fed.next(Event::Resolved(source))
    } else {
        fed
    };
    assert(resolved.stage == (Stage::ResolvingDestination {
        total: data.len() as usize,
        frame,
        crop: outcome.crop,
        source: frame.handle().resolved(source),
    }));
    let planned = resolved.next(Event::Resolved(destination));
    assert(planned.stage is Blitting);
    let blitted = planned.next(Event::Blitted(blit));
    let finished = blitted.next(Event::Finished(finish));
    let end = finished.next(Event::Invalidated);
    if blit == 0 && finish == 0 {
        assert(end.carry =~= data);
    }
}

/// Taking a session down gives every buffer that the session holds back
/// before the decoder is let go, and the engine is closed after everything
/// else. Nothing follows the closing of the engine.
pub proof fn lemma_teardown_order(s: Session)
    ensures
        teardown_of(s).len() == s.pool.len() + s.pending.len() + 2,
        forall|i: int|
            0 <= i < s.pool.len() ==> teardown_of(s)[i] == Teardown::FreeBuffer(
                s.pool[i].buffer,
            ),
        forall|i: int|
            0 <= i < s.pending.len() ==> teardown_of(s)[s.pool.len() + i] == Teardown::FreeBuffer(
                s.pending[i].buffer,
            ),
        teardown_of(s)[teardown_of(s).len() - 2] == Teardown::ReleaseDecoder,
        teardown_of(s).last() == Teardown::CloseEngine,
{
}

} // verus!
