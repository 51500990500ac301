use replay::format::{G2D_NV12, G2D_RGBA8888};
use replay::fourcc::{nv12, rgba, FourCC};
use replay::image::{G2DBuffer, Image, Rect};
use replay::manager::{AllocError, BlitPlan, ConversionError};
use replay::physical::AddressQuery;
use replay::surface::{g2d_surface_new, FrameInfo};
use replay::video_decode::{
    Action, DecodeError, DecodeOutcome, Event, Teardown, VideoDecoder, BUF_COUNT, DECODE_ATTEMPTS,
};

fn buffer(n: usize) -> G2DBuffer {
    G2DBuffer {
        buf: 0x1000 + n,
        handle: 0x2000 + n,
        vaddr: 0x3000 + n,
        paddr: 0x4000 + n as i32,
        size: 8_294_400,
    }
}

fn crop() -> Rect {
    Rect::new(0, 0, 1920, 1080)
}

fn nothing(bytes: usize) -> Event {
    Event::Decoded(DecodeOutcome {
        initialized: false,
        bytes,
        frame: None,
        crop: crop(),
    })
}

fn frame(paddr: Option<u64>) -> FrameInfo {
    FrameInfo {
        paddr,
        fd: 50,
        fourcc: nv12().as_u32(),
        width: 1920,
        height: 1088,
    }
}

fn produced(initialized: bool, bytes: usize, paddr: Option<u64>) -> Event {
    Event::Decoded(DecodeOutcome {
        initialized,
        bytes,
        frame: Some(frame(paddr)),
        crop: crop(),
    })
}

fn answered(address: u64) -> Event {
    Event::Resolved(AddressQuery::Answered { status: 0, address })
}

fn slot_image(n: usize) -> Image {
    Image::new_preallocated(10 + n as i32, 1920, 1080, rgba()).unwrap()
}

fn plan(source: u64, destination: u64) -> BlitPlan {
    BlitPlan {
        source: g2d_surface_new {
            format: G2D_NV12,
            planes: [source, source + 2_088_960, source + 2_611_200],
            left: 0,
            top: 0,
            right: 1920,
            bottom: 1080,
            stride: 1920,
            width: 1920,
            height: 1088,
            blendfunc: 0,
            global_alpha: 255,
            clrcolor: 0,
            rot: 0,
        },
        destination: g2d_surface_new {
            format: G2D_RGBA8888,
            planes: [destination, 0, 0],
            left: 0,
            top: 0,
            right: 1920,
            bottom: 1080,
            stride: 1920,
            width: 1920,
            height: 1080,
            blendfunc: 0,
            global_alpha: 255,
            clrcolor: 0,
            rot: 0,
        },
    }
}

/// A session whose pool was allocated by the first message, which also
/// produced the first image.
fn started() -> VideoDecoder {
    let mut decoder = VideoDecoder::new();
    decoder.decode_h264_msg(&[1, 2, 3]);
    decoder.advance(produced(true, 3, Some(0x8000_0000)));
    for n in 0..BUF_COUNT {
        decoder.advance(Event::Allocated {
            buffer: buffer(n),
            fd: 10 + n as i32,
        });
    }
    decoder.advance(answered(0x9000_0000));
    decoder.advance(Event::Blitted(0));
    decoder.advance(Event::Finished(0));
    let done = decoder.advance(Event::Invalidated);
    assert_eq!(done, Action::Done(Ok(Some(slot_image(0)))));
    decoder
}

#[test]
fn pool_has_four_buffers_and_three_attempts() {
    assert_eq!(BUF_COUNT, 4);
    assert_eq!(DECODE_ATTEMPTS, 3);
}

#[test]
fn fresh_session_waits_for_a_message() {
    let decoder = VideoDecoder::new();
    assert!(decoder.is_idle());
    assert_eq!(decoder.frame_count(), 0);
    assert!(decoder.frames().is_empty());
    assert_eq!(decoder.pending(), Action::Done(Ok(None)));
    assert!(decoder.input().is_empty());
    assert!(decoder.copy_source().is_empty());
}

#[test]
fn message_is_fed_from_the_start() {
    let mut decoder = VideoDecoder::new();
    let data = [9u8, 8, 7, 6, 5];
    assert_eq!(decoder.decode_h264_msg(&data), Action::Decode { offset: 0 });
    assert!(!decoder.is_idle());
    assert_eq!(decoder.input(), &data[..]);
}

#[test]
fn unread_input_after_three_feedings_is_incomplete() {
    let mut decoder = VideoDecoder::new();
    let data = [0u8; 10];
    decoder.decode_h264_msg(&data);
    assert_eq!(decoder.advance(nothing(3)), Action::Decode { offset: 3 });
    assert_eq!(decoder.input(), &data[3..]);
    assert_eq!(decoder.advance(nothing(3)), Action::Decode { offset: 6 });
    assert_eq!(
        decoder.advance(nothing(3)),
        Action::Done(Err(DecodeError::Incomplete))
    );
    assert!(decoder.is_idle());
    assert_eq!(decoder.frame_count(), 0);
}

#[test]
fn read_input_after_three_feedings_is_no_output() {
    let mut decoder = VideoDecoder::new();
    let data = [0u8; 10];
    decoder.decode_h264_msg(&data);
    assert_eq!(decoder.advance(nothing(4)), Action::Decode { offset: 4 });
    assert_eq!(decoder.advance(nothing(4)), Action::Decode { offset: 8 });
    assert_eq!(decoder.advance(nothing(2)), Action::Done(Ok(None)));
    assert_eq!(decoder.frame_count(), 0);
}

#[test]
fn decoder_that_reads_nothing_leaves_the_message_incomplete() {
    let mut decoder = VideoDecoder::new();
    decoder.decode_h264_msg(&[1]);
    assert_eq!(decoder.advance(nothing(0)), Action::Decode { offset: 0 });
    assert_eq!(decoder.advance(nothing(0)), Action::Decode { offset: 0 });
    assert_eq!(
        decoder.advance(nothing(0)),
        Action::Done(Err(DecodeError::Incomplete))
    );
}

#[test]
fn empty_message_is_read_at_once() {
    let mut decoder = VideoDecoder::new();
    decoder.decode_h264_msg(&[]);
    decoder.advance(nothing(0));
    decoder.advance(nothing(0));
    assert_eq!(decoder.advance(nothing(0)), Action::Done(Ok(None)));
}

#[test]
fn count_beyond_the_input_is_taken_as_all_of_it() {
    let mut decoder = VideoDecoder::new();
    let data = [0u8; 10];
    decoder.decode_h264_msg(&data);
    assert_eq!(
        decoder.advance(nothing(usize::MAX)),
        Action::Decode { offset: 10 }
    );
    assert!(decoder.input().is_empty());
    assert_eq!(
        decoder.advance(nothing(usize::MAX)),
        Action::Decode { offset: 10 }
    );
    assert_eq!(decoder.advance(nothing(1)), Action::Done(Ok(None)));
}

#[test]
fn input_is_cut_back_to_the_message_after_the_feedings() {
    let mut decoder = VideoDecoder::new();
    decoder.decode_h264_msg(&[1, 2, 3, 4]);
    decoder.advance(nothing(1));
    decoder.advance(nothing(1));
    decoder.advance(nothing(1));
    let next = [5u8, 6];
    decoder.decode_h264_msg(&next);
    assert_eq!(decoder.input(), &[1, 2, 3, 4, 5, 6][..]);
    decoder.advance(nothing(6));
    decoder.advance(nothing(0));
    assert_eq!(decoder.advance(nothing(0)), Action::Done(Ok(None)));
    decoder.decode_h264_msg(&[7]);
    assert_eq!(decoder.input(), &[5, 6, 7][..]);
}

#[test]
fn decoder_error_ends_the_message() {
    let mut decoder = VideoDecoder::new();
    decoder.decode_h264_msg(&[1, 2, 3]);
    assert_eq!(
        decoder.advance(Event::DecodeFailed),
        Action::Done(Err(DecodeError::DecodeFailure))
    );
    assert!(decoder.is_idle());
    decoder.decode_h264_msg(&[4]);
    assert_eq!(decoder.input(), &[1, 2, 3, 4][..]);
}

#[test]
fn frame_without_a_pool_is_no_output() {
    let mut decoder = VideoDecoder::new();
    decoder.decode_h264_msg(&[1, 2, 3]);
    assert_eq!(
        decoder.advance(produced(false, 3, Some(0x8000_0000))),
        Action::Done(Ok(None))
    );
    assert_eq!(decoder.frame_count(), 0);
    assert!(decoder.frames().is_empty());
}

#[test]
fn stream_parameters_allocate_the_pool() {
    let mut decoder = VideoDecoder::new();
    decoder.decode_h264_msg(&[1, 2, 3]);
    let mut action = decoder.advance(produced(true, 3, Some(0x8000_0000)));
    for n in 0..BUF_COUNT {
        assert_eq!(action, Action::Allocate { size: 8_294_400 });
        assert!(decoder.frames().is_empty());
        action = decoder.advance(Event::Allocated {
            buffer: buffer(n),
            fd: 10 + n as i32,
        });
    }
    assert_eq!(action, Action::Resolve { fd: 10 });
    assert_eq!(decoder.frames().len(), 4);
    for n in 0..BUF_COUNT {
        assert_eq!(decoder.frames()[n].buffer, buffer(n));
        assert_eq!(decoder.frames()[n].image, slot_image(n));
        assert_eq!(decoder.frames()[n].image.format(), rgba());
    }
}

#[test]
fn frame_is_converted_into_its_slot() {
    let mut decoder = VideoDecoder::new();
    decoder.decode_h264_msg(&[1, 2, 3]);
    decoder.advance(produced(true, 3, Some(0x8000_0000)));
    for n in 0..BUF_COUNT {
        decoder.advance(Event::Allocated {
            buffer: buffer(n),
            fd: 10 + n as i32,
        });
    }
    assert_eq!(
        decoder.advance(answered(0x9000_0000)),
        Action::Blit(plan(0x8000_0000, 0x9000_0000))
    );
    assert_eq!(decoder.advance(Event::Blitted(0)), Action::Finish);
    assert_eq!(
        decoder.advance(Event::Finished(0)),
        Action::Invalidate { buffer: buffer(0) }
    );
    assert_eq!(decoder.frame_count(), 0);
    assert_eq!(
        decoder.advance(Event::Invalidated),
        Action::Done(Ok(Some(slot_image(0))))
    );
    assert_eq!(decoder.frame_count(), 1);
    assert!(decoder.is_idle());
}

#[test]
fn frame_without_an_address_is_resolved_first() {
    let mut decoder = started();
    decoder.decode_h264_msg(&[4, 5]);
    assert_eq!(
        decoder.advance(produced(false, 2, None)),
        Action::Resolve { fd: 50 }
    );
    assert_eq!(
        decoder.advance(answered(0x7000_0000)),
        Action::Resolve { fd: 11 }
    );
    assert_eq!(
        decoder.advance(answered(0x9100_0000)),
        Action::Blit(plan(0x7000_0000, 0x9100_0000))
    );
}

#[test]
fn slots_are_taken_in_turn() {
    let mut decoder = started();
    for count in 1..10usize {
        decoder.decode_h264_msg(&[0]);
        let slot = count % 4;
        assert_eq!(
            decoder.advance(produced(false, 1, Some(0x8000_0000))),
            Action::Resolve {
                fd: 10 + slot as i32
            }
        );
        decoder.advance(answered(0x9000_0000));
        decoder.advance(Event::Blitted(0));
        assert_eq!(
            decoder.advance(Event::Finished(0)),
            Action::Invalidate {
                buffer: buffer(slot)
            }
        );
        assert_eq!(
            decoder.advance(Event::Invalidated),
            Action::Done(Ok(Some(slot_image(slot))))
        );
        assert_eq!(decoder.frame_count(), count + 1);
    }
}

#[test]
fn input_is_the_message_alone_after_an_image() {
    let mut decoder = VideoDecoder::new();
    decoder.decode_h264_msg(&[1, 2, 3]);
    decoder.advance(Event::DecodeFailed);
    decoder.decode_h264_msg(&[4, 5]);
    assert_eq!(decoder.input(), &[1, 2, 3, 4, 5][..]);
    decoder.advance(produced(true, 5, Some(0x8000_0000)));
    for n in 0..BUF_COUNT {
        decoder.advance(Event::Allocated {
            buffer: buffer(n),
            fd: 10 + n as i32,
        });
    }
    decoder.advance(answered(0x9000_0000));
    decoder.advance(Event::Blitted(0));
    decoder.advance(Event::Finished(0));
    decoder.advance(Event::Invalidated);
    decoder.decode_h264_msg(&[6]);
    assert_eq!(decoder.input(), &[4, 5, 6][..]);
}

#[test]
fn pool_is_allocated_once() {
    let mut decoder = started();
    decoder.decode_h264_msg(&[0]);
    assert_eq!(
        decoder.advance(produced(true, 1, Some(0x8000_0000))),
        Action::Resolve { fd: 11 }
    );
    assert_eq!(decoder.frames().len(), 4);
    assert_eq!(decoder.frames()[0].image, slot_image(0));
}

#[test]
fn stream_parameters_without_a_frame_feed_again_after_the_pool() {
    let mut decoder = VideoDecoder::new();
    decoder.decode_h264_msg(&[0; 8]);
    let mut action = decoder.advance(Event::Decoded(DecodeOutcome {
        initialized: true,
        bytes: 5,
        frame: None,
        crop: crop(),
    }));
    for n in 0..BUF_COUNT {
        assert_eq!(action, Action::Allocate { size: 8_294_400 });
        action = decoder.advance(Event::Allocated {
            buffer: buffer(n),
            fd: 10 + n as i32,
        });
    }
    assert_eq!(action, Action::Decode { offset: 5 });
    assert_eq!(decoder.frames().len(), 4);
}

#[test]
fn refused_buffer_gives_the_others_back() {
    let mut decoder = VideoDecoder::new();
    decoder.decode_h264_msg(&[1, 2, 3]);
    decoder.advance(produced(true, 3, Some(0x8000_0000)));
    decoder.advance(Event::Allocated {
        buffer: buffer(0),
        fd: 10,
    });
    decoder.advance(Event::Allocated {
        buffer: buffer(1),
        fd: 11,
    });
    assert_eq!(
        decoder.advance(Event::AllocationFailed),
        Action::Release { buffer: buffer(1) }
    );
    assert_eq!(
        decoder.advance(Event::Released),
        Action::Release { buffer: buffer(0) }
    );
    assert_eq!(
        decoder.advance(Event::Released),
        Action::Done(Err(DecodeError::AllocationFailure(AllocError::Refused)))
    );
    assert!(decoder.frames().is_empty());
    assert!(decoder.is_idle());
    assert_eq!(
        decoder.close(),
        vec![Teardown::ReleaseDecoder, Teardown::CloseEngine]
    );
}

#[test]
fn first_buffer_refused_ends_the_message_at_once() {
    let mut decoder = VideoDecoder::new();
    decoder.decode_h264_msg(&[1, 2, 3]);
    decoder.advance(produced(true, 3, Some(0x8000_0000)));
    assert_eq!(
        decoder.advance(Event::AllocationFailed),
        Action::Done(Err(DecodeError::AllocationFailure(AllocError::Refused)))
    );
    assert!(decoder.frames().is_empty());
}

#[test]
fn last_buffer_refused_leaves_no_pool() {
    let mut decoder = VideoDecoder::new();
    decoder.decode_h264_msg(&[1, 2, 3]);
    decoder.advance(produced(true, 3, Some(0x8000_0000)));
    for n in 0..3 {
        decoder.advance(Event::Allocated {
            buffer: buffer(n),
            fd: 10 + n as i32,
        });
    }
    assert_eq!(
        decoder.advance(Event::AllocationFailed),
        Action::Release { buffer: buffer(2) }
    );
    decoder.advance(Event::Released);
    decoder.advance(Event::Released);
    assert_eq!(
        decoder.advance(Event::Released),
        Action::Done(Err(DecodeError::AllocationFailure(AllocError::Refused)))
    );
    assert!(decoder.frames().is_empty());
}

#[test]
fn pool_of_impossible_dimensions_is_not_asked_for() {
    let mut decoder = VideoDecoder::new();
    decoder.decode_h264_msg(&[1, 2, 3]);
    assert_eq!(
        decoder.advance(Event::Decoded(DecodeOutcome {
            initialized: true,
            bytes: 3,
            frame: None,
            crop: Rect::new(0, 0, -1, 1080),
        })),
        Action::Done(Err(DecodeError::AllocationFailure(AllocError::Size)))
    );
    decoder.decode_h264_msg(&[1, 2, 3]);
    assert_eq!(
        decoder.advance(Event::Decoded(DecodeOutcome {
            initialized: true,
            bytes: 3,
            frame: None,
            crop: Rect::new(0, 0, 65536, 65536),
        })),
        Action::Done(Err(DecodeError::AllocationFailure(AllocError::Size)))
    );
}

#[test]
fn refused_blit_ends_the_message_with_its_status() {
    let mut decoder = started();
    decoder.decode_h264_msg(&[0]);
    decoder.advance(produced(false, 1, Some(0x8000_0000)));
    decoder.advance(answered(0x9000_0000));
    assert_eq!(
        decoder.advance(Event::Blitted(-1)),
        Action::Done(Err(DecodeError::ConversionFailure(ConversionError::Blit(
            -1
        ))))
    );
    assert_eq!(decoder.frame_count(), 1);
}

#[test]
fn failed_finish_ends_the_message_with_its_status() {
    let mut decoder = started();
    decoder.decode_h264_msg(&[0]);
    decoder.advance(produced(false, 1, Some(0x8000_0000)));
    decoder.advance(answered(0x9000_0000));
    decoder.advance(Event::Blitted(0));
    assert_eq!(
        decoder.advance(Event::Finished(5)),
        Action::Done(Err(DecodeError::ConversionFailure(
            ConversionError::Finish(5)
        )))
    );
    assert_eq!(decoder.frame_count(), 1);
}

#[test]
fn address_that_does_not_resolve_never_reaches_the_engine() {
    let mut decoder = started();
    decoder.decode_h264_msg(&[0]);
    decoder.advance(produced(false, 1, Some(0x8000_0000)));
    assert_eq!(
        decoder.advance(Event::Resolved(AddressQuery::Failed)),
        Action::Done(Err(DecodeError::ConversionFailure(
            ConversionError::Unresolved
        )))
    );
    decoder.decode_h264_msg(&[0]);
    decoder.advance(produced(false, 1, None));
    decoder.advance(Event::Resolved(AddressQuery::Answered {
        status: -22,
        address: 0x7000_0000,
    }));
    assert_eq!(
        decoder.advance(answered(0x9000_0000)),
        Action::Done(Err(DecodeError::ConversionFailure(
            ConversionError::Unresolved
        )))
    );
    assert_eq!(decoder.frame_count(), 1);
}

#[test]
fn frame_of_an_unknown_format_is_not_converted() {
    let mut decoder = started();
    decoder.decode_h264_msg(&[0]);
    decoder.advance(Event::Decoded(DecodeOutcome {
        initialized: false,
        bytes: 1,
        frame: Some(FrameInfo {
            fourcc: FourCC::new(*b"HEVC").as_u32(),
            ..frame(Some(0x8000_0000))
        }),
        crop: crop(),
    }));
    assert_eq!(
        decoder.advance(answered(0x9000_0000)),
        Action::Done(Err(DecodeError::ConversionFailure(
            ConversionError::UnsupportedFormat
        )))
    );
}

#[test]
fn crop_that_does_not_fit_is_not_converted() {
    let mut decoder = started();
    decoder.decode_h264_msg(&[0]);
    decoder.advance(Event::Decoded(DecodeOutcome {
        initialized: false,
        bytes: 1,
        frame: Some(frame(Some(0x8000_0000))),
        crop: Rect::new(i32::MAX, 0, 1920, 1080),
    }));
    assert_eq!(
        decoder.advance(answered(0x9000_0000)),
        Action::Done(Err(DecodeError::ConversionFailure(
            ConversionError::Geometry
        )))
    );
}

#[test]
fn event_that_is_not_waited_for_changes_nothing() {
    let mut decoder = VideoDecoder::new();
    assert_eq!(decoder.advance(Event::Blitted(0)), Action::Done(Ok(None)));
    assert_eq!(decoder.advance(nothing(3)), Action::Done(Ok(None)));
    decoder.decode_h264_msg(&[1, 2, 3]);
    assert_eq!(
        decoder.advance(Event::Invalidated),
        Action::Decode { offset: 0 }
    );
    assert_eq!(
        decoder.advance(Event::Allocated {
            buffer: buffer(0),
            fd: 1
        }),
        Action::Decode { offset: 0 }
    );
    assert!(decoder.frames().is_empty());
    assert_eq!(decoder.input(), &[1, 2, 3][..]);
}

#[test]
fn message_is_not_taken_while_another_is_in_hand() {
    let mut decoder = VideoDecoder::new();
    decoder.decode_h264_msg(&[1, 2, 3]);
    decoder.advance(nothing(2));
    assert_eq!(
        decoder.decode_h264_msg(&[4, 5, 6]),
        Action::Decode { offset: 2 }
    );
    assert_eq!(decoder.input(), &[3][..]);
    assert_eq!(
        decoder.decode_jpeg_msg(1, 1, vec![0; 4]),
        Action::Decode { offset: 2 }
    );
}

#[test]
fn last_outcome_is_repeated_at_rest() {
    let mut decoder = started();
    assert_eq!(decoder.pending(), Action::Done(Ok(Some(slot_image(0)))));
    assert_eq!(
        decoder.advance(Event::Finished(0)),
        Action::Done(Ok(Some(slot_image(0))))
    );
    assert_eq!(decoder.frame_count(), 1);
}

#[test]
fn teardown_frees_buffers_then_decoder_then_engine() {
    let decoder = started();
    assert_eq!(
        decoder.close(),
        vec![
            Teardown::FreeBuffer(buffer(0)),
            Teardown::FreeBuffer(buffer(1)),
            Teardown::FreeBuffer(buffer(2)),
            Teardown::FreeBuffer(buffer(3)),
            Teardown::ReleaseDecoder,
            Teardown::CloseEngine,
        ]
    );
}

#[test]
fn teardown_frees_buffers_in_hand() {
    let mut decoder = VideoDecoder::new();
    decoder.decode_h264_msg(&[1, 2, 3]);
    decoder.advance(produced(true, 3, Some(0x8000_0000)));
    decoder.advance(Event::Allocated {
        buffer: buffer(0),
        fd: 10,
    });
    decoder.advance(Event::Allocated {
        buffer: buffer(1),
        fd: 11,
    });
    assert_eq!(
        decoder.close(),
        vec![
            Teardown::FreeBuffer(buffer(0)),
            Teardown::FreeBuffer(buffer(1)),
            Teardown::ReleaseDecoder,
            Teardown::CloseEngine,
        ]
    );
}
