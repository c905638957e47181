use dynamo_llm::video::{
    target_indices, DecodeEvent, FpsSampling, FrameSampler, ShapeFault, VideoDecoder, VideoError,
};

fn decoder() -> VideoDecoder {
    VideoDecoder::default()
}

fn with_fps(max_frames: Option<u32>) -> VideoDecoder {
    VideoDecoder { fps_bits: Some(2.0f32.to_bits()), max_frames, ..decoder() }
}

fn sampling(duration: f32, frames: u32) -> Option<FpsSampling> {
    Some(FpsSampling { duration_bits: duration.to_bits(), frames })
}

fn sorted(requested: u32, total: u32) -> Vec<u32> {
    let mut indices: Vec<u32> = target_indices(requested, total).into_iter().collect();
    indices.sort();
    indices
}

fn message<T>(result: Result<T, VideoError>) -> String {
    match result {
        Ok(_) => panic!("no error"),
        Err(error) => error.message(),
    }
}

#[test]
fn contradicting_options_are_refused() {
    assert!(decoder().check_options().is_ok());
    assert!(with_fps(Some(3)).check_options().is_ok());
    assert!(VideoDecoder { num_frames: Some(1), ..decoder() }.check_options().is_ok());
    assert_eq!(
        message(VideoDecoder { num_frames: Some(1), ..with_fps(Some(1)) }.check_options()),
        "fps and num_frames cannot be specified at the same time"
    );
    let both = VideoDecoder { num_frames: Some(1), max_frames: Some(1), ..decoder() };
    assert_eq!(
        message(both.check_options()),
        "max_frames and num_frames cannot be specified at the same time"
    );
}

#[test]
fn the_duration_is_needed_for_a_frame_rate() {
    assert!(!decoder().needs_duration(10).unwrap());
    assert!(with_fps(None).needs_duration(10).unwrap());
    assert_eq!(message(with_fps(None).needs_duration(0)), "Cannot determine the video frame count");
}

#[test]
fn the_number_of_frames_follows_the_options() {
    assert_eq!(decoder().requested_frames(10, None).unwrap(), 10);
    let counted = VideoDecoder { num_frames: Some(4), ..decoder() };
    assert_eq!(counted.requested_frames(10, None).unwrap(), 4);
    let none = VideoDecoder { num_frames: Some(0), ..decoder() };
    assert_eq!(none.requested_frames(10, None).unwrap(), 1);
    let limited = VideoDecoder { max_frames: Some(3), ..decoder() };
    assert_eq!(limited.requested_frames(10, None).unwrap(), 3);
    assert_eq!(with_fps(None).requested_frames(100, sampling(5.0, 10)).unwrap(), 10);
    assert_eq!(with_fps(Some(4)).requested_frames(100, sampling(5.0, 10)).unwrap(), 4);
    assert_eq!(with_fps(Some(40)).requested_frames(100, sampling(5.0, 10)).unwrap(), 10);
    assert_eq!(with_fps(None).requested_frames(100, sampling(0.1, 0)).unwrap(), 1);
}

#[test]
fn impossible_numbers_of_frames_are_refused() {
    let counted = VideoDecoder { num_frames: Some(11), ..decoder() };
    assert_eq!(
        message(counted.requested_frames(10, None)),
        "Cannot decode 11 frames from 10 total frames"
    );
    for duration in [0.0, -1.0, f32::NAN, -0.0, f32::NEG_INFINITY] {
        assert_eq!(
            message(with_fps(None).requested_frames(10, sampling(duration, 5))),
            "Cannot determine the video duration"
        );
    }
    assert!(with_fps(None).requested_frames(10, sampling(f32::INFINITY, 5)).is_ok());
    assert!(with_fps(None).requested_frames(10, sampling(f32::MIN_POSITIVE, 5)).is_ok());
}

#[test]
fn the_frames_must_not_be_too_large() {
    let limited = VideoDecoder { max_pixels: Some(1000), ..decoder() };
    assert!(limited.check_size(10, 10, 10).is_ok());
    assert_eq!(
        message(limited.check_size(11, 10, 10)),
        "Video dimensions 11x10x10 exceed max pixels 1000"
    );
    assert_eq!(message(limited.check_size(1, 0, 10)), "Invalid video dimensions 0x10");
    assert_eq!(message(limited.check_size(1, 10, 0)), "Invalid video dimensions 10x0");
    assert!(decoder().check_size(100, 4096, 4096).is_ok());
    assert!(decoder().check_size(u32::MAX, u32::MAX, u32::MAX).is_err());
}

#[test]
fn a_video_is_looked_at_before_its_frames_are_chosen() {
    let limited = VideoDecoder { max_pixels: Some(10), ..with_fps(None) };
    assert_eq!(
        message(limited.plan(0, None, 0, 0)),
        "Cannot determine the video frame count"
    );
    assert_eq!(
        message(limited.plan(3, sampling(0.0, 9), 0, 0)),
        "Cannot determine the video duration"
    );
    assert_eq!(
        message(limited.plan(3, sampling(1.0, 9), 0, 0)),
        "Cannot decode 9 frames from 3 total frames"
    );
    assert_eq!(message(limited.plan(3, sampling(1.0, 2), 0, 9)), "Invalid video dimensions 0x9");
    assert_eq!(
        message(limited.plan(3, sampling(1.0, 2), 3, 2)),
        "Video dimensions 2x3x2 exceed max pixels 10"
    );
    let mut sampler = limited.plan(3, sampling(1.0, 2), 5, 1).unwrap();
    let frame = [4u8; 15];
    assert!(sampler.observe(DecodeEvent::Frame(Some(&frame))));
    assert!(sampler.observe(DecodeEvent::Frame(Some(&frame))));
    assert!(!sampler.observe(DecodeEvent::Frame(Some(&frame))));
    assert_eq!(sampler.finish(true, 5, 1, 0, 3).unwrap().frames.shape(), &[2, 1, 5, 3]);
    assert_eq!(VideoDecoder::default().check_options().is_ok(), true);
}

#[test]
fn sampled_frames_are_spread_evenly() {
    assert_eq!(sorted(1, 10), vec![5]);
    assert_eq!(sorted(1, 1), vec![0]);
    assert_eq!(sorted(2, 10), vec![0, 9]);
    assert_eq!(sorted(4, 10), vec![0, 3, 6, 9]);
    assert_eq!(sorted(3, 10), vec![0, 4, 9]);
    assert_eq!(sorted(5, 5), vec![0, 1, 2, 3, 4]);
    assert_eq!(sorted(70_000, 100_000).len(), 70_000);
}

#[test]
fn the_target_frames_are_kept_in_order() {
    let mut sampler = FrameSampler::new(2, 4);
    let frames: Vec<Vec<u8>> = (0u8..4).map(|i| vec![i; 6]).collect();
    let mut seen = 0;
    for frame in &frames {
        seen += 1;
        if !sampler.observe(DecodeEvent::Frame(Some(frame))) {
            break;
        }
    }
    assert_eq!(seen, 4);
    assert_eq!(sampler.decoded(), 2);
    let video = sampler.finish(true, 2, 1, 25.0f32.to_bits(), 4).unwrap();
    assert_eq!(video.frames.shape(), &[2, 1, 2, 3]);
    assert_eq!(video.metadata.source_fps_bits, 25.0f32.to_bits());
    assert_eq!(video.metadata.source_frames, 4);
    assert_eq!(video.frames.into_bytes(), vec![0, 0, 0, 0, 0, 0, 3, 3, 3, 3, 3, 3]);
}

#[test]
fn every_target_frame_is_kept_with_its_bytes() {
    for (requested, total) in [(3u32, 10u32), (4, 10), (1, 9), (7, 7), (5, 23)] {
        let frames: Vec<Vec<u8>> = (0..total).map(|i| vec![i as u8; 3]).collect();
        let mut sampler = FrameSampler::new(requested, total);
        for frame in &frames {
            if !sampler.observe(DecodeEvent::Frame(Some(frame))) {
                break;
            }
        }
        let expected: Vec<u8> =
            sorted(requested, total).iter().flat_map(|i| vec![*i as u8; 3]).collect();
        let video = sampler.finish(true, 1, 1, 0, total).unwrap();
        assert_eq!(video.frames.into_bytes(), expected);
    }
}

#[test]
fn bad_frames_are_passed_over() {
    let frame = [1u8, 2, 3];
    let mut sampler = FrameSampler::new(3, 3);
    assert!(sampler.observe(DecodeEvent::Frame(Some(&frame))));
    assert!(sampler.observe(DecodeEvent::Failed));
    assert!(sampler.observe(DecodeEvent::Frame(None)));
    assert!(!sampler.observe(DecodeEvent::Exhausted));
    assert_eq!(sampler.decoded(), 1);
    let video = sampler.finish(false, 1, 1, 0, 3).unwrap();
    assert_eq!(video.frames.shape(), &[1, 1, 1, 3]);
    assert_eq!(video.frames.into_bytes(), vec![1, 2, 3]);
}

#[test]
fn the_targets_that_decode_are_kept() {
    // Of ten frames the targets are 0, 3, 6 and 9.
    let frames: Vec<Vec<u8>> = (0..10u8).map(|i| vec![i; 3]).collect();
    let mut sampler = FrameSampler::new(4, 10);
    for (i, frame) in frames.iter().enumerate() {
        let event = match i {
            3 => DecodeEvent::Failed,
            4 => DecodeEvent::Failed,
            8 => DecodeEvent::Frame(None),
            _ => DecodeEvent::Frame(Some(frame)),
        };
        assert!(sampler.observe(event));
    }
    assert!(!sampler.observe(DecodeEvent::Exhausted));
    assert_eq!(sampler.decoded(), 3);
    let video = sampler.finish(false, 1, 1, 0, 10).unwrap();
    assert_eq!(video.frames.into_bytes(), vec![0, 0, 0, 6, 6, 6, 9, 9, 9]);
}

#[test]
fn decoding_stops_with_the_last_frame_that_is_needed() {
    let frame = [9u8; 3];
    let mut sampler = FrameSampler::new(1, 3);
    assert!(sampler.observe(DecodeEvent::Frame(Some(&frame))));
    assert!(!sampler.observe(DecodeEvent::Frame(Some(&frame))));
    assert_eq!(sampler.decoded(), 1);
}

#[test]
fn corrupt_videos_are_reported() {
    let sampler = FrameSampler::new(1, 1);
    assert_eq!(
        message(sampler.finish(false, 1, 1, 0, 1)),
        "Failed to decode any frames, check for video corruption"
    );

    let frame = [1u8, 2, 3];
    let mut sampler = FrameSampler::new(2, 2);
    sampler.observe(DecodeEvent::Frame(Some(&frame)));
    assert_eq!(
        message(sampler.finish(true, 1, 1, 0, 2)),
        "Failed to decode all requested frames (strict mode), check for video corruption"
    );
}

#[test]
fn frames_of_the_wrong_size_are_reported_as_by_ndarray() {
    let frame = [1u8, 2, 3];
    for (width, height) in [(2u32, 1u32), (1, 2), (u32::MAX, u32::MAX)] {
        let mut sampler = FrameSampler::new(1, 1);
        sampler.observe(DecodeEvent::Frame(Some(&frame)));
        let shape = (1, height as usize, width as usize, 3);
        let error = ndarray::Array4::from_shape_vec(shape, frame.to_vec()).unwrap_err();
        assert_eq!(message(sampler.finish(false, width, height, 0, 1)), error.to_string());
    }
    for (fault, kind) in [
        (ShapeFault::IncompatibleShape, ndarray::ErrorKind::IncompatibleShape),
        (ShapeFault::IncompatibleLayout, ndarray::ErrorKind::IncompatibleLayout),
        (ShapeFault::RangeLimited, ndarray::ErrorKind::RangeLimited),
        (ShapeFault::OutOfBounds, ndarray::ErrorKind::OutOfBounds),
        (ShapeFault::Unsupported, ndarray::ErrorKind::Unsupported),
        (ShapeFault::Overflow, ndarray::ErrorKind::Overflow),
    ] {
        let text = ndarray::ShapeError::from_kind(kind).to_string();
        assert_eq!(VideoError::Shape(fault).message(), text);
    }
    assert_eq!(
        VideoError::Shape(ShapeFault::OutOfBounds).message(),
        "ShapeError/OutOfBounds: out of bounds indexing"
    );
    assert_eq!(
        VideoError::Shape(ShapeFault::IncompatibleLayout).message(),
        "ShapeError/IncompatibleLayout: incompatible memory layout"
    );
    assert_eq!(
        VideoError::Shape(ShapeFault::RangeLimited).message(),
        "ShapeError/RangeLimited: the shape does not fit in type limits"
    );
    assert_eq!(
        VideoError::Shape(ShapeFault::Unsupported).message(),
        "ShapeError/Unsupported: unsupported operation"
    );
    let long = [1u8, 2, 3, 4];
    let mut sampler = FrameSampler::new(1, 1);
    sampler.observe(DecodeEvent::Frame(Some(&long)));
    let error = ndarray::Array4::from_shape_vec((1, 1, 1, 3), long.to_vec()).unwrap_err();
    assert_eq!(message(sampler.finish(false, 1, 1, 0, 1)), error.to_string());
}

#[test]
fn an_intact_video_gives_every_requested_frame() {
    let frame = [0u8; 12];
    for total in 1u32..40 {
        for requested in 1..=total {
            let mut sampler = FrameSampler::new(requested, total);
            for _ in 0..total {
                if !sampler.observe(DecodeEvent::Frame(Some(&frame))) {
                    break;
                }
            }
            assert_eq!(sampler.decoded(), requested);
            let video = sampler.finish(true, 2, 2, 0, total).unwrap();
            assert_eq!(video.frames.shape(), &[requested as usize, 2, 2, 3]);
        }
    }
}
