//! Frame sampling for decoded video: which frames to keep, how the kept frames
//! are gathered while the decoder runs, and the array they end up in.
use std::collections::HashSet;

use vstd::prelude::*;
use vstd::string::StringExecFns;

use crate::float_bits::is_positive_f32;
use crate::text;

verus! {

broadcast use vstd::std_specs::hash::group_hash_axioms;

/// Bytes per pixel of a decoded frame (red, green, blue).
pub const CHANNELS: usize = 3;

/// How a video is sampled.
#[derive(Debug, Clone, Copy, PartialEq, Eq, Structural)]
pub struct VideoDecoder {
    /// Sample this many frames per second (bit pattern of an `f32`).
    pub fps_bits: Option<u32>,
    /// Sample at most this many frames (used with a frame rate).
    pub max_frames: Option<u32>,
    /// Sample this many frames in total, spread evenly.
    pub num_frames: Option<u32>,
    /// Fail if some of the frames fail to decode.
    pub strict: bool,
    /// Maximum total size of the sampled frames in pixels.
    pub max_pixels: Option<usize>,
}

/// What is known of the video that the frames were sampled from.
#[derive(Debug, Clone, Copy)]
pub struct VideoMetadata {
    /// Frame rate of the source (bit pattern of an `f32`).
    pub source_fps_bits: u32,
    /// Number of frames of the source.
    pub source_frames: u32,
}

/// The duration of a video and the frame count that the sampling rate gives for
/// it.
#[derive(Debug, Clone, Copy)]
pub struct FpsSampling {
    /// Duration in seconds (bit pattern of an `f32`).
    pub duration_bits: u32,
    /// Duration times frame rate, as a whole number of frames.
    pub frames: u32,
}

/// Why a video could not be decoded.
#[derive(Debug)]
pub enum VideoError {
    /// A frame rate and a frame count were both given.
    FpsWithNumFrames,
    /// A frame limit and a frame count were both given.
    MaxFramesWithNumFrames,
    /// The video does not say how many frames it has.
    UnknownFrameCount,
    /// The video does not say how long it is.
    UnknownDuration,
    /// More frames are requested than there are.
    TooManyFrames { requested: u32, total: u32 },
    /// A frame has no pixels.
    InvalidDimensions { width: u32, height: u32 },
    /// The sampled frames have more pixels than allowed.
    TooManyPixels { requested: u32, width: u32, height: u32, max_pixels: usize },
    /// No frame could be decoded.
    NoFrames,
    /// Not all requested frames could be decoded.
    MissingFrames,
    /// The bytes of the kept frames do not make an array of their dimensions.
    Shape(ShapeFault),
}

/// Why bytes do not make an array of some shape, in the words of `ndarray`.
#[derive(Debug, Clone, Copy, PartialEq, Eq, Structural)]
pub enum ShapeFault {
    IncompatibleShape,
    IncompatibleLayout,
    RangeLimited,
    OutOfBounds,
    Unsupported,
    Overflow,
}

/// Why so many bytes do not make an array of `expected` bytes, if so: there are no
/// such arrays, or there are too few bytes, or too many.
pub open spec fn shape_fault(expected: int, len: int) -> Option<ShapeFault> {
    if expected > isize::MAX {
        Some(ShapeFault::Overflow)
    } else if len < expected {
        Some(ShapeFault::OutOfBounds)
    } else if len > expected {
        Some(ShapeFault::IncompatibleShape)
    } else {
        None
    }
}

/// The smaller of two counts.
pub open spec fn min_count(a: u32, b: u32) -> u32 {
    if a <= b {
        a
    } else {
        b
    }
}

/// The larger of two counts.
pub open spec fn max_count(a: u32, b: u32) -> u32 {
    if a >= b {
        a
    } else {
        b
    }
}

impl Default for VideoDecoder {
    /// All frames, as far as they decode.
    fn default() -> (decoder: Self)
        ensures
            decoder == (VideoDecoder {
                fps_bits: None,
                max_frames: None,
                num_frames: None,
                strict: false,
                max_pixels: None,
            }),
    {
        VideoDecoder {
            fps_bits: None,
            max_frames: None,
            num_frames: None,
            strict: false,
            max_pixels: None,
        }
    }
}

impl VideoDecoder {
    /// The number of frames asked for, before it is held against the length of
    /// the video: by frame rate, by count, or else all frames; at most the
    /// limit, and at least one.
    pub open spec fn wanted_frames(&self, total_frames: u32, fps: Option<FpsSampling>) -> u32 {
        let base = match self.fps_bits {
            Some(_) => fps->0.frames,
            None => match self.num_frames {
                Some(n) => n,
                None => total_frames,
            },
        };
        let limit = match self.max_frames {
            Some(m) => m,
            None => base,
        };
        max_count(min_count(base, limit), 1)
    }

    /// The largest allowed number of sampled pixels.
    pub open spec fn pixel_limit(&self) -> usize {
        match self.max_pixels {
            Some(m) => m,
            None => usize::MAX,
        }
    }

    /// Checks that the sampling options do not contradict each other.
    pub fn check_options(&self) -> (checked: Result<(), VideoError>)
        ensures
            match checked {
                Ok(_) => self.num_frames is None || (self.fps_bits is None && self.max_frames is None),
                Err(VideoError::FpsWithNumFrames) => self.num_frames is Some && self.fps_bits is Some,
                Err(VideoError::MaxFramesWithNumFrames) => {
                    self.num_frames is Some && self.fps_bits is None && self.max_frames is Some
                },
                Err(_) => false,
            },
    {
        if self.fps_bits.is_some() && self.num_frames.is_some() {
            return Err(VideoError::FpsWithNumFrames);
        }
        if self.max_frames.is_some() && self.num_frames.is_some() {
            return Err(VideoError::MaxFramesWithNumFrames);
        }
        Ok(())
    }

    /// Whether the duration of the video is needed to choose the frames. Fails
    /// when the video has no frames.
    pub fn needs_duration(&self, total_frames: u32) -> (needed: Result<bool, VideoError>)
        ensures
            match needed {
                Ok(b) => total_frames > 0 && b == self.fps_bits is Some,
                Err(e) => total_frames == 0 && e is UnknownFrameCount,
            },
    {
        if total_frames == 0 {
            return Err(VideoError::UnknownFrameCount);
        }
        Ok(self.fps_bits.is_some())
    }

    /// The number of frames to sample.
    pub fn requested_frames(&self, total_frames: u32, fps: Option<FpsSampling>) -> (requested: Result<
        u32,
        VideoError,
    >)
        requires
            self.fps_bits is Some ==> fps is Some,
        ensures
            match requested {
                Ok(n) => {
                    &&& self.fps_bits is Some ==> is_positive_f32(fps->0.duration_bits)
                    &&& n == self.wanted_frames(total_frames, fps)
                    &&& 1 <= n <= total_frames
                },
                Err(VideoError::UnknownDuration) => {
                    self.fps_bits is Some && !is_positive_f32(fps->0.duration_bits)
                },
                Err(VideoError::TooManyFrames { requested, total }) => {
                    &&& self.fps_bits is Some ==> is_positive_f32(fps->0.duration_bits)
                    &&& requested == self.wanted_frames(total_frames, fps)
                    &&& total == total_frames
                    &&& requested > total
                },
                Err(_) => false,
            },
    {
        let base: u32 = match self.fps_bits {
            Some(_) => {
                let sampling = fps.unwrap();
                if !is_positive_f32(sampling.duration_bits) {
                    return Err(VideoError::UnknownDuration);
                }
                sampling.frames
            },
            None => match self.num_frames {
                Some(n) => n,
                None => total_frames,
            },
        };
        let limit: u32 = match self.max_frames {
            Some(m) => m,
            None => base,
        };
        let limited: u32 = if base <= limit { base } else { limit };
        let requested: u32 = if limited >= 1 { limited } else { 1 };
        if requested > total_frames {
            return Err(VideoError::TooManyFrames { requested, total: total_frames });
        }
        Ok(requested)
    }

    /// Checks that frames have pixels and that the sampled frames together have
    /// no more of them than allowed.
    pub fn check_size(&self, requested: u32, width: u32, height: u32) -> (checked: Result<
        (),
        VideoError,
    >)
        ensures
            match checked {
                Ok(_) => {
                    &&& width > 0 && height > 0
                    &&& width * height * requested <= self.pixel_limit()
                },
                Err(VideoError::InvalidDimensions { width: w, height: h }) => {
                    (width == 0 || height == 0) && w == width && h == height
                },
                Err(VideoError::TooManyPixels { requested: r, width: w, height: h, max_pixels }) => {
                    &&& width > 0 && height > 0
                    &&& width * height * requested > self.pixel_limit()
                    &&& r == requested && w == width && h == height
                    &&& max_pixels == self.pixel_limit()
                },
                Err(_) => false,
            },
    {
        if width == 0 || height == 0 {
            return Err(VideoError::InvalidDimensions { width, height });
        }
        let max_pixels: usize = match self.max_pixels {
            Some(m) => m,
            None => usize::MAX,
        };
        assert(width * height * requested <= u32::MAX * u32::MAX * u32::MAX) by (nonlinear_arith)
            requires
                0 <= width <= u32::MAX,
                0 <= height <= u32::MAX,
                0 <= requested <= u32::MAX,
        ;
        assert(0 <= width * height <= u32::MAX * u32::MAX) by (nonlinear_arith)
            requires
                0 <= width <= u32::MAX,
                0 <= height <= u32::MAX,
        ;
        let pixels: u128 = width as u128 * height as u128 * requested as u128;
        if pixels > max_pixels as u128 {
            return Err(VideoError::TooManyPixels { requested, width, height, max_pixels });
        }
        Ok(())
    }
}

/// The `i`-th of `requested` frame indices spread evenly over `total` frames:
/// the middle frame when only one is requested, otherwise from the first frame to
/// the last.
pub open spec fn target_index(i: int, requested: int, total: int) -> int {
    if requested == 1 {
        total / 2
    } else {
        (i * (total - 1)) / (requested - 1)
    }
}

/// The frame indices to keep.
pub open spec fn target_set(requested: int, total: int) -> Set<u32> {
    Set::new(
        |x: u32| exists|i: int| 0 <= i < requested && #[trigger] target_index(i, requested, total) == x,
    )
}

/// Successive target indices are a whole step apart: as far as the ideal
/// spacing, rounded down or up, and so never the same frame twice.
pub proof fn target_indices_are_evenly_spaced(i: int, requested: int, total: int)
    requires
        1 <= requested <= total,
        0 <= i,
        i + 1 < requested,
    ensures
        ({
            let spacing = (total - 1) / (requested - 1);
            let step = target_index(i + 1, requested, total) - target_index(i, requested, total);
            &&& spacing >= 1
            &&& step == spacing || step == spacing + 1
            &&& (total - 1) % (requested - 1) == 0 ==> step == spacing
        }),
{
    let d = requested - 1;
    let m = total - 1;
    let a = i * m;
    assert((i + 1) * m == a + m) by (nonlinear_arith)
        requires
            a == i * m,
    ;
    vstd::arithmetic::div_mod::lemma_fundamental_div_mod(a, d);
    vstd::arithmetic::div_mod::lemma_fundamental_div_mod(m, d);
    vstd::arithmetic::div_mod::lemma_mod_bound(a, d);
    vstd::arithmetic::div_mod::lemma_mod_bound(m, d);
    let q = a / d;
    let r = a % d;
    let qm = m / d;
    let rm = m % d;
    if r + rm < d {
        assert(a + m == d * (q + qm) + (r + rm)) by (nonlinear_arith)
            requires
                a == d * q + r,
                m == d * qm + rm,
        ;
        vstd::arithmetic::div_mod::lemma_fundamental_div_mod_converse(a + m, d, q + qm, r + rm);
    } else {
        assert(a + m == d * (q + qm + 1) + (r + rm - d)) by (nonlinear_arith)
            requires
                a == d * q + r,
                m == d * qm + rm,
        ;
        vstd::arithmetic::div_mod::lemma_fundamental_div_mod_converse(
            a + m,
            d,
            q + qm + 1,
            r + rm - d,
        );
    }
    assert(qm >= 1) by {
        vstd::arithmetic::div_mod::lemma_div_is_ordered(d, m, d);
        vstd::arithmetic::div_mod::lemma_div_by_self(d);
    }
}

/// Target indices grow strictly.
pub proof fn target_indices_grow(i: int, j: int, requested: int, total: int)
    requires
        1 <= requested <= total,
        0 <= i < j < requested,
    ensures
        target_index(i, requested, total) < target_index(j, requested, total),
    decreases j - i,
{
    target_indices_are_evenly_spaced(j - 1, requested, total);
    if i < j - 1 {
        target_indices_grow(i, j - 1, requested, total);
    }
}

/// Target indices start at the first frame, end at the last and stay between
/// them; a single one is the middle frame.
pub proof fn target_indices_span_the_video(i: int, requested: int, total: int)
    requires
        1 <= requested <= total,
        0 <= i < requested,
    ensures
        0 <= target_index(i, requested, total) < total,
        requested == 1 ==> target_index(i, requested, total) == total / 2,
        requested > 1 ==> target_index(0, requested, total) == 0,
        requested > 1 ==> target_index(requested - 1, requested, total) == total - 1,
{
    if requested > 1 {
        let d = requested - 1;
        let m = total - 1;
        assert(0 * m == 0);
        vstd::arithmetic::div_mod::lemma_div_of0(d);
        vstd::arithmetic::mul::lemma_mul_is_commutative(d, m);
        vstd::arithmetic::div_mod::lemma_div_by_multiple(m, d);
        if i > 0 {
            target_indices_grow(0, i, requested, total);
        }
        if i < d {
            target_indices_grow(i, d, requested, total);
        }
    }
}

/// The frame indices to keep when `requested` of `total` frames are sampled.
pub fn target_indices(requested: u32, total: u32) -> (targets: HashSet<u32>)
    requires
        1 <= requested <= total,
    ensures
        targets@ == target_set(requested as int, total as int),
{
    let mut targets: HashSet<u32> = HashSet::new();
    let mut i: u32 = 0;
    while i < requested
        invariant
            1 <= requested <= total,
            i <= requested,
            targets@ == Set::new(
                |x: u32|
                    exists|k: int|
                        0 <= k < i && #[trigger] target_index(k, requested as int, total as int) == x,
            ),
        decreases requested - i,
    {
        let ghost before = targets@;
        proof {
            target_indices_span_the_video(i as int, requested as int, total as int);
        }
        let index: u32 = if requested == 1 {
            total / 2
        } else {
            assert(i * (total - 1) <= u32::MAX * u32::MAX) by (nonlinear_arith)
                requires
                    0 <= i <= u32::MAX,
                    0 <= total - 1 <= u32::MAX,
            ;
            assert(0 <= i * (total - 1)) by (nonlinear_arith)
                requires
                    0 <= i,
                    0 <= total - 1,
            ;
            ((i as u64 * (total - 1) as u64) / (requested - 1) as u64) as u32
        };
        assert(index == target_index(i as int, requested as int, total as int));
        targets.insert(index);
        proof {
            let after = Set::new(
                |x: u32|
                    exists|k: int|
                        0 <= k < i + 1 && #[trigger] target_index(k, requested as int, total as int)
                            == x,
            );
            assert forall|x: u32| #[trigger] after.contains(x) <==> targets@.contains(x) by {
                if after.contains(x) {
                    let k = choose|k: int|
                        0 <= k < i + 1 && #[trigger] target_index(k, requested as int, total as int)
                            == x;
                    if k < i {
                        assert(before.contains(x));
                    }
                }
            }
            assert(targets@ =~= after);
        }
        i = i + 1;
    }
    assert(targets@ =~= target_set(requested as int, total as int));
    targets
}

/// What the decoder reports next.
#[derive(Debug)]
pub enum DecodeEvent<'a> {
    /// A frame, with its bytes when they lie in one piece.
    Frame(Option<&'a [u8]>),
    /// The stream has ended.
    Exhausted,
    /// A frame that could not be decoded.
    Failed,
}

/// The content of a [`DecodeEvent`].
pub enum EventView {
    Frame(Option<Seq<u8>>),
    Exhausted,
    Failed,
}

impl<'a> View for DecodeEvent<'a> {
    type V = EventView;

    open spec fn view(&self) -> EventView {
        match self {
            DecodeEvent::Frame(Some(bytes)) => EventView::Frame(Some(bytes@)),
            DecodeEvent::Frame(None) => EventView::Frame(None),
            DecodeEvent::Exhausted => EventView::Exhausted,
            DecodeEvent::Failed => EventView::Failed,
        }
    }
}

/// The state of a [`FrameSampler`].
#[verifier::ext_equal]
pub struct SamplerView {
    /// Indices of the frames to keep.
    pub targets: Set<u32>,
    /// How many frames to keep.
    pub requested: u32,
    /// Index of the next frame.
    pub position: usize,
    /// How many frames were kept so far.
    pub decoded: u32,
    /// The bytes of the kept frames, one after the other.
    pub bytes: Seq<u8>,
}

impl SamplerView {
    /// A sampler that has seen nothing yet.
    pub open spec fn start(requested: u32, total: u32) -> SamplerView {
        SamplerView {
            targets: target_set(requested as int, total as int),
            requested,
            position: 0,
            decoded: 0,
            bytes: Seq::empty(),
        }
    }

    /// Whether the next frame is one to keep, and its bytes can be had.
    pub open spec fn keeps(self, event: EventView) -> bool {
        event matches EventView::Frame(Some(_)) && self.targets.contains(self.position as u32)
    }

    /// The state after `event`: a kept frame is appended and counted, and every
    /// frame, good or bad, moves the position on.
    pub open spec fn after(self, event: EventView) -> SamplerView {
        match event {
            EventView::Exhausted => self,
            EventView::Frame(Some(bytes)) if self.keeps(event) => SamplerView {
                position: (self.position + 1) as usize,
                decoded: (self.decoded + 1) as u32,
                bytes: self.bytes + bytes,
                ..self
            },
            _ => SamplerView { position: (self.position + 1) as usize, ..self },
        }
    }

    /// Whether decoding stops after `event`: at the end of the stream, or with
    /// the last frame that is needed.
    pub open spec fn stops_at(self, event: EventView) -> bool {
        event is Exhausted || (self.keeps(event) && self.decoded + 1 >= self.requested)
    }

    /// The state after the events in turn, up to the one that stops decoding.
    pub open spec fn run(self, events: Seq<EventView>) -> SamplerView
        decreases events.len(),
    {
        if events.len() == 0 {
            self
        } else if self.stops_at(events[0]) {
            self.after(events[0])
        } else {
            self.after(events[0]).run(events.drop_first())
        }
    }
}

/// Keeps the target frames of a video while it is decoded in display order.
#[derive(Debug)]
pub struct FrameSampler {
    targets: HashSet<u32>,
    requested: u32,
    position: usize,
    decoded: u32,
    bytes: Vec<u8>,
}

impl View for FrameSampler {
    type V = SamplerView;

    closed spec fn view(&self) -> SamplerView {
        SamplerView {
            targets: self.targets@,
            requested: self.requested,
            position: self.position,
            decoded: self.decoded,
            bytes: self.bytes@,
        }
    }
}

impl FrameSampler {
    /// A sampler for `requested` of `total` frames.
    pub fn new(requested: u32, total: u32) -> (sampler: Self)
        requires
            1 <= requested <= total,
        ensures
            sampler@ == SamplerView::start(requested, total),
    {
        FrameSampler {
            targets: target_indices(requested, total),
            requested,
            position: 0,
            decoded: 0,
            bytes: Vec::new(),
        }
    }

    /// How many frames were kept so far.
    pub fn decoded(&self) -> (n: u32)
        ensures
            n == self@.decoded,
    {
        self.decoded
    }

    /// Takes in the next report of the decoder. Returns whether decoding goes on.
    pub fn observe(&mut self, event: DecodeEvent<'_>) -> (goes_on: bool)
        requires
            old(self)@.decoded < old(self)@.requested,
            old(self)@.position < usize::MAX,
        ensures
            final(self)@ == old(self)@.after(event@),
            goes_on == !old(self)@.stops_at(event@),
            goes_on ==> final(self)@.decoded < final(self)@.requested,
    {
        let frame = match event {
            DecodeEvent::Exhausted => {
                return false;
            },
            DecodeEvent::Failed => None,
            DecodeEvent::Frame(frame) => frame,
        };
        let index = #[verifier::truncate] (self.position as u32);
        self.position = self.position + 1;
        if let Some(bytes) = frame {
            if self.targets.contains(&index) {
                self.bytes.extend_from_slice(bytes);
                self.decoded = self.decoded + 1;
                assert(self@.bytes =~= old(self)@.bytes + bytes@);
                return self.decoded < self.requested;
            }
        }
        true
    }
}

impl VideoDecoder {
    /// Whether the duration is known where it is needed.
    pub open spec fn duration_known(&self, fps: Option<FpsSampling>) -> bool {
        self.fps_bits is Some ==> is_positive_f32(fps->0.duration_bits)
    }

    /// Plans the sampling of a video, or says what is wrong with it: its length is
    /// looked at first, then the frames that are asked for, then their size.
    pub fn plan(
        &self,
        total_frames: u32,
        fps: Option<FpsSampling>,
        width: u32,
        height: u32,
    ) -> (planned: Result<FrameSampler, VideoError>)
        requires
            self.fps_bits is Some && total_frames > 0 ==> fps is Some,
        ensures
            ({
                let wanted = self.wanted_frames(total_frames, fps);
                let chosen = total_frames > 0 && self.duration_known(fps) && wanted
                    <= total_frames;
                match planned {
                    Ok(sampler) => {
                        &&& chosen
                        &&& width > 0 && height > 0
                        &&& width * height * wanted <= self.pixel_limit()
                        &&& sampler@ == SamplerView::start(wanted, total_frames)
                    },
                    Err(VideoError::UnknownFrameCount) => total_frames == 0,
                    Err(VideoError::UnknownDuration) => {
                        total_frames > 0 && !self.duration_known(fps)
                    },
                    Err(VideoError::TooManyFrames { requested, total }) => {
                        &&& total_frames > 0 && self.duration_known(fps)
                        &&& wanted > total_frames
                        &&& requested == wanted && total == total_frames
                    },
                    Err(VideoError::InvalidDimensions { width: w, height: h }) => {
                        &&& chosen
                        &&& width == 0 || height == 0
                        &&& w == width && h == height
                    },
                    Err(
                        VideoError::TooManyPixels { requested, width: w, height: h, max_pixels },
                    ) => {
                        &&& chosen
                        &&& width > 0 && height > 0
                        &&& width * height * wanted > self.pixel_limit()
                        &&& requested == wanted && w == width && h == height
                        &&& max_pixels == self.pixel_limit()
                    },
                    Err(_) => false,
                }
            }),
    {
        if let Err(error) = self.needs_duration(total_frames) {
            return Err(error);
        }
        let requested: u32 = match self.requested_frames(total_frames, fps) {
            Ok(requested) => requested,
            Err(error) => {
                return Err(error);
            },
        };
        match self.check_size(requested, width, height) {
            Ok(_) => Ok(FrameSampler::new(requested, total_frames)),
            Err(error) => Err(error),
        }
    }
}

/// A run never keeps more frames than requested.
pub proof fn run_keeps_at_most_the_requested_frames(start: SamplerView, events: Seq<EventView>)
    requires
        start.decoded < start.requested,
        start.position + events.len() <= usize::MAX,
    ensures
        start.run(events).decoded <= start.requested,
        start.run(events).requested == start.requested,
    decreases events.len(),
{
    if events.len() > 0 && !start.stops_at(events[0]) {
        run_keeps_at_most_the_requested_frames(start.after(events[0]), events.drop_first());
    }
}

/// When every frame has the same size, the gathered bytes are whole frames: as
/// many times that size as frames were kept.
pub proof fn run_gathers_whole_frames(start: SamplerView, events: Seq<EventView>, frame_len: nat)
    requires
        start.decoded < start.requested,
        start.position + events.len() <= usize::MAX,
        start.bytes.len() == start.decoded * frame_len,
        forall|i: int|
            0 <= i < events.len() ==> (#[trigger] events[i] matches EventView::Frame(Some(bytes))
                ==> bytes.len() == frame_len),
    ensures
        start.run(events).bytes.len() == start.run(events).decoded * frame_len,
    decreases events.len(),
{
    if events.len() > 0 {
        let event = events[0];
        let next = start.after(event);
        if start.keeps(event) {
            assert((start.decoded + 1) * frame_len == start.decoded * frame_len + frame_len)
                by (nonlinear_arith);
        }
        if !start.stops_at(event) {
            run_gathers_whole_frames(next, events.drop_first(), frame_len);
        }
    }
}

/// The bytes of the frame that an event brings.
pub open spec fn frame_bytes(event: EventView) -> Seq<u8> {
    event->Frame_0->0
}

/// The bytes of the first `count` target frames of a video, one after the other.
pub open spec fn sampled_bytes(
    events: Seq<EventView>,
    requested: int,
    total: int,
    count: nat,
) -> Seq<u8>
    decreases count,
{
    if count == 0 {
        Seq::empty()
    } else {
        sampled_bytes(events, requested, total, (count - 1) as nat) + frame_bytes(
            events[target_index(count - 1, requested, total)],
        )
    }
}

/// The induction behind [`an_intact_video_gives_the_target_frames`]: the frames
/// kept so far are the targets below the position.
proof fn lemma_intact_run(start: SamplerView, events: Seq<EventView>, total: u32)
    requires
        1 <= start.requested <= total,
        start.targets == target_set(start.requested as int, total as int),
        start.decoded < start.requested,
        start.position <= events.len(),
        total <= events.len() <= usize::MAX,
        start.position <= target_index(start.decoded as int, start.requested as int, total as int),
        start.decoded > 0 ==> target_index(
            start.decoded - 1,
            start.requested as int,
            total as int,
        ) < start.position,
        start.bytes == sampled_bytes(
            events,
            start.requested as int,
            total as int,
            start.decoded as nat,
        ),
        forall|i: int|
            0 <= i < total ==> (#[trigger] events[i] matches EventView::Frame(Some(_))),
    ensures
        ({
            let end = start.run(events.skip(start.position as int));
            &&& end.decoded == start.requested
            &&& end.bytes == sampled_bytes(
                events,
                start.requested as int,
                total as int,
                start.requested as nat,
            )
        }),
    decreases events.len() - start.position,
{
    let requested = start.requested as int;
    let c = start.decoded as int;
    target_indices_span_the_video(c, requested, total as int);
    let rest = events.skip(start.position as int);
    let event = rest[0];
    assert(event == events[start.position as int]);
    let k = start.position as u32;
    if start.targets.contains(k) {
        let j = choose|j: int|
            0 <= j < requested && #[trigger] target_index(j, requested, total as int) == k;
        if j < c - 1 {
            target_indices_grow(j, c - 1, requested, total as int);
        }
        if j > c {
            target_indices_grow(c, j, requested, total as int);
        }
        assert(j == c);
        if c + 1 < requested {
            target_indices_grow(c, c + 1, requested, total as int);
        }
    } else {
        if target_index(c, requested, total as int) == k {
            assert(start.targets.contains(k));
        }
    }
    if !start.stops_at(event) {
        assert(rest.drop_first() =~= events.skip(start.position + 1));
        lemma_intact_run(start.after(event), events, total);
    }
}

/// A video whose frames all decode gives every requested frame, and these are the
/// target frames in their order, with all of their bytes.
pub proof fn an_intact_video_gives_the_target_frames(
    requested: u32,
    total: u32,
    events: Seq<EventView>,
)
    requires
        1 <= requested <= total,
        total <= events.len() <= usize::MAX,
        forall|i: int|
            0 <= i < total ==> (#[trigger] events[i] matches EventView::Frame(Some(_))),
    ensures
        ({
            let end = SamplerView::start(requested, total).run(events);
            &&& end.decoded == requested
            &&& end.bytes == sampled_bytes(
                events,
                requested as int,
                total as int,
                requested as nat,
            )
        }),
{
    target_indices_span_the_video(0, requested as int, total as int);
    assert(events.skip(0) =~= events);
    lemma_intact_run(SamplerView::start(requested, total), events, total);
}

/// Whether the event at a position brings a frame to keep: the position is a target,
/// and the frame decodes with its bytes in one piece.
pub open spec fn is_kept(events: Seq<EventView>, requested: int, total: int, position: int) -> bool {
    &&& target_set(requested, total).contains(position as u32)
    &&& events[position] matches EventView::Frame(Some(_))
}

/// How many of the first `n` events bring a frame to keep.
pub open spec fn kept_count(events: Seq<EventView>, requested: int, total: int, n: nat) -> nat
    decreases n,
{
    if n == 0 {
        0
    } else {
        kept_count(events, requested, total, (n - 1) as nat) + if is_kept(
            events,
            requested,
            total,
            n - 1,
        ) {
            1nat
        } else {
            0nat
        }
    }
}

/// The bytes of the frames to keep among the first `n` events, one after the other.
pub open spec fn kept_bytes(events: Seq<EventView>, requested: int, total: int, n: nat) -> Seq<u8>
    decreases n,
{
    if n == 0 {
        Seq::empty()
    } else {
        let before = kept_bytes(events, requested, total, (n - 1) as nat);
        if is_kept(events, requested, total, n - 1) {
            before + frame_bytes(events[n - 1])
        } else {
            before
        }
    }
}

/// How many targets lie below `n`.
spec fn targets_below(requested: int, total: int, n: nat) -> nat
    decreases n,
{
    if n == 0 {
        0
    } else {
        targets_below(requested, total, (n - 1) as nat) + if target_set(
            requested,
            total,
        ).contains((n - 1) as u32) {
            1nat
        } else {
            0nat
        }
    }
}

/// The targets below `n` are the first ones.
proof fn lemma_targets_below(requested: int, total: int, n: nat)
    requires
        1 <= requested <= total <= u32::MAX,
        n <= u32::MAX,
    ensures
        ({
            let c = targets_below(requested, total, n);
            &&& c <= requested
            &&& c < requested ==> n <= target_index(c as int, requested, total)
            &&& c > 0 ==> target_index(c - 1, requested, total) < n
        }),
    decreases n,
{
    if n == 0 {
        target_indices_span_the_video(0, requested, total);
    } else {
        let k = (n - 1) as nat;
        lemma_targets_below(requested, total, k);
        let c = targets_below(requested, total, k) as int;
        if target_set(requested, total).contains(k as u32) {
            let j = choose|j: int|
                0 <= j < requested && #[trigger] target_index(j, requested, total) == k as u32;
            if j < c - 1 {
                target_indices_grow(j, c - 1, requested, total);
            }
            if c < j {
                target_indices_grow(c, j, requested, total);
            }
            assert(j == c);
            if c + 1 < requested {
                target_indices_grow(c, c + 1, requested, total);
            }
        } else if c < requested {
            if target_index(c, requested, total) == k {
                assert(target_index(c, requested, total) == k as u32);
                assert(target_set(requested, total).contains(k as u32));
            }
        }
    }
}

/// No more frames are kept than there are targets, and once all are kept no further
/// one is.
proof fn lemma_all_kept(events: Seq<EventView>, requested: int, total: int, n: nat, end: nat)
    requires
        1 <= requested <= total <= u32::MAX,
        n <= end <= u32::MAX,
    ensures
        kept_count(events, requested, total, n) <= targets_below(requested, total, n),
        kept_count(events, requested, total, n) == requested ==> {
            &&& kept_count(events, requested, total, end) == requested
            &&& kept_bytes(events, requested, total, end) == kept_bytes(
                events,
                requested,
                total,
                n,
            )
            &&& targets_below(requested, total, end) == requested
        },
    decreases end, n,
{
    lemma_targets_below(requested, total, n);
    lemma_targets_below(requested, total, end);
    if n > 0 {
        lemma_all_kept(events, requested, total, (n - 1) as nat, (n - 1) as nat);
    }
    if n < end {
        lemma_all_kept(events, requested, total, n, (end - 1) as nat);
    }
}

/// The induction behind [`the_kept_frames_are_the_targets_that_decode`].
proof fn lemma_run_keeps(start: SamplerView, events: Seq<EventView>, total: u32, end: nat)
    requires
        1 <= start.requested <= total,
        start.targets == target_set(start.requested as int, total as int),
        start.decoded < start.requested,
        start.position <= end <= events.len(),
        end <= u32::MAX,
        end < events.len() ==> events[end as int] is Exhausted,
        forall|i: int| 0 <= i < end ==> !(#[trigger] events[i] is Exhausted),
        start.decoded == kept_count(
            events,
            start.requested as int,
            total as int,
            start.position as nat,
        ),
        start.bytes == kept_bytes(
            events,
            start.requested as int,
            total as int,
            start.position as nat,
        ),
    ensures
        ({
            let last = start.run(events.skip(start.position as int));
            &&& last.decoded == kept_count(events, start.requested as int, total as int, end)
            &&& last.bytes == kept_bytes(events, start.requested as int, total as int, end)
        }),
    decreases end - start.position,
{
    let requested = start.requested as int;
    let position = start.position as nat;
    let rest = events.skip(position as int);
    if position < end {
        let event = rest[0];
        assert(event == events[position as int]);
        let next = start.after(event);
        assert(start.keeps(event) == is_kept(events, requested, total as int, position as int));
        if start.stops_at(event) {
            lemma_all_kept(events, requested, total as int, position + 1, end);
        } else {
            assert(rest.drop_first() =~= events.skip(position as int + 1));
            lemma_run_keeps(next, events, total, end);
        }
    } else if position < events.len() {
        assert(rest[0] == events[end as int]);
    }
}

/// Whatever frames of a video are bad, those that are kept are the targets that
/// decode, in their order and with all of their bytes. `end` is where the stream ends:
/// at the first event that says so, or after the last event.
pub proof fn the_kept_frames_are_the_targets_that_decode(
    requested: u32,
    total: u32,
    events: Seq<EventView>,
    end: nat,
)
    requires
        1 <= requested <= total,
        end <= events.len(),
        end <= u32::MAX,
        end < events.len() ==> events[end as int] is Exhausted,
        forall|i: int| 0 <= i < end ==> !(#[trigger] events[i] is Exhausted),
    ensures
        ({
            let last = SamplerView::start(requested, total).run(events);
            &&& last.decoded == kept_count(events, requested as int, total as int, end)
            &&& last.bytes == kept_bytes(events, requested as int, total as int, end)
        }),
{
    assert(events.skip(0) =~= events);
    lemma_run_keeps(SamplerView::start(requested, total), events, total, end);
}

/// Exactly as many frames are kept as were requested: no two targets coincide.
pub proof fn target_set_has_the_requested_size(requested: int, total: int)
    requires
        1 <= requested <= total <= u32::MAX,
    ensures
        target_set(requested, total).finite(),
        target_set(requested, total).len() == requested,
{
    let indices = Seq::new(requested as nat, |i: int| target_index(i, requested, total) as u32);
    assert forall|i: int, j: int|
        0 <= i < indices.len() && 0 <= j < indices.len() && i != j implies indices[i]
        != indices[j] by {
        target_indices_span_the_video(i, requested, total);
        target_indices_span_the_video(j, requested, total);
        if i < j {
            target_indices_grow(i, j, requested, total);
        } else {
            target_indices_grow(j, i, requested, total);
        }
    }
    indices.unique_seq_to_set();
    assert forall|x: u32| #[trigger] indices.to_set().contains(x) <==> target_set(
        requested,
        total,
    ).contains(x) by {
        if indices.contains(x) {
            let i = choose|i: int| 0 <= i < indices.len() && indices[i] == x;
            target_indices_span_the_video(i, requested, total);
            assert(target_index(i, requested, total) == x);
        }
        if target_set(requested, total).contains(x) {
            let i = choose|i: int|
                0 <= i < requested && #[trigger] target_index(i, requested, total) == x;
            assert(indices[i] == x);
        }
    }
    assert(indices.to_set() =~= target_set(requested, total));
}

/// A stack of frames: an `ndarray` array of bytes with four axes (frame, row,
/// column, channel).
#[verifier::external_body]
#[derive(Debug)]
pub struct FrameArray {
    array: ndarray::Array4<u8>,
}

/// The lengths of the four axes of a frame array.
pub uninterp spec fn frame_array_shape(frames: FrameArray) -> Seq<usize>;

/// The bytes of a frame array in row-major order.
pub uninterp spec fn frame_array_bytes(frames: FrameArray) -> Seq<u8>;

/// Calls `ndarray::Array4::from_shape_vec` with a row-major shape. When no axis is
/// empty it succeeds exactly when the axes multiply to the number of bytes and that is
/// at most `isize::MAX`, and the array then has that shape and those bytes in that
/// order. Otherwise `ndarray::ShapeError::kind` says which of these is not so.
#[verifier::external_body]
fn array_from_shape_vec(
    frames: usize,
    height: usize,
    width: usize,
    channels: usize,
    bytes: Vec<u8>,
) -> (built: Result<FrameArray, ShapeFault>)
    requires
        frames > 0,
        height > 0,
        width > 0,
        channels > 0,
    ensures
        match built {
            Ok(array) => {
                &&& shape_fault(frames * height * width * channels, bytes@.len() as int) is None
                &&& frame_array_shape(array) == seq![frames, height, width, channels]
                &&& frame_array_bytes(array) == bytes@
            },
            Err(fault) => shape_fault(frames * height * width * channels, bytes@.len() as int)
                == Some(fault),
        },
{
    match ndarray::Array4::from_shape_vec((frames, height, width, channels), bytes) {
        Ok(array) => Ok(FrameArray { array }),
        Err(error) => Err(match error.kind() {
            ndarray::ErrorKind::IncompatibleShape => ShapeFault::IncompatibleShape,
            ndarray::ErrorKind::IncompatibleLayout => ShapeFault::IncompatibleLayout,
            ndarray::ErrorKind::RangeLimited => ShapeFault::RangeLimited,
            ndarray::ErrorKind::OutOfBounds => ShapeFault::OutOfBounds,
            ndarray::ErrorKind::Overflow => ShapeFault::Overflow,
            _ => ShapeFault::Unsupported,
        }),
    }
}

/// Shows a `ndarray::ShapeError` of this kind, with its `Display`.
#[verifier::external_body]
fn shape_error_text(fault: ShapeFault) -> (text: String)
    ensures
        text@ == fault.text(),
{
    let kind = match fault {
        ShapeFault::IncompatibleShape => ndarray::ErrorKind::IncompatibleShape,
        ShapeFault::IncompatibleLayout => ndarray::ErrorKind::IncompatibleLayout,
        ShapeFault::RangeLimited => ndarray::ErrorKind::RangeLimited,
        ShapeFault::OutOfBounds => ndarray::ErrorKind::OutOfBounds,
        ShapeFault::Unsupported => ndarray::ErrorKind::Unsupported,
        ShapeFault::Overflow => ndarray::ErrorKind::Overflow,
    };
    ndarray::ShapeError::from_kind(kind).to_string()
}

impl ShapeFault {
    /// The text of the error.
    pub open spec fn text(self) -> Seq<char> {
        match self {
            ShapeFault::IncompatibleShape =>
                "ShapeError/IncompatibleShape: incompatible shapes"@,
            ShapeFault::IncompatibleLayout =>
                "ShapeError/IncompatibleLayout: incompatible memory layout"@,
            ShapeFault::RangeLimited =>
                "ShapeError/RangeLimited: the shape does not fit in type limits"@,
            ShapeFault::OutOfBounds => "ShapeError/OutOfBounds: out of bounds indexing"@,
            ShapeFault::Unsupported => "ShapeError/Unsupported: unsupported operation"@,
            ShapeFault::Overflow => "ShapeError/Overflow: arithmetic overflow"@,
        }
    }
}

/// Calls `ndarray::ArrayBase::shape`, which gives the lengths of the axes.
#[verifier::external_body]
fn array_shape(frames: &FrameArray) -> (shape: &[usize])
    ensures
        shape@ == frame_array_shape(*frames),
{
    frames.array.shape()
}

/// Calls `ndarray::ArrayBase::into_raw_vec_and_offset` and takes the vector: the
/// very bytes that the array was built from.
#[verifier::external_body]
fn array_into_raw_vec(frames: FrameArray) -> (bytes: Vec<u8>)
    ensures
        bytes@ == frame_array_bytes(frames),
{
    frames.array.into_raw_vec_and_offset().0
}

impl FrameArray {
    /// The lengths of the axes: frames, rows, columns, channels.
    pub fn shape(&self) -> (shape: &[usize])
        ensures
            shape@ == frame_array_shape(*self),
    {
        array_shape(self)
    }

    /// The bytes of all frames in row-major order.
    pub fn into_bytes(self) -> (bytes: Vec<u8>)
        ensures
            bytes@ == frame_array_bytes(self),
    {
        array_into_raw_vec(self)
    }
}

/// The sampled frames of a video.
#[derive(Debug)]
pub struct DecodedVideo {
    pub frames: FrameArray,
    pub metadata: VideoMetadata,
}

impl FrameSampler {
    /// Ends the sampling: the kept frames as one array, with what is known of
    /// the source.
    pub fn finish(
        self,
        strict: bool,
        width: u32,
        height: u32,
        source_fps_bits: u32,
        source_frames: u32,
    ) -> (decoded: Result<DecodedVideo, VideoError>)
        requires
            width > 0,
            height > 0,
        ensures
            ({
                let kept = self@.decoded;
                let complete = kept > 0 && (strict ==> kept == self@.requested);
                let expected = kept * height * width * 3;
                match decoded {
                    Ok(video) => {
                        &&& complete
                        &&& shape_fault(expected, self@.bytes.len() as int) is None
                        &&& frame_array_shape(video.frames) == seq![
                            kept as usize,
                            height as usize,
                            width as usize,
                            3usize,
                        ]
                        &&& frame_array_bytes(video.frames) == self@.bytes
                        &&& video.metadata.source_fps_bits == source_fps_bits
                        &&& video.metadata.source_frames == source_frames
                    },
                    Err(VideoError::NoFrames) => kept == 0,
                    Err(VideoError::MissingFrames) => {
                        kept > 0 && strict && kept != self@.requested
                    },
                    Err(VideoError::Shape(fault)) => {
                        complete && shape_fault(expected, self@.bytes.len() as int) == Some(fault)
                    },
                    Err(_) => false,
                }
            }),
    {
        if self.decoded == 0 {
            return Err(VideoError::NoFrames);
        }
        if strict && self.decoded != self.requested {
            return Err(VideoError::MissingFrames);
        }
        let frames: usize = self.decoded as usize;
        match array_from_shape_vec(frames, height as usize, width as usize, CHANNELS, self.bytes) {
            Ok(array) => Ok(
                DecodedVideo {
                    frames: array,
                    metadata: VideoMetadata { source_fps_bits, source_frames },
                },
            ),
            Err(fault) => Err(VideoError::Shape(fault)),
        }
    }
}

/// A video whose frames all decode, each with the bytes of its pixels, gives
/// what even a strict [`FrameSampler::finish`] accepts: every requested frame,
/// and exactly the bytes that fill the array.
pub proof fn an_intact_video_fills_the_array(
    requested: u32,
    total: u32,
    width: u32,
    height: u32,
    events: Seq<EventView>,
)
    requires
        1 <= requested <= total,
        total <= events.len() <= usize::MAX,
        forall|i: int|
            0 <= i < total ==> (#[trigger] events[i] matches EventView::Frame(Some(_))),
        forall|i: int|
            0 <= i < events.len() ==> (#[trigger] events[i] matches EventView::Frame(Some(bytes))
                ==> bytes.len() == height * width * 3),
    ensures
        ({
            let end = SamplerView::start(requested, total).run(events);
            &&& end.decoded == requested
            &&& end.bytes.len() == end.decoded * height * width * 3
        }),
{
    let start = SamplerView::start(requested, total);
    let frame_len = (height * width * 3) as nat;
    assert(height * width >= 0) by (nonlinear_arith);
    an_intact_video_gives_the_target_frames(requested, total, events);
    run_gathers_whole_frames(start, events, frame_len);
    let n = start.run(events).decoded;
    assert(n * (height * width * 3) == n * height * width * 3) by (nonlinear_arith);
}

impl VideoError {
    /// The text of the error.
    pub open spec fn text(self) -> Seq<char> {
        match self {
            VideoError::FpsWithNumFrames =>
                "fps and num_frames cannot be specified at the same time"@,
            VideoError::MaxFramesWithNumFrames =>
                "max_frames and num_frames cannot be specified at the same time"@,
            VideoError::UnknownFrameCount => "Cannot determine the video frame count"@,
            VideoError::UnknownDuration => "Cannot determine the video duration"@,
            VideoError::TooManyFrames { requested, total } =>
                "Cannot decode "@ + text::decimal_numeral(requested as nat) + " frames from "@
                + text::decimal_numeral(total as nat) + " total frames"@,
            VideoError::InvalidDimensions { width, height } =>
                "Invalid video dimensions "@ + text::decimal_numeral(width as nat) + "x"@
                + text::decimal_numeral(height as nat),
            VideoError::TooManyPixels { requested, width, height, max_pixels } =>
                "Video dimensions "@ + text::decimal_numeral(requested as nat) + "x"@
                + text::decimal_numeral(width as nat) + "x"@ + text::decimal_numeral(height as nat)
                + " exceed max pixels "@ + text::decimal_numeral(max_pixels as nat),
            VideoError::NoFrames => "Failed to decode any frames, check for video corruption"@,
            VideoError::MissingFrames =>
                "Failed to decode all requested frames (strict mode), check for video corruption"@,
            VideoError::Shape(fault) => fault.text(),
        }
    }

    /// The text of the error.
    pub fn message(&self) -> (message: String)
        ensures
            message@ == self.text(),
    {
        match self {
            VideoError::FpsWithNumFrames =>
                "fps and num_frames cannot be specified at the same time".to_owned(),
            VideoError::MaxFramesWithNumFrames =>
                "max_frames and num_frames cannot be specified at the same time".to_owned(),
            VideoError::UnknownFrameCount => "Cannot determine the video frame count".to_owned(),
            VideoError::UnknownDuration => "Cannot determine the video duration".to_owned(),
            VideoError::TooManyFrames { requested, total } => {
                let mut message = "Cannot decode ".to_owned();
                message.append(text::decimal_text(*requested as u64).as_str());
                message.append(" frames from ");
                message.append(text::decimal_text(*total as u64).as_str());
                message.append(" total frames");
                message
            },
            VideoError::InvalidDimensions { width, height } => {
                let mut message = "Invalid video dimensions ".to_owned();
                message.append(text::decimal_text(*width as u64).as_str());
                message.append("x");
                message.append(text::decimal_text(*height as u64).as_str());
                message
            },
            VideoError::TooManyPixels { requested, width, height, max_pixels } => {
                let mut message = "Video dimensions ".to_owned();
                message.append(text::decimal_text(*requested as u64).as_str());
                message.append("x");
                message.append(text::decimal_text(*width as u64).as_str());
                message.append("x");
                message.append(text::decimal_text(*height as u64).as_str());
                message.append(" exceed max pixels ");
                message.append(text::decimal_text(*max_pixels as u64).as_str());
                message
            },
            VideoError::NoFrames =>
                "Failed to decode any frames, check for video corruption".to_owned(),
            VideoError::MissingFrames =>
                "Failed to decode all requested frames (strict mode), check for video corruption".to_owned(),
            VideoError::Shape(fault) => shape_error_text(*fault),
        }
    }
}

/// A target index is the exact place of even spacing, rounded down; a single target is
/// the middle of the video, rounded down.
pub proof fn target_indices_are_rounded_down(i: int, requested: int, total: int)
    requires
        1 <= requested <= total,
        0 <= i < requested,
    ensures
        requested > 1 ==> target_index(i, requested, total) * (requested - 1) <= i * (total - 1)
            < (target_index(i, requested, total) + 1) * (requested - 1),
        requested == 1 ==> 2 * target_index(i, requested, total) <= total < 2 * target_index(
            i,
            requested,
            total,
        ) + 2,
{
    if requested > 1 {
        let a = i * (total - 1);
        let d = requested - 1;
        let q = a / d;
        vstd::arithmetic::div_mod::lemma_fundamental_div_mod(a, d);
        vstd::arithmetic::div_mod::lemma_mod_bound(a, d);
        assert(q * d <= a < (q + 1) * d) by (nonlinear_arith)
            requires
                a == d * q + a % d,
                0 <= a % d < d,
        ;
    }
}

/// The frames to keep are the target frames and no others.
pub proof fn the_targets_are_the_target_indices(requested: int, total: int, x: u32)
    requires
        1 <= requested <= total <= u32::MAX,
    ensures
        target_set(requested, total).contains(x) <==> exists|i: int|
            0 <= i < requested && #[trigger] target_index(i, requested, total) == x,
        forall|i: int|
            0 <= i < requested ==> target_set(requested, total).contains(
                #[trigger] target_index(i, requested, total) as u32,
            ),
{
    assert forall|i: int| 0 <= i < requested implies target_set(requested, total).contains(
        #[trigger] target_index(i, requested, total) as u32,
    ) by {
        target_indices_span_the_video(i, requested, total);
    }
}

/// As many frames are sampled as the frame rate gives, or as were asked for, or all;
/// but no more than the limit, and at least one.
pub proof fn the_number_of_frames_follows_the_options(
    decoder: VideoDecoder,
    total_frames: u32,
    fps: Option<FpsSampling>,
)
    requires
        decoder.fps_bits is Some ==> fps is Some,
    ensures
        ({
            let wanted = decoder.wanted_frames(total_frames, fps);
            &&& wanted >= 1
            &&& decoder.max_frames matches Some(limit) ==> wanted <= limit || wanted == 1
            &&& decoder.fps_bits is Some ==> wanted <= fps->0.frames || wanted == 1
            &&& decoder.fps_bits is Some && fps->0.frames >= 1 && (
            decoder.max_frames matches Some(limit) ==> fps->0.frames <= limit) ==> wanted
                == fps->0.frames
            &&& decoder.fps_bits is None && decoder.max_frames is None ==> (
            decoder.num_frames matches Some(n) ==> n >= 1 ==> wanted == n)
            &&& decoder.fps_bits is None && decoder.num_frames is None && decoder.max_frames is None
                && total_frames >= 1 ==> wanted == total_frames
            &&& decoder.max_frames matches Some(limit) ==> (limit >= 1 && limit <= (
            if decoder.fps_bits is Some {
                fps->0.frames
            } else if decoder.num_frames is Some {
                decoder.num_frames->0
            } else {
                total_frames
            }) ==> wanted == limit)
        }),
{
}

/// Without a limit on the pixels only the machine sets one.
pub proof fn the_pixel_limit_is_the_given_one(decoder: VideoDecoder)
    ensures
        decoder.max_pixels matches Some(limit) ==> decoder.pixel_limit() == limit,
        decoder.max_pixels is None ==> decoder.pixel_limit() == usize::MAX,
{
}

/// The duration matters exactly where a frame rate is given, and has to be positive
/// there.
pub proof fn the_duration_matters_for_a_frame_rate(
    decoder: VideoDecoder,
    sampling: FpsSampling,
)
    ensures
        decoder.fps_bits is None ==> decoder.duration_known(Some(sampling))
            && decoder.duration_known(None),
        decoder.fps_bits is Some ==> decoder.duration_known(Some(sampling)) == is_positive_f32(
            sampling.duration_bits,
        ),
{
}

/// Bytes make an array exactly when there are as many as it holds, and no array holds
/// more than `isize::MAX`.
pub proof fn an_array_is_filled_exactly(expected: int, len: int)
    requires
        0 <= len <= isize::MAX,
    ensures
        shape_fault(expected, len) is None <==> len == expected,
        expected > isize::MAX ==> shape_fault(expected, len) == Some(ShapeFault::Overflow),
        len < expected <= isize::MAX ==> shape_fault(expected, len) == Some(
            ShapeFault::OutOfBounds,
        ),
        len > expected ==> shape_fault(expected, len) == Some(ShapeFault::IncompatibleShape),
{
}

/// Where the bytes of equally large target frames stand.
proof fn lemma_sampled_frame(
    events: Seq<EventView>,
    requested: int,
    total: int,
    count: nat,
    frame_len: nat,
    i: int,
    b: int,
)
    requires
        1 <= requested <= total <= events.len(),
        count <= requested,
        forall|k: int|
            0 <= k < total ==> (#[trigger] events[k] matches EventView::Frame(Some(bytes))
                && bytes.len() == frame_len),
    ensures
        sampled_bytes(events, requested, total, count).len() == count * frame_len,
        0 <= i < count && 0 <= b < frame_len ==> 0 <= i * frame_len + b < count * frame_len
            && sampled_bytes(events, requested, total, count)[i * frame_len + b]
            == events[target_index(i, requested, total)]->Frame_0->0[b],
    decreases count,
{
    if count > 0 {
        let n = (count - 1) as nat;
        lemma_sampled_frame(events, requested, total, n, frame_len, i, b);
        target_indices_span_the_video(n as int, requested, total);
        assert(count * frame_len == n * frame_len + frame_len) by (nonlinear_arith)
            requires
                count == n + 1,
        ;
        let frame = events[target_index(n as int, requested, total)];
        assert(frame matches EventView::Frame(Some(bytes)) && bytes.len() == frame_len);
    } else {
        assert(0 * frame_len == 0) by (nonlinear_arith);
    }
}

/// In a video whose frames all decode and are equally large, the bytes of the `i`-th
/// target frame stand in the `i`-th place: byte `b` of that frame is found at `b` behind
/// the `i` frames before it. There are as many bytes as in the requested frames.
pub proof fn each_target_frame_stands_in_its_place(
    requested: u32,
    total: u32,
    events: Seq<EventView>,
    frame_len: nat,
    i: int,
    b: int,
)
    requires
        1 <= requested <= total,
        total <= events.len() <= usize::MAX,
        forall|k: int|
            0 <= k < total ==> (#[trigger] events[k] matches EventView::Frame(Some(bytes))
                && bytes.len() == frame_len),
        0 <= i < requested,
        0 <= b < frame_len,
    ensures
        ({
            let bytes = SamplerView::start(requested, total).run(events).bytes;
            &&& bytes.len() == requested * frame_len
            &&& 0 <= i * frame_len + b < bytes.len()
            &&& bytes[i * frame_len + b] == events[target_index(
                i,
                requested as int,
                total as int,
            )]->Frame_0->0[b]
        }),
{
    an_intact_video_gives_the_target_frames(requested, total, events);
    lemma_sampled_frame(
        events,
        requested as int,
        total as int,
        requested as nat,
        frame_len,
        i,
        b,
    );
}

/// One event at a time: a frame at a target position is counted and its bytes are put
/// behind those before; any other frame, and a bad one, only moves the position on; the
/// end of the stream changes nothing and ends the decoding.
pub proof fn a_frame_is_kept_exactly_at_a_target(sampler: SamplerView, bytes: Seq<u8>)
    requires
        sampler.decoded < sampler.requested,
        sampler.position < usize::MAX,
    ensures
        ({
            let frame = EventView::Frame(Some(bytes));
            let after = sampler.after(frame);
            if sampler.targets.contains(sampler.position as u32) {
                &&& after.decoded == sampler.decoded + 1
                &&& after.bytes == sampler.bytes + bytes
                &&& sampler.stops_at(frame) <==> after.decoded == sampler.requested
            } else {
                &&& after.decoded == sampler.decoded
                &&& after.bytes == sampler.bytes
                &&& !sampler.stops_at(frame)
            }
        }),
        ({
            let after = sampler.after(EventView::Frame(Some(bytes)));
            &&& after.position == sampler.position + 1
            &&& after.targets == sampler.targets
            &&& after.requested == sampler.requested
        }),
        sampler.after(EventView::Failed) == (SamplerView {
            position: (sampler.position + 1) as usize,
            ..sampler
        }),
        sampler.after(EventView::Frame(None)) == sampler.after(EventView::Failed),
        sampler.after(EventView::Exhausted) == sampler,
        sampler.stops_at(EventView::Exhausted),
        !sampler.stops_at(EventView::Failed),
        !sampler.stops_at(EventView::Frame(None)),
{
}

/// What a decoder reports is seen as it is: the bytes of a frame are those that came
/// with it.
pub proof fn an_event_is_seen_as_it_is<'a>(event: DecodeEvent<'a>)
    ensures
        event matches DecodeEvent::Frame(Some(bytes)) ==> event@ == EventView::Frame(Some(bytes@)),
        event is Frame && event->0 is None ==> event@ == EventView::Frame(None),
        event is Exhausted ==> event@ is Exhausted,
        event is Failed ==> event@ is Failed,
{
}

/// The text of an error about a video gives the numbers that it is about, each in its
/// place.
pub proof fn a_video_error_gives_its_numbers(
    requested: u32,
    total: u32,
    width: u32,
    height: u32,
    max_pixels: usize,
)
    ensures
        (VideoError::TooManyFrames { requested, total }).text() == "Cannot decode "@
            + text::decimal_numeral(requested as nat) + " frames from "@ + text::decimal_numeral(
            total as nat,
        ) + " total frames"@,
        (VideoError::InvalidDimensions { width, height }).text() == "Invalid video dimensions "@
            + text::decimal_numeral(width as nat) + "x"@ + text::decimal_numeral(height as nat),
        (VideoError::TooManyPixels { requested, width, height, max_pixels }).text()
            == "Video dimensions "@ + text::decimal_numeral(requested as nat) + "x"@
            + text::decimal_numeral(width as nat) + "x"@ + text::decimal_numeral(height as nat)
            + " exceed max pixels "@ + text::decimal_numeral(max_pixels as nat),
{
}

/// The text of an error about a video says what is wrong with it.
pub proof fn a_video_error_says_what_is_wrong(error: VideoError)
    ensures
        error is FpsWithNumFrames ==> error.text()
            == "fps and num_frames cannot be specified at the same time"@,
        error is MaxFramesWithNumFrames ==> error.text()
            == "max_frames and num_frames cannot be specified at the same time"@,
        error is UnknownFrameCount ==> error.text() == "Cannot determine the video frame count"@,
        error is UnknownDuration ==> error.text() == "Cannot determine the video duration"@,
        error is NoFrames ==> error.text()
            == "Failed to decode any frames, check for video corruption"@,
        error is MissingFrames ==> error.text()
            == "Failed to decode all requested frames (strict mode), check for video corruption"@,
        error matches VideoError::Shape(fault) ==> error.text() == fault.text(),
{
}

} // verus!
