use vstd::prelude::*;
use crate::config::VadConfig;

verus! {

/// A voiced run with its padding, as the detector emits it. Offsets count
/// samples from the start of the session; the segment covers
/// `start_offset .. end_offset`.
#[derive(Debug)]
pub struct SpeechSegment<T> {
    pub start_offset: u64,
    pub end_offset: u64,
    pub samples: Vec<T>,
}

/// A segment as contracts see it.
pub ghost struct SegmentView<T> {
    pub start_offset: nat,
    pub end_offset: nat,
    pub samples: Seq<T>,
}

impl<T> View for SpeechSegment<T> {
    type V = SegmentView<T>;

    open spec fn view(&self) -> SegmentView<T> {
        SegmentView {
            start_offset: self.start_offset as nat,
            end_offset: self.end_offset as nat,
            samples: self.samples@,
        }
    }
}

/// What the detector says of one frame: its tag, for readers of the annotated
/// stream, and the segment that the frame completed, if it completed one.
pub struct FrameOutput<T> {
    pub active: bool,
    pub segment: Option<SpeechSegment<T>>,
}

impl<T> FrameOutput<T> {
    /// The completed segment as contracts see it.
    pub open spec fn segment_view(&self) -> Option<SegmentView<T>> {
        match self.segment {
            Some(seg) => Some(seg@),
            None => None,
        }
    }
}

/// How many samples a duration covers at a rate, rounded down.
pub open spec fn samples_in(ms: u32, rate: u32) -> nat {
    ((ms as nat * rate as nat) / 1000) as nat
}

/// The last `n` items of `s`, or all of `s` where it has fewer.
pub open spec fn last_of<T>(s: Seq<T>, n: nat) -> Seq<T> {
    if s.len() <= n {
        s
    } else {
        s.subrange(s.len() - n, s.len() as int)
    }
}

/// Groups the samples of a stream into frames of one fixed length.
pub struct FrameAssembler<T> {
    frame_len: usize,
    pending: Vec<T>,
}

/// The assembler as contracts see it.
pub ghost struct AssemblerView<T> {
    pub frame_len: nat,
    /// The samples of the frame that is not full yet.
    pub pending: Seq<T>,
}

impl<T> AssemblerView<T> {
    pub open spec fn consistent(self) -> bool {
        self.pending.len() < self.frame_len
    }

    /// Whether `sample` completes a frame.
    pub open spec fn completes(self) -> bool {
        self.pending.len() + 1 >= self.frame_len
    }

    /// The assembler after `sample`.
    pub open spec fn pushed(self, sample: T) -> AssemblerView<T> {
        if self.completes() {
            AssemblerView { pending: Seq::empty(), ..self }
        } else {
            AssemblerView { pending: self.pending.push(sample), ..self }
        }
    }

    /// The frame that `sample` completes, if it completes one.
    pub open spec fn frame(self, sample: T) -> Option<Seq<T>> {
        if self.completes() {
            Some(self.pending.push(sample))
        } else {
            None
        }
    }
}

impl<T> View for FrameAssembler<T> {
    type V = AssemblerView<T>;

    closed spec fn view(&self) -> AssemblerView<T> {
        AssemblerView { frame_len: self.frame_len as nat, pending: self.pending@ }
    }
}

/// An optional frame as contracts see it.
pub open spec fn frame_view<T>(frame: Option<Vec<T>>) -> Option<Seq<T>> {
    match frame {
        Some(v) => Some(v@),
        None => None,
    }
}

impl<T> FrameAssembler<T> {
    /// An assembler for frames of `frame_len` samples, or `None` for a length
    /// of zero.
    pub fn new(frame_len: usize) -> (r: Option<FrameAssembler<T>>)
        ensures
            frame_len == 0 ==> r.is_none(),
            frame_len > 0 ==> r.is_some() && r.unwrap()@ == (AssemblerView::<T> {
                frame_len: frame_len as nat,
                pending: Seq::empty(),
            }) && r.unwrap()@.consistent(),
    {
        if frame_len == 0 {
            None
        } else {
            Some(FrameAssembler { frame_len, pending: Vec::new() })
        }
    }

    pub fn frame_len(&self) -> (r: usize)
        ensures
            r == self@.frame_len,
    {
        self.frame_len
    }

    /// Takes one sample and hands out the frame that it completes.
    pub fn push(&mut self, sample: T) -> (r: Option<Vec<T>>)
        requires
            old(self)@.consistent(),
        ensures
            final(self)@.consistent(),
            final(self)@ == old(self)@.pushed(sample),
            frame_view(r) == old(self)@.frame(sample),
    {
        self.pending.push(sample);
        if self.pending.len() >= self.frame_len {
            let mut frame: Vec<T> = Vec::new();
            frame.append(&mut self.pending);
            assert(frame@ =~= old(self)@.pending.push(sample));
            Some(frame)
        } else {
            None
        }
    }
}

/// Every frame handed out has exactly the assembler's length, and no sample
/// is lost or reordered: what was pending and the new sample are either the
/// frame or what is pending afterwards.
pub proof fn lemma_frames_are_full<T>(a: AssemblerView<T>, sample: T)
    requires
        a.consistent(),
    ensures
        a.pushed(sample).consistent(),
        match a.frame(sample) {
            Some(f) => f.len() == a.frame_len && f + a.pushed(sample).pending == a.pending.push(
                sample,
            ),
            None => a.pushed(sample).pending == a.pending.push(sample),
        },
{
    if a.completes() {
        assert(a.pending.push(sample) + Seq::<T>::empty() =~= a.pending.push(sample));
    }
}

/// The detector: it reads frames in order and keeps the samples that a
/// segment may still need.
pub struct VoiceActivityDetector<T> {
    sample_rate: u32,
    position: u64,
    tail: Vec<T>,
    in_speech: bool,
    run: u64,
}

/// The detector as contracts see it.
pub ghost struct DetectorView<T> {
    pub sample_rate: u32,
    /// How many samples have been read.
    pub position: nat,
    /// The samples kept, which are the last ones read.
    pub tail: Seq<T>,
    /// Whether a segment has begun and not ended.
    pub in_speech: bool,
    /// Outside a segment, the length in samples of the run of active frames
    /// just read; inside one, that of the run of inactive frames.
    pub run: nat,
}

impl<T> DetectorView<T> {
    pub open spec fn consistent(self) -> bool {
        &&& self.sample_rate > 0
        &&& self.run <= self.tail.len() <= self.position <= u64::MAX
    }

    pub open spec fn initial(sample_rate: u32) -> DetectorView<T> {
        DetectorView { sample_rate, position: 0, tail: Seq::empty(), in_speech: false, run: 0 }
    }

    /// The length of the segment that ends with an inactive run of `run`
    /// samples at the end of `all`: the padding follows the voiced part as far
    /// as samples have been read.
    pub open spec fn segment_len(all: Seq<T>, run: nat, pad: nat) -> nat {
        if pad < run {
            (all.len() - run + pad) as nat
        } else {
            all.len()
        }
    }

    /// The detector after a frame with the given score, and the segment that
    /// the frame completed.
    ///
    /// Outside a segment, active frames are counted until they have lasted
    /// `min_speech_duration_ms`; then a segment begins, and it reaches back
    /// over the run and the padding before it. An inactive frame ends the
    /// count. Inside a segment, inactive frames are counted until they have
    /// lasted `min_silence_duration_ms`; then the segment ends with the
    /// padding after its last active frame, and what was read after that is
    /// kept as far as the next segment's padding may need it.
    pub open spec fn step(self, frame: Seq<T>, score: i64, config: VadConfig) -> (
        DetectorView<T>,
        Option<SegmentView<T>>,
    ) {
        let active = config.activates(score);
        let all = self.tail + frame;
        let position = self.position + frame.len();
        let pad = samples_in(config.padding_ms, self.sample_rate);
        let run = self.run + frame.len();
        if !self.in_speech && !active {
            (DetectorView { position, tail: last_of(all, pad), run: 0, ..self }, None)
        } else if !self.in_speech {
            (
                DetectorView {
                    position,
                    tail: last_of(all, run + pad),
                    in_speech: run >= samples_in(config.min_speech_duration_ms, self.sample_rate),
                    run: if run >= samples_in(config.min_speech_duration_ms, self.sample_rate) {
                        0
                    } else {
                        run
                    },
                    ..self
                },
                None,
            )
        } else if active {
            (DetectorView { position, tail: all, run: 0, ..self }, None)
        } else if run < samples_in(config.min_silence_duration_ms, self.sample_rate) {
            (DetectorView { position, tail: all, run, ..self }, None)
        } else {
            let keep = Self::segment_len(all, run, pad);
            (
                DetectorView {
                    position,
                    tail: last_of(all.subrange(keep as int, all.len() as int), pad),
                    in_speech: false,
                    run: 0,
                    ..self
                },
                Some(
                    SegmentView {
                        start_offset: (position - all.len()) as nat,
                        end_offset: (position - all.len() + keep) as nat,
                        samples: all.subrange(0, keep as int),
                    },
                ),
            )
        }
    }
}

impl<T> View for VoiceActivityDetector<T> {
    type V = DetectorView<T>;

    closed spec fn view(&self) -> DetectorView<T> {
        DetectorView {
            sample_rate: self.sample_rate,
            position: self.position as nat,
            tail: self.tail@,
            in_speech: self.in_speech,
            run: self.run as nat,
        }
    }
}

/// The number of samples that `ms` milliseconds cover at `rate` Hz.
pub fn ms_to_samples(ms: u32, rate: u32) -> (r: u64)
    ensures
        r == samples_in(ms, rate),
{
    assert((ms as nat) * (rate as nat) <= 0xffff_ffff * 0xffff_ffff) by (nonlinear_arith)
        requires
            ms <= 0xffff_ffff,
            rate <= 0xffff_ffff,
    ;
    (ms as u64) * (rate as u64) / 1000
}

/// Cuts `v` down to its last `n` items.
fn keep_last<T>(v: &mut Vec<T>, n: u64)
    ensures
        final(v)@ == last_of(old(v)@, n as nat),
{
    let len = v.len();
    if len as u64 > n {
        let rest = v.split_off(len - (n as usize));
        *v = rest;
    }
}

impl<T> VoiceActivityDetector<T> {
    /// A detector for a stream of the given rate, or `None` for a rate of
    /// zero, which no stream has.
    pub fn new(sample_rate: u32) -> (r: Option<VoiceActivityDetector<T>>)
        ensures
            sample_rate == 0 ==> r.is_none(),
            sample_rate > 0 ==> r.is_some() && r.unwrap()@ == DetectorView::<T>::initial(
                sample_rate,
            ) && r.unwrap()@.consistent(),
    {
        if sample_rate == 0 {
            None
        } else {
            Some(
                VoiceActivityDetector {
                    sample_rate,
                    position: 0,
                    tail: Vec::new(),
                    in_speech: false,
                    run: 0,
                },
            )
        }
    }

    pub fn sample_rate(&self) -> (r: u32)
        ensures
            r == self@.sample_rate,
    {
        self.sample_rate
    }

    /// How many samples have been read.
    pub fn position(&self) -> (r: u64)
        ensures
            r == self@.position,
    {
        self.position
    }

    /// Whether a segment has begun and not ended.
    pub fn in_speech(&self) -> (r: bool)
        ensures
            r == self@.in_speech,
    {
        self.in_speech
    }

    /// Whether the detector can still take a frame of `frame_len` samples:
    /// the count of samples read has to stay within `u64`.
    pub fn has_room(&self, frame_len: usize) -> (r: bool)
        ensures
            r == (self@.position + frame_len <= u64::MAX),
    {
        frame_len as u64 <= u64::MAX - self.position
    }

    /// Reads one frame with its score under the configuration current at this
    /// frame.
    pub fn process_frame(&mut self, frame: Vec<T>, score: i64, config: &VadConfig) -> (r:
        FrameOutput<T>)
        requires
            old(self)@.consistent(),
            old(self)@.position + frame@.len() <= u64::MAX,
        ensures
            final(self)@.consistent(),
            r.active == config.activates(score),
            final(self)@ == old(self)@.step(frame@, score, *config).0,
            r.segment_view() == old(self)@.step(frame@, score, *config).1,
    {
        let active = config.is_active(score);
        let n = frame.len() as u64;
        let mut frame = frame;
        self.tail.append(&mut frame);
        self.position = self.position + n;
        let ghost all = self.tail@;
        let pad = ms_to_samples(config.padding_ms, self.sample_rate);
        let run = self.run + n;
        if !self.in_speech && !active {
            keep_last(&mut self.tail, pad);
            self.run = 0;
            FrameOutput { active, segment: None }
        } else if !self.in_speech {
            if pad <= u64::MAX - run {
                keep_last(&mut self.tail, run + pad);
            }
            if run >= ms_to_samples(config.min_speech_duration_ms, self.sample_rate) {
                self.in_speech = true;
                self.run = 0;
            } else {
                self.run = run;
            }
            FrameOutput { active, segment: None }
        } else if active {
            self.run = 0;
            FrameOutput { active, segment: None }
        } else if run < ms_to_samples(config.min_silence_duration_ms, self.sample_rate) {
            self.run = run;
            FrameOutput { active, segment: None }
        } else {
            let len = self.tail.len();
            let keep: usize = if pad < run {
                len - ((run - pad) as usize)
            } else {
                len
            };
            let start = self.position - (len as u64);
            let mut rest = self.tail.split_off(keep);
            keep_last(&mut rest, pad);
            let mut samples: Vec<T> = Vec::new();
            samples.append(&mut self.tail);
            self.tail = rest;
            self.in_speech = false;
            self.run = 0;
            let segment = SpeechSegment { start_offset: start, end_offset: start + (keep as u64), samples };
            assert(segment@.samples =~= all.subrange(0, keep as int));
            FrameOutput { active, segment: Some(segment) }
        }
    }
}

/// A segment is completed only by an inactive frame that is read inside a
/// segment; the detector is outside a segment afterwards. The segment's
/// samples are the ones its offsets name, it ends no later than the last
/// sample read, and it ends after the last active frame by the padding or by
/// what has been read since, whichever is less.
pub proof fn lemma_segment_shape<T>(
    d: DetectorView<T>,
    frame: Seq<T>,
    score: i64,
    config: VadConfig,
)
    requires
        d.consistent(),
        d.step(frame, score, config).1 is Some,
    ensures
        d.in_speech,
        !config.activates(score),
        !d.step(frame, score, config).0.in_speech,
        ({
            let seg = d.step(frame, score, config).1->Some_0;
            let silence = d.run + frame.len();
            let read = d.position + frame.len();
            let pad = samples_in(config.padding_ms, d.sample_rate);
            &&& seg.start_offset <= seg.end_offset <= read
            &&& seg.samples.len() == seg.end_offset - seg.start_offset
            &&& seg.start_offset == d.position - d.tail.len()
            &&& seg.samples == (d.tail + frame).subrange(0, seg.samples.len() as int)
            &&& silence >= samples_in(config.min_silence_duration_ms, d.sample_rate)
            &&& seg.end_offset == if pad < silence {
                read - silence + pad
            } else {
                read as int
            }
        }),
{
}

/// Outside a segment the detector keeps no more than the run of active frames
/// just read and the padding before it; a segment begins exactly when that run
/// has lasted the minimum, and then reaches back over the run and over the
/// padding as far as it was read.
pub proof fn lemma_segment_start<T>(d: DetectorView<T>, frame: Seq<T>, score: i64, config: VadConfig)
    requires
        d.consistent(),
        !d.in_speech,
    ensures
        d.step(frame, score, config).1 is None,
        d.step(frame, score, config).0.consistent() || d.position + frame.len() > u64::MAX,
        d.step(frame, score, config).0.in_speech <==> config.activates(score) && d.run + frame.len()
            >= samples_in(config.min_speech_duration_ms, d.sample_rate),
        config.activates(score) ==> d.step(frame, score, config).0.tail.len() <= d.run + frame.len()
            + samples_in(config.padding_ms, d.sample_rate),
        config.activates(score) ==> d.step(frame, score, config).0.tail.len() >= d.run
            + frame.len(),
        !config.activates(score) ==> d.step(frame, score, config).0.run == 0
            && d.step(frame, score, config).0.tail.len() <= samples_in(
            config.padding_ms,
            d.sample_rate,
        ),
{
}

/// The samples that the detector keeps only ever move forward in the stream:
/// a frame never brings back a sample that was let go, and a segment that a
/// frame completes begins with the oldest sample kept before the frame and
/// ends no later than the oldest sample kept after it. So the segments of a
/// session come out in the order of the stream and never overlap.
pub proof fn lemma_segments_in_order<T>(
    d: DetectorView<T>,
    frame: Seq<T>,
    score: i64,
    config: VadConfig,
)
    requires
        d.consistent(),
    ensures
        ({
            let next = d.step(frame, score, config).0;
            &&& next.tail.len() <= next.position
            &&& d.position - d.tail.len() <= next.position - next.tail.len()
            &&& match d.step(frame, score, config).1 {
                Some(seg) => seg.start_offset == d.position - d.tail.len() && seg.end_offset
                    <= next.position - next.tail.len(),
                None => true,
            }
        }),
{
}

/// Every frame keeps the detector consistent and moves its position on by the
/// frame's length.
pub proof fn lemma_step_keeps_consistency<T>(
    d: DetectorView<T>,
    frame: Seq<T>,
    score: i64,
    config: VadConfig,
)
    requires
        d.consistent(),
        d.position + frame.len() <= u64::MAX,
    ensures
        d.step(frame, score, config).0.consistent(),
        d.step(frame, score, config).0.position == d.position + frame.len(),
        d.step(frame, score, config).0.sample_rate == d.sample_rate,
{
}

} // verus!
