use vstd::prelude::*;
use crate::config::VadConfig;
use crate::vad::{samples_in, DetectorView, SegmentView};

verus! {

/// The detector after a run of frames that all have the score `score`, read
/// under one configuration.
pub open spec fn after_frames<T>(
    d: DetectorView<T>,
    frames: Seq<Seq<T>>,
    score: i64,
    config: VadConfig,
) -> DetectorView<T>
    decreases frames.len(),
{
    if frames.len() == 0 {
        d
    } else {
        after_frames(d, frames.drop_last(), score, config).step(frames.last(), score, config).0
    }
}

/// The segments that such a run completes, in the order in which they come.
pub open spec fn segments_of<T>(
    d: DetectorView<T>,
    frames: Seq<Seq<T>>,
    score: i64,
    config: VadConfig,
) -> Seq<SegmentView<T>>
    decreases frames.len(),
{
    if frames.len() == 0 {
        Seq::empty()
    } else {
        let before = segments_of(d, frames.drop_last(), score, config);
        match after_frames(d, frames.drop_last(), score, config).step(
            frames.last(),
            score,
            config,
        ).1 {
            Some(seg) => before.push(seg),
            None => before,
        }
    }
}

/// How many samples a run of frames holds.
pub open spec fn total_len<T>(frames: Seq<Seq<T>>) -> nat
    decreases frames.len(),
{
    if frames.len() == 0 {
        0
    } else {
        total_len(frames.drop_last()) + frames.last().len()
    }
}

/// The offset of the oldest sample that the detector keeps.
pub open spec fn kept_from<T>(d: DetectorView<T>) -> int {
    d.position - d.tail.len()
}

/// Silence outside a segment completes nothing and begins nothing, however
/// long it lasts; after it the detector keeps no more than the padding.
pub proof fn lemma_silence_stays_silent<T>(
    d: DetectorView<T>,
    frames: Seq<Seq<T>>,
    score: i64,
    config: VadConfig,
)
    requires
        d.consistent(),
        !d.in_speech,
        !config.activates(score),
    ensures
        segments_of(d, frames, score, config).len() == 0,
        !after_frames(d, frames, score, config).in_speech,
        after_frames(d, frames, score, config).position == d.position + total_len(frames),
        after_frames(d, frames, score, config).tail.len() <= after_frames(
            d,
            frames,
            score,
            config,
        ).position,
        after_frames(d, frames, score, config).sample_rate == d.sample_rate,
        frames.len() > 0 ==> after_frames(d, frames, score, config).run == 0 && after_frames(
            d,
            frames,
            score,
            config,
        ).tail.len() <= samples_in(config.padding_ms, d.sample_rate),
    decreases frames.len(),
{
    if frames.len() > 0 {
        lemma_silence_stays_silent(d, frames.drop_last(), score, config);
    }
}

/// A run of active frames that begins outside a segment begins one exactly
/// when it has lasted the minimum, and completes none. The segment then
/// reaches back before the first active sample by the padding, or by what the
/// detector still kept if that is less.
pub proof fn lemma_burst_begins_segment<T>(
    d: DetectorView<T>,
    frames: Seq<Seq<T>>,
    score: i64,
    config: VadConfig,
)
    requires
        d.consistent(),
        !d.in_speech,
        d.run == 0,
        config.activates(score),
    ensures
        segments_of(d, frames, score, config).len() == 0,
        after_frames(d, frames, score, config).position == d.position + total_len(frames),
        after_frames(d, frames, score, config).sample_rate == d.sample_rate,
        after_frames(d, frames, score, config).in_speech <==> frames.len() > 0 && total_len(frames)
            >= samples_in(config.min_speech_duration_ms, d.sample_rate),
        after_frames(d, frames, score, config).run == if after_frames(
            d,
            frames,
            score,
            config,
        ).in_speech {
            0
        } else {
            total_len(frames)
        },
        after_frames(d, frames, score, config).tail.len() <= after_frames(
            d,
            frames,
            score,
            config,
        ).position,
        frames.len() > 0 ==> kept_from(after_frames(d, frames, score, config)) == if d.tail.len()
            <= samples_in(config.padding_ms, d.sample_rate) {
            kept_from(d)
        } else {
            d.position - samples_in(config.padding_ms, d.sample_rate)
        },
    decreases frames.len(),
{
    if frames.len() > 0 {
        lemma_burst_begins_segment(d, frames.drop_last(), score, config);
    }
}

/// Silence that follows the last active frame of a segment completes that
/// segment exactly when it has lasted the minimum, and completes no other.
/// The segment begins with the oldest sample kept, and it ends after the last
/// active sample by no more than the padding: by the padding exactly where
/// the padding is no longer than the minimal silence.
pub proof fn lemma_silence_ends_segment<T>(
    d: DetectorView<T>,
    frames: Seq<Seq<T>>,
    score: i64,
    config: VadConfig,
)
    requires
        d.consistent(),
        d.in_speech,
        d.run == 0,
        !config.activates(score),
    ensures
        after_frames(d, frames, score, config).position == d.position + total_len(frames),
        after_frames(d, frames, score, config).sample_rate == d.sample_rate,
        after_frames(d, frames, score, config).tail.len() <= after_frames(
            d,
            frames,
            score,
            config,
        ).position,
        total_len(frames) < samples_in(config.min_silence_duration_ms, d.sample_rate)
            || frames.len() == 0 ==> {
            &&& segments_of(d, frames, score, config).len() == 0
            &&& after_frames(d, frames, score, config).in_speech
            &&& after_frames(d, frames, score, config).run == total_len(frames)
            &&& kept_from(after_frames(d, frames, score, config)) == kept_from(d)
        },
        total_len(frames) >= samples_in(config.min_silence_duration_ms, d.sample_rate)
            && frames.len() > 0 ==> {
            &&& segments_of(d, frames, score, config).len() == 1
            &&& !after_frames(d, frames, score, config).in_speech
            &&& after_frames(d, frames, score, config).run == 0
            &&& after_frames(d, frames, score, config).tail.len() <= samples_in(
                config.padding_ms,
                d.sample_rate,
            )
            &&& segments_of(d, frames, score, config)[0].start_offset == kept_from(d)
            &&& d.position <= segments_of(d, frames, score, config)[0].end_offset <= d.position
                + samples_in(config.padding_ms, d.sample_rate)
            &&& segments_of(d, frames, score, config)[0].end_offset <= kept_from(
                after_frames(d, frames, score, config),
            )
            &&& config.padding_ms <= config.min_silence_duration_ms ==> segments_of(
                d,
                frames,
                score,
                config,
            )[0].end_offset == d.position + samples_in(config.padding_ms, d.sample_rate)
        },
    decreases frames.len(),
{
    if frames.len() > 0 {
        lemma_silence_ends_segment(d, frames.drop_last(), score, config);
        if config.padding_ms <= config.min_silence_duration_ms {
            lemma_samples_in_grows(
                config.padding_ms,
                config.min_silence_duration_ms,
                d.sample_rate,
            );
        }
    }
}

/// A longer duration covers no fewer samples.
pub proof fn lemma_samples_in_grows(a: u32, b: u32, rate: u32)
    requires
        a <= b,
    ensures
        samples_in(a, rate) <= samples_in(b, rate),
{
    assert((a as nat) * (rate as nat) <= (b as nat) * (rate as nat)) by (nonlinear_arith)
        requires
            a <= b,
    ;
    assert(((a as nat) * (rate as nat)) / 1000 <= ((b as nat) * (rate as nat)) / 1000)
        by (nonlinear_arith)
        requires
            (a as nat) * (rate as nat) <= (b as nat) * (rate as nat),
    ;
}

/// Silence, then a burst of active frames that lasts the minimum, then
/// silence that lasts the minimum: the three runs complete exactly one
/// segment. It begins before the burst by no more than the padding and ends
/// after the burst by no more than the padding.
pub proof fn lemma_one_segment_per_burst<T>(
    d: DetectorView<T>,
    quiet: Seq<Seq<T>>,
    quiet_score: i64,
    burst: Seq<Seq<T>>,
    burst_score: i64,
    rest: Seq<Seq<T>>,
    config: VadConfig,
)
    requires
        d.consistent(),
        !d.in_speech,
        !config.activates(quiet_score),
        config.activates(burst_score),
        quiet.len() > 0,
        burst.len() > 0,
        rest.len() > 0,
        total_len(burst) >= samples_in(config.min_speech_duration_ms, d.sample_rate),
        total_len(rest) >= samples_in(config.min_silence_duration_ms, d.sample_rate),
        d.position + total_len(quiet) + total_len(burst) + total_len(rest) <= u64::MAX,
    ensures
        ({
            let d1 = after_frames(d, quiet, quiet_score, config);
            let d2 = after_frames(d1, burst, burst_score, config);
            let d3 = after_frames(d2, rest, quiet_score, config);
            let burst_start = d.position + total_len(quiet);
            let burst_end = burst_start + total_len(burst);
            let pad = samples_in(config.padding_ms, d.sample_rate);
            let segs = segments_of(d2, rest, quiet_score, config);
            &&& segments_of(d, quiet, quiet_score, config).len() == 0
            &&& segments_of(d1, burst, burst_score, config).len() == 0
            &&& segs.len() == 1
            &&& burst_start - pad <= segs[0].start_offset <= burst_start
            &&& burst_end <= segs[0].end_offset <= burst_end + pad
            &&& !d3.in_speech
            &&& d3.run == 0
            &&& d3.consistent()
        }),
{
    let d1 = after_frames(d, quiet, quiet_score, config);
    lemma_silence_stays_silent(d, quiet, quiet_score, config);
    assert(d1.consistent());
    let d2 = after_frames(d1, burst, burst_score, config);
    lemma_burst_begins_segment(d1, burst, burst_score, config);
    assert(d2.consistent());
    lemma_silence_ends_segment(d2, rest, quiet_score, config);
}

} // verus!
