use vstd::prelude::*;
use crate::error::CaptureError;

verus! {

/// The fixed-point value that stands for a score or threshold of exactly one.
/// Scores and thresholds are counted in millionths, so that `[0, 1]` is the
/// integer range `0 ..= SCORE_ONE`.
pub const SCORE_ONE: i64 = 1_000_000;

/// Configuration of the voice-activity detector. It is a plain snapshot: the
/// detector is handed the current one with every frame.
#[derive(Clone, Copy, Debug, PartialEq, Eq, Structural)]
pub struct VadConfig {
    /// Smallest score, in millionths, at which a frame counts as active.
    pub energy_threshold: i64,
    /// How long active frames must persist before a segment begins.
    pub min_speech_duration_ms: u32,
    /// How long inactive frames must persist before a segment ends.
    pub min_silence_duration_ms: u32,
    /// Audio kept before the detected start and after the detected end.
    pub padding_ms: u32,
}

impl VadConfig {
    /// The field ranges that a stored configuration satisfies: the threshold
    /// lies in `[0, 1]` and both durations are positive.
    pub open spec fn valid(self) -> bool {
        &&& 0 <= self.energy_threshold <= SCORE_ONE
        &&& self.min_speech_duration_ms > 0
        &&& self.min_silence_duration_ms > 0
    }

    /// The configuration used until another one is set.
    pub open spec fn initial() -> VadConfig {
        VadConfig {
            energy_threshold: 500_000,
            min_speech_duration_ms: 250,
            min_silence_duration_ms: 500,
            padding_ms: 100,
        }
    }

    /// Whether a frame with this score is active under this configuration.
    pub open spec fn activates(self, score: i64) -> bool {
        score >= self.energy_threshold
    }

    pub fn is_valid(&self) -> (r: bool)
        ensures
            r == self.valid(),
    {
        0 <= self.energy_threshold && self.energy_threshold <= SCORE_ONE
            && self.min_speech_duration_ms > 0 && self.min_silence_duration_ms > 0
    }

    /// Accepts a valid configuration and rejects any other as `InvalidConfig`.
    pub fn validate(&self) -> (r: Result<(), CaptureError>)
        ensures
            self.valid() ==> r == Ok::<(), CaptureError>(()),
            !self.valid() ==> r == Err::<(), CaptureError>(CaptureError::InvalidConfig),
    {
        if self.is_valid() {
            Ok(())
        } else {
            Err(CaptureError::InvalidConfig)
        }
    }

    pub fn is_active(&self, score: i64) -> (r: bool)
        ensures
            r == self.activates(score),
    {
        score >= self.energy_threshold
    }
}

impl Default for VadConfig {
    fn default() -> (r: VadConfig)
        ensures
            r == VadConfig::initial(),
            r.valid(),
    {
        VadConfig {
            energy_threshold: 500_000,
            min_speech_duration_ms: 250,
            min_silence_duration_ms: 500,
            padding_ms: 100,
        }
    }
}

} // verus!
