use vstd::prelude::*;

verus! {

/// One independently controllable continuous-tone voice.
///
/// A voice models the control-thread state of one backend sine-wave
/// generator: its fixed frequency, whether it is currently playing, and the
/// gain last applied to its output sink. The backend generator itself (the
/// audio sink) lives with the audio layer; the mixer decides what to tell it
/// and this record remembers what was told.
///
/// The frequency is kept in centihertz (hundredths of a hertz), so 440.00 Hz
/// is 44000. Gain is kept as a denominator: the gain last applied to the sink
/// is `1 / gain_denominator`. A denominator of zero means no gain has been
/// applied since construction (the voice has never been audible).
#[derive(Clone, Copy, Debug, PartialEq, Eq, Structural)]
pub struct ToneVoice {
    /// Frequency of the generator in centihertz; positive, fixed at
    /// construction. The backend cannot change a generator's frequency after
    /// creation, so a voice keeps one frequency for its whole life.
    pub frequency_centihz: u32,
    /// Whether the voice is currently in the Playing state. Mutated only by
    /// the mixer's toggle operation.
    pub is_playing: bool,
    /// Denominator of the gain last applied to the voice's sink; zero while
    /// no gain write has happened yet.
    pub gain_denominator: usize,
}

impl ToneVoice {
    /// A voice is well formed when its frequency is positive.
    pub open spec fn wf(self) -> bool {
        self.frequency_centihz > 0
    }

    /// Creates the control state of a freshly constructed voice: paused, with
    /// no gain applied yet.
    pub fn new(frequency_centihz: u32) -> (v: ToneVoice)
        requires
            frequency_centihz > 0,
        ensures
            v.wf(),
            v.frequency_centihz == frequency_centihz,
            !v.is_playing,
            v.gain_denominator == 0,
    {
        ToneVoice { frequency_centihz, is_playing: false, gain_denominator: 0 }
    }

    /// Records that the voice was told to play or to pause. The frequency and
    /// the last-applied gain are untouched.
    pub fn set_active(&mut self, active: bool)
        ensures
            final(self).is_playing == active,
            final(self).frequency_centihz == old(self).frequency_centihz,
            final(self).gain_denominator == old(self).gain_denominator,
    {
        self.is_playing = active;
    }

    /// Records that a gain of `1 / denominator` was applied to the voice's
    /// sink. A positive denominator keeps the gain inside `(0, 1]`.
    pub fn set_gain_denominator(&mut self, denominator: usize)
        requires
            denominator >= 1,
        ensures
            final(self).gain_denominator == denominator,
            final(self).frequency_centihz == old(self).frequency_centihz,
            final(self).is_playing == old(self).is_playing,
    {
        self.gain_denominator = denominator;
    }
}

} // verus!
