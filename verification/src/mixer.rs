use vstd::prelude::*;

use crate::voice::ToneVoice;

verus! {

/// Errors of the mixing core.
#[derive(Clone, Copy, Debug, PartialEq, Eq, Structural)]
pub enum MixerError {
    /// The audio output device or a sink could not be created at
    /// construction time; fatal, no partial mixer exists.
    BackendUnavailable,
    /// A voice index outside `[0, voice_count)` was given; the mixer state is
    /// left unchanged.
    IndexOutOfRange,
}

/// How many voices of `s` are currently playing.
pub open spec fn num_playing(s: Seq<ToneVoice>) -> nat
    decreases s.len(),
{
    if s.len() == 0 {
        0
    } else {
        num_playing(s.drop_last()) + if s.last().is_playing {
            1nat
        } else {
            0nat
        }
    }
}

/// `s` with a gain of `1 / k` recorded on every playing voice; paused voices
/// keep their stale last-applied gain.
pub open spec fn with_gain(s: Seq<ToneVoice>, k: usize) -> Seq<ToneVoice> {
    Seq::new(
        s.len(),
        |i: int|
            if s[i].is_playing {
                ToneVoice { gain_denominator: k, ..s[i] }
            } else {
                s[i]
            },
    )
}

/// `v` with its playing flag flipped.
pub open spec fn flipped(v: ToneVoice) -> ToneVoice {
    ToneVoice { is_playing: !v.is_playing, ..v }
}

/// The cached active count after toggling the voice at `index`: one less if
/// that voice was playing, one more if it was paused.
pub open spec fn toggled_count(s: Seq<ToneVoice>, c: int, index: int) -> int {
    if s[index].is_playing {
        c - 1
    } else {
        c + 1
    }
}

/// The voices after toggling the voice at `index` when the cached active
/// count was `c`: the flag at `index` flips, and if any voice remains active
/// the new uniform gain `1 / new_count` is recorded on every playing voice.
/// When the count reaches zero no gain is written at all.
pub open spec fn toggled_voices(s: Seq<ToneVoice>, c: int, index: int) -> Seq<ToneVoice> {
    let after_flip = s.update(index, flipped(s[index]));
    let new_count = toggled_count(s, c, index);
    if new_count > 0 {
        with_gain(after_flip, new_count as usize)
    } else {
        after_flip
    }
}

/// The mixer invariant over a voice sequence and the cached count: every
/// voice is well formed, the cache equals the number of playing voices, and
/// whenever some voice is active, every active voice carries the uniform
/// renormalized gain `1 / count`.
pub open spec fn wf_state(s: Seq<ToneVoice>, c: int) -> bool {
    &&& c == num_playing(s)
    &&& forall|i: int| 0 <= i < s.len() ==> (#[trigger] s[i]).wf()
    &&& c > 0 ==> forall|i: int|
        0 <= i < s.len() && (#[trigger] s[i]).is_playing ==> s[i].gain_denominator == c
}

/// There are never more playing voices than voices.
pub proof fn lemma_num_playing_le_len(s: Seq<ToneVoice>)
    ensures
        num_playing(s) <= s.len(),
    decreases s.len(),
{
    if s.len() > 0 {
        lemma_num_playing_le_len(s.drop_last());
    }
}

/// Replacing the voice at `i` changes the playing count exactly by the
/// difference of the two playing flags.
pub proof fn lemma_num_playing_update(s: Seq<ToneVoice>, i: int, v: ToneVoice)
    requires
        0 <= i < s.len(),
    ensures
        num_playing(s.update(i, v)) == num_playing(s) - (if s[i].is_playing {
            1int
        } else {
            0int
        }) + (if v.is_playing {
            1int
        } else {
            0int
        }),
    decreases s.len(),
{
    let s2 = s.update(i, v);
    if i == s.len() - 1 {
        assert(s2.drop_last() =~= s.drop_last());
    } else {
        assert(s2.drop_last() =~= s.drop_last().update(i, v));
        lemma_num_playing_update(s.drop_last(), i, v);
        assert(s2.last() == s.last());
    }
}

/// Two voice sequences with the same playing flags have the same playing
/// count, whatever their gains and frequencies.
pub proof fn lemma_num_playing_same_flags(s1: Seq<ToneVoice>, s2: Seq<ToneVoice>)
    requires
        s1.len() == s2.len(),
        forall|i: int| 0 <= i < s1.len() ==> (#[trigger] s1[i]).is_playing == s2[i].is_playing,
    ensures
        num_playing(s1) == num_playing(s2),
    decreases s1.len(),
{
    if s1.len() > 0 {
        lemma_num_playing_same_flags(s1.drop_last(), s2.drop_last());
    }
}

/// If some voice is playing, the playing count is positive.
pub proof fn lemma_num_playing_pos(s: Seq<ToneVoice>, i: int)
    requires
        0 <= i < s.len(),
        s[i].is_playing,
    ensures
        num_playing(s) >= 1,
    decreases s.len(),
{
    if i < s.len() - 1 {
        lemma_num_playing_pos(s.drop_last(), i);
    }
}

/// If no voice is counted as playing, every voice is paused.
pub proof fn lemma_num_playing_zero(s: Seq<ToneVoice>)
    requires
        num_playing(s) == 0,
    ensures
        forall|i: int| 0 <= i < s.len() ==> !(#[trigger] s[i]).is_playing,
{
    assert forall|i: int| 0 <= i < s.len() implies !(#[trigger] s[i]).is_playing by {
        if s[i].is_playing {
            lemma_num_playing_pos(s, i);
        }
    }
}

/// Appending a voice adds its playing flag to the count.
pub proof fn lemma_num_playing_push(s: Seq<ToneVoice>, v: ToneVoice)
    ensures
        num_playing(s.push(v)) == num_playing(s) + if v.is_playing {
            1nat
        } else {
            0nat
        },
{
    assert(s.push(v).drop_last() =~= s);
}

/// Toggling preserves the mixer invariant: after any toggle of a valid
/// index, the cached active count still equals the number of playing voices,
/// every voice is still well formed, and every active voice carries the
/// uniform gain `1 / active_count`. With `VoiceMixer::new` establishing the
/// invariant, the cached count equals the number of playing voices after
/// every sequence of toggles.
pub proof fn lemma_toggle_preserves_wf(s: Seq<ToneVoice>, c: int, index: int)
    requires
        wf_state(s, c),
        0 <= index < s.len(),
        s.len() <= usize::MAX,
    ensures
        wf_state(toggled_voices(s, c, index), toggled_count(s, c, index)),
{
    let after_flip = s.update(index, flipped(s[index]));
    let new_count = toggled_count(s, c, index);
    if s[index].is_playing {
        lemma_num_playing_pos(s, index);
    }
    lemma_num_playing_update(s, index as int, flipped(s[index]));
    lemma_num_playing_le_len(after_flip);
    assert(num_playing(after_flip) == new_count);
    if new_count > 0 {
        let result = with_gain(after_flip, new_count as usize);
        lemma_num_playing_same_flags(result, after_flip);
        assert forall|i: int| 0 <= i < result.len() implies (#[trigger] result[i]).wf() by {
            assert(result[i].frequency_centihz == s[i].frequency_centihz);
        }
        assert forall|i: int|
            0 <= i < result.len() && (#[trigger] result[i]).is_playing implies
            result[i].gain_denominator == new_count by {
            assert(after_flip[i].is_playing);
        }
    }
}

/// Idempotent pairing: toggling the same index twice in immediate
/// succession returns every voice's playing flag, every voice's frequency,
/// the active count, and the gain of every voice that is then playing to
/// their values before the pair. (A voice left paused may keep a stale gain
/// from the pair, which is never audible.)
pub proof fn lemma_toggle_twice_restores(s: Seq<ToneVoice>, c: int, index: int)
    requires
        wf_state(s, c),
        0 <= index < s.len(),
    ensures
        ({
            let s1 = toggled_voices(s, c, index);
            let c1 = toggled_count(s, c, index);
            let s2 = toggled_voices(s1, c1, index);
            let c2 = toggled_count(s1, c1, index);
            &&& c2 == c
            &&& s2.len() == s.len()
            &&& forall|j: int|
                0 <= j < s.len() ==> (#[trigger] s2[j]).is_playing == s[j].is_playing
            &&& forall|j: int|
                0 <= j < s.len() ==> (#[trigger] s2[j]).frequency_centihz
                    == s[j].frequency_centihz
            &&& forall|j: int|
                0 <= j < s.len() && (#[trigger] s2[j]).is_playing ==> s2[j].gain_denominator
                    == s[j].gain_denominator
        }),
{
    let s1 = toggled_voices(s, c, index);
    let c1 = toggled_count(s, c, index);
    let s2 = toggled_voices(s1, c1, index);
    let c2 = toggled_count(s1, c1, index);
    if s[index].is_playing {
        lemma_num_playing_pos(s, index);
    }
    assert(s1[index].is_playing == !s[index].is_playing);
    assert(c2 == c);
    assert forall|j: int| 0 <= j < s.len() implies (#[trigger] s2[j]).is_playing
        == s[j].is_playing && s2[j].frequency_centihz == s[j].frequency_centihz by {}
    if c == 0 {
        lemma_num_playing_zero(s);
    }
    assert forall|j: int| 0 <= j < s.len() && (#[trigger] s2[j]).is_playing implies
        s2[j].gain_denominator == s[j].gain_denominator by {
        assert(s[j].is_playing);
        assert(c > 0);
        assert(s[j].gain_denominator == c);
        assert(s2[j].gain_denominator == c2);
    }
}

/// The mixer: an ordered, fixed collection of voices addressed by stable
/// index, plus a cached count of the voices currently playing. All voices
/// start paused; every activation change runs the renormalization pass that
/// keeps the summed output of the active voices within unity amplitude.
pub struct VoiceMixer {
    /// The voices, in construction order; never reordered or resized.
    pub voices: Vec<ToneVoice>,
    /// Cached number of playing voices, kept equal to the number of voices
    /// whose flag is set; maintained incrementally so a toggle costs no scan.
    pub active_count: usize,
}

impl VoiceMixer {
    /// The mixer invariant: the cached count matches the playing flags and
    /// all active voices carry the uniform gain `1 / active_count`.
    pub open spec fn wf(self) -> bool {
        wf_state(self.voices@, self.active_count as int)
    }

    /// Builds a mixer with one voice per frequency (in centihertz), in the
    /// given order. Every voice starts paused with no gain applied, so the
    /// active count is zero.
    pub fn new(frequencies_centihz: &Vec<u32>) -> (m: VoiceMixer)
        requires
            forall|i: int|
                0 <= i < frequencies_centihz@.len() ==> #[trigger] frequencies_centihz@[i] > 0,
        ensures
            m.wf(),
            m.voices@.len() == frequencies_centihz@.len(),
            m.active_count == 0,
            forall|i: int|
                0 <= i < m.voices@.len() ==> {
                    &&& (#[trigger] m.voices@[i]).frequency_centihz == frequencies_centihz@[i]
                    &&& !m.voices@[i].is_playing
                    &&& m.voices@[i].gain_denominator == 0
                },
    {
        let n = frequencies_centihz.len();
        let mut voices: Vec<ToneVoice> = Vec::new();
        let mut i: usize = 0;
        while i < n
            invariant
                i <= n,
                n == frequencies_centihz@.len(),
                voices@.len() == i,
                num_playing(voices@) == 0,
                forall|f: int|
                    0 <= f < frequencies_centihz@.len() ==> #[trigger] frequencies_centihz@[f]
                        > 0,
                forall|j: int|
                    0 <= j < i ==> {
                        &&& (#[trigger] voices@[j]).frequency_centihz == frequencies_centihz@[j]
                        &&& !voices@[j].is_playing
                        &&& voices@[j].gain_denominator == 0
                    },
            decreases n - i,
        {
            let v = ToneVoice::new(frequencies_centihz[i]);
            proof {
                lemma_num_playing_push(voices@, v);
            }
            voices.push(v);
            i += 1;
        }
        VoiceMixer { voices, active_count: 0 }
    }

    /// The number of voices, fixed at construction.
    pub fn voice_count(&self) -> (n: usize)
        ensures
            n == self.voices@.len(),
    {
        self.voices.len()
    }

    /// Whether the voice at `index` is currently playing — the one piece of
    /// state the presentation layer needs to render a voice. Fails with
    /// `IndexOutOfRange` for an index at or past the voice count.
    pub fn status(&self, index: usize) -> (r: Result<bool, MixerError>)
        ensures
            index < self.voices@.len() ==> r == Ok::<bool, MixerError>(
                self.voices@[index as int].is_playing,
            ),
            index >= self.voices@.len() ==> r == Err::<bool, MixerError>(
                MixerError::IndexOutOfRange,
            ),
    {
        if index < self.voices.len() {
            Ok(self.voices[index].is_playing)
        } else {
            Err(MixerError::IndexOutOfRange)
        }
    }

    /// The gain denominator last recorded for the voice at `index`: the gain
    /// last applied to its sink is `1 / d` (zero while none was ever
    /// applied). Fails with `IndexOutOfRange` for an index at or past the
    /// voice count.
    pub fn gain_denominator(&self, index: usize) -> (r: Result<usize, MixerError>)
        ensures
            index < self.voices@.len() ==> r == Ok::<usize, MixerError>(
                self.voices@[index as int].gain_denominator,
            ),
            index >= self.voices@.len() ==> r == Err::<usize, MixerError>(
                MixerError::IndexOutOfRange,
            ),
    {
        if index < self.voices.len() {
            Ok(self.voices[index].gain_denominator)
        } else {
            Err(MixerError::IndexOutOfRange)
        }
    }

    /// Flips the playing flag of the voice at `index`, adjusts the cached
    /// active count by one, and renormalizes: if any voice remains active,
    /// the uniform gain `1 / active_count` is recorded on every active
    /// voice; if the count reached zero, no gain is written at all.
    ///
    /// An index at or past the voice count fails with `IndexOutOfRange` and
    /// leaves the mixer untouched.
    pub fn toggle(&mut self, index: usize) -> (r: Result<(), MixerError>)
        requires
            old(self).wf(),
        ensures
            final(self).wf(),
            index < old(self).voices@.len() ==> {
                &&& r == Ok::<(), MixerError>(())
                &&& final(self).voices@ == toggled_voices(
                    old(self).voices@,
                    old(self).active_count as int,
                    index as int,
                )
                &&& final(self).active_count == toggled_count(
                    old(self).voices@,
                    old(self).active_count as int,
                    index as int,
                )
                &&& final(self).voices@[index as int].is_playing == !old(self).voices@[index
                    as int].is_playing
                &&& final(self).active_count == 0 ==> final(self).voices@ == old(
                    self,
                ).voices@.update(index as int, flipped(old(self).voices@[index as int]))
            },
            index >= old(self).voices@.len() ==> {
                &&& r == Err::<(), MixerError>(MixerError::IndexOutOfRange)
                &&& *final(self) == *old(self)
            },
    {
        if index >= self.voices.len() {
            return Err(MixerError::IndexOutOfRange);
        }
        let was_playing = self.voices[index].is_playing;
        let mut v = self.voices[index];
        v.set_active(!was_playing);
        proof {
            lemma_num_playing_update(self.voices@, index as int, v);
        }
        self.voices[index] = v;
        if was_playing {
            proof {
                lemma_num_playing_pos(old(self).voices@, index as int);
            }
            self.active_count = self.active_count - 1;
        } else {
            proof {
                lemma_num_playing_le_len(self.voices@);
            }
            self.active_count = self.active_count + 1;
        }
        self.renormalize();
        Ok(())
    }

    /// The renormalization pass run after every activation change: when some
    /// voice is active, records the uniform gain `1 / active_count` on every
    /// active voice; when none is, writes nothing (nothing is audible, and
    /// this avoids a division by zero).
    fn renormalize(&mut self)
        requires
            old(self).active_count == num_playing(old(self).voices@),
            forall|i: int| 0 <= i < old(self).voices@.len() ==> (#[trigger] old(self).voices@[i]).wf(),
        ensures
            final(self).wf(),
            final(self).active_count == old(self).active_count,
            old(self).active_count > 0 ==> final(self).voices@ == with_gain(
                old(self).voices@,
                old(self).active_count,
            ),
            old(self).active_count == 0 ==> final(self).voices@ == old(self).voices@,
    {
        if self.active_count == 0 {
            return;
        }
        let k = self.active_count;
        let n = self.voices.len();
        let mut i: usize = 0;
        while i < n
            invariant
                i <= n,
                n == self.voices@.len(),
                n == old(self).voices@.len(),
                self.active_count == k,
                k == old(self).active_count,
                k >= 1,
                forall|j: int|
                    0 <= j < i ==> #[trigger] self.voices@[j] == (if old(
                        self,
                    ).voices@[j].is_playing {
                        ToneVoice { gain_denominator: k, ..old(self).voices@[j] }
                    } else {
                        old(self).voices@[j]
                    }),
                forall|j: int| i <= j < n ==> #[trigger] self.voices@[j] == old(self).voices@[j],
            decreases n - i,
        {
            if self.voices[i].is_playing {
                let mut v = self.voices[i];
                v.set_gain_denominator(k);
                self.voices[i] = v;
            }
            i += 1;
        }
        proof {
            assert(self.voices@ =~= with_gain(old(self).voices@, k));
            lemma_num_playing_same_flags(self.voices@, old(self).voices@);
        }
    }
}

} // verus!
