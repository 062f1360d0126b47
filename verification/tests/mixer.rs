use tone_mixer::{MixerError, ToneVoice, VoiceMixer};

/// Frequencies of the three demo voices (A4, C#5, E5) in centihertz.
const FREQUENCIES_CENTIHZ: [u32; 3] = [44000, 55437, 65925];

fn three_voice_mixer() -> VoiceMixer {
    VoiceMixer::new(&vec![
        FREQUENCIES_CENTIHZ[0],
        FREQUENCIES_CENTIHZ[1],
        FREQUENCIES_CENTIHZ[2],
    ])
}

/// The f32 gain the audio layer derives from a recorded denominator.
fn gain_of(denominator: usize) -> f32 {
    1.0f32 / denominator as f32
}

#[test]
fn construction_starts_paused() {
    let m = three_voice_mixer();
    assert_eq!(m.voice_count(), 3);
    assert_eq!(m.active_count, 0);
    for i in 0..3 {
        assert_eq!(m.status(i), Ok(false));
        assert_eq!(m.gain_denominator(i), Ok(0));
        assert_eq!(m.voices[i].frequency_centihz, FREQUENCIES_CENTIHZ[i]);
    }
}

#[test]
fn scenario_three_voices() {
    let mut m = three_voice_mixer();
    assert_eq!(m.active_count, 0);

    assert_eq!(m.toggle(0), Ok(()));
    assert_eq!(m.status(0), Ok(true));
    assert_eq!(m.status(1), Ok(false));
    assert_eq!(m.status(2), Ok(false));
    assert_eq!(m.active_count, 1);
    assert!((gain_of(m.gain_denominator(0).unwrap()) - 1.0).abs() < 1e-6);

    assert_eq!(m.toggle(1), Ok(()));
    assert_eq!(m.status(0), Ok(true));
    assert_eq!(m.status(1), Ok(true));
    assert_eq!(m.active_count, 2);
    assert!((gain_of(m.gain_denominator(0).unwrap()) - 0.5).abs() < 1e-6);
    assert!((gain_of(m.gain_denominator(1).unwrap()) - 0.5).abs() < 1e-6);

    assert_eq!(m.toggle(0), Ok(()));
    assert_eq!(m.status(0), Ok(false));
    assert_eq!(m.status(1), Ok(true));
    assert_eq!(m.active_count, 1);
    assert!((gain_of(m.gain_denominator(1).unwrap()) - 1.0).abs() < 1e-6);
}

#[test]
fn toggle_out_of_range_leaves_state() {
    let mut m = three_voice_mixer();
    assert_eq!(m.toggle(0), Ok(()));
    let flags_before: Vec<bool> = (0..3).map(|i| m.status(i).unwrap()).collect();
    let gains_before: Vec<usize> = (0..3).map(|i| m.gain_denominator(i).unwrap()).collect();

    assert_eq!(m.toggle(3), Err(MixerError::IndexOutOfRange));
    assert_eq!(m.toggle(usize::MAX), Err(MixerError::IndexOutOfRange));

    assert_eq!(m.active_count, 1);
    for i in 0..3 {
        assert_eq!(m.status(i).unwrap(), flags_before[i]);
        assert_eq!(m.gain_denominator(i).unwrap(), gains_before[i]);
    }
}

#[test]
fn status_out_of_range_fails() {
    let m = three_voice_mixer();
    assert_eq!(m.status(3), Err(MixerError::IndexOutOfRange));
    assert_eq!(m.gain_denominator(3), Err(MixerError::IndexOutOfRange));
}

#[test]
fn active_count_matches_flags_after_sequence() {
    let mut m = three_voice_mixer();
    let sequence = [0usize, 1, 0, 2, 2, 1, 1, 0, 2];
    for &i in sequence.iter() {
        assert_eq!(m.toggle(i), Ok(()));
        let playing = (0..3).filter(|&j| m.status(j).unwrap()).count();
        assert_eq!(m.active_count, playing);
    }
}

#[test]
fn toggle_twice_restores_state() {
    let mut m = three_voice_mixer();
    assert_eq!(m.toggle(0), Ok(()));
    assert_eq!(m.toggle(2), Ok(()));

    let count_before = m.active_count;
    let flags_before: Vec<bool> = (0..3).map(|i| m.status(i).unwrap()).collect();
    let gains_before: Vec<usize> = (0..3).map(|i| m.gain_denominator(i).unwrap()).collect();

    assert_eq!(m.toggle(1), Ok(()));
    assert_eq!(m.toggle(1), Ok(()));

    assert_eq!(m.active_count, count_before);
    for i in 0..3 {
        assert_eq!(m.status(i).unwrap(), flags_before[i]);
        if m.status(i).unwrap() {
            assert_eq!(m.gain_denominator(i).unwrap(), gains_before[i]);
        }
    }
}

#[test]
fn no_gain_write_when_count_zero() {
    let mut m = three_voice_mixer();
    assert_eq!(m.toggle(0), Ok(()));
    assert_eq!(m.gain_denominator(0), Ok(1));

    assert_eq!(m.toggle(0), Ok(()));
    assert_eq!(m.active_count, 0);
    // The count reached zero, so nothing rewrote any gain: voice 0 keeps its
    // stale denominator and the never-played voices keep none at all.
    assert_eq!(m.gain_denominator(0), Ok(1));
    assert_eq!(m.gain_denominator(1), Ok(0));
    assert_eq!(m.gain_denominator(2), Ok(0));
}

#[test]
fn gain_is_reciprocal_of_active_count() {
    let mut m = three_voice_mixer();
    for i in 0..3 {
        assert_eq!(m.toggle(i), Ok(()));
        let k = m.active_count;
        assert_eq!(k, i + 1);
        for j in 0..3 {
            if m.status(j).unwrap() {
                assert_eq!(m.gain_denominator(j).unwrap(), k);
                let expected = 1.0f32 / k as f32;
                assert!((gain_of(m.gain_denominator(j).unwrap()) - expected).abs() < 1e-6);
            }
        }
    }
}

#[test]
fn voice_construction_and_setters() {
    let mut v = ToneVoice::new(44000);
    assert_eq!(v.frequency_centihz, 44000);
    assert!(!v.is_playing);
    assert_eq!(v.gain_denominator, 0);

    v.set_active(true);
    assert!(v.is_playing);
    assert_eq!(v.frequency_centihz, 44000);

    v.set_gain_denominator(2);
    assert_eq!(v.gain_denominator, 2);
    assert!(v.is_playing);

    v.set_active(false);
    assert!(!v.is_playing);
    assert_eq!(v.gain_denominator, 2);
}
