use output_selftest::siren::{AUDIO_LENGTH_SECS, PERIOD_FRAMES, SAMPLE_RATE};
use output_selftest::{
    check_write, needs_start, playback_plan, tone_pitches, writes_per_tone, AudioError, PcmState,
    PlaybackStep,
};

#[test]
fn one_second_is_43_writes() {
    assert_eq!(writes_per_tone(AUDIO_LENGTH_SECS), 43);
    assert_eq!(writes_per_tone(1), (SAMPLE_RATE as u64) / (PERIOD_FRAMES as u64));
    assert_eq!(writes_per_tone(0), 0);
    assert_eq!(writes_per_tone(3), 129);
}

#[test]
fn plan_writes_each_tone_43_times() {
    let plan = playback_plan(1);
    assert_eq!(plan.len(), 3 * 44);
    let mut synthesized = Vec::new();
    let mut writes = Vec::new();
    for step in &plan {
        match step {
            PlaybackStep::Synthesize { pitch } => {
                synthesized.push(*pitch);
                writes.push(0);
            }
            PlaybackStep::Write => *writes.last_mut().unwrap() += 1,
        }
    }
    assert_eq!(synthesized, vec![2, 4, 6]);
    assert_eq!(writes, vec![43, 43, 43]);
}

#[test]
fn plan_of_zero_seconds() {
    assert_eq!(
        playback_plan(0),
        vec![
            PlaybackStep::Synthesize { pitch: 2 },
            PlaybackStep::Synthesize { pitch: 4 },
            PlaybackStep::Synthesize { pitch: 6 },
        ]
    );
}

#[test]
fn pitches_rise() {
    assert_eq!(tone_pitches(), [2, 4, 6]);
}

#[test]
fn short_write_is_an_error() {
    assert_eq!(check_write(1024), Ok(()));
    assert_eq!(
        check_write(512),
        Err(AudioError::WriteSize { expected: 1024, actual: 512 })
    );
    assert_eq!(
        check_write(0),
        Err(AudioError::WriteSize { expected: 1024, actual: 0 })
    );
}

#[test]
fn start_only_when_not_running() {
    assert!(!needs_start(PcmState::Running));
    assert!(needs_start(PcmState::Prepared));
    assert!(needs_start(PcmState::Setup));
    assert!(needs_start(PcmState::XRun));
}
