use vstd::prelude::*;

verus! {

/// Playback rate in frames per second.
pub const SAMPLE_RATE: u32 = 44100;

/// Playback channels (mono).
pub const CHANNELS: u32 = 1;

/// Frames in the tone buffer, handed to the device in one write.
pub const PERIOD_FRAMES: usize = 1024;

/// Seconds each tone of the siren is played.
pub const AUDIO_LENGTH_SECS: u64 = 1;

/// Number of tones in the siren.
pub const TONE_COUNT: usize = 3;

/// A hardware parameter of the PCM device, named in a negotiation failure.
#[derive(Clone, Copy, Debug, PartialEq, Eq, Structural)]
pub enum HwParam {
    /// Getting the full parameter space of the device.
    Prepare,
    Channels,
    Rate,
    Format,
    Access,
    /// Installing the chosen parameters on the device.
    Install,
    /// Reading back the parameters in force.
    ReadBack,
    /// Reading the negotiated buffer size.
    BufferSize,
}

/// What can go wrong while playing the siren.
#[derive(Clone, Copy, Debug, PartialEq, Eq, Structural)]
pub enum AudioError {
    /// No playback device could be opened.
    DeviceOpen,
    /// The device's information or name could not be read.
    DeviceInfo,
    /// A hardware parameter could not be negotiated.
    HardwareParam { param: HwParam },
    /// The software parameters (start threshold) could not be set.
    SoftwareParam,
    /// The device refused a buffer write.
    Write,
    /// The device took another number of frames than one full buffer.
    WriteSize { expected: usize, actual: usize },
    /// Playback could not be started.
    Start,
    /// Waiting for playback to finish failed.
    Drain,
}

/// State of a PCM device.
#[derive(Clone, Copy, Debug, PartialEq, Eq, Structural)]
pub enum PcmState {
    Open,
    Setup,
    Prepared,
    Running,
    XRun,
    Draining,
    Paused,
    Suspended,
    Disconnected,
}

/// One step of playing the siren.
#[derive(Clone, Copy, Debug, PartialEq, Eq, Structural)]
pub enum PlaybackStep {
    /// Fill the tone buffer with a sine wave of this pitch.
    Synthesize { pitch: u32 },
    /// Hand the whole tone buffer to the device.
    Write,
}

/// Buffer writes that play one tone for `secs` seconds, rounded down.
pub open spec fn tone_writes(secs: nat) -> nat {
    secs * SAMPLE_RATE as nat / PERIOD_FRAMES as nat
}

/// Pitch of tone `t`: 2, 4, 6.
pub open spec fn pitch_of(t: int) -> u32 {
    (2 * (t + 1)) as u32
}

/// Step `k` of the siren when each tone is written `n` times: each tone is
/// synthesized, then written `n` times, before the next tone.
pub open spec fn plan_step(n: nat, k: int) -> PlaybackStep {
    if k % (n + 1) as int == 0 {
        PlaybackStep::Synthesize { pitch: pitch_of(k / (n + 1) as int) }
    } else {
        PlaybackStep::Write
    }
}

/// All steps of the siren when each tone is written `n` times.
pub open spec fn plan_of(n: nat) -> Seq<PlaybackStep> {
    Seq::new(TONE_COUNT as nat * (n + 1), |k: int| plan_step(n, k))
}

/// Buffer writes that play one tone for `audio_length_secs` seconds:
/// `audio_length_secs * 44100 / 1024`, rounded down.
pub fn writes_per_tone(audio_length_secs: u64) -> (r: u64)
    requires
        audio_length_secs * SAMPLE_RATE <= u64::MAX,
    ensures
        r == tone_writes(audio_length_secs as nat),
{
    audio_length_secs * SAMPLE_RATE as u64 / PERIOD_FRAMES as u64
}

/// Pitches of the siren's tones, in the order they are played.
pub fn tone_pitches() -> (r: [u32; 3])
    ensures
        r@ == seq![pitch_of(0), pitch_of(1), pitch_of(2)],
        r@ == seq![2u32, 4u32, 6u32],
{
    let r = [2u32, 4, 6];
    assert(r@ =~= seq![pitch_of(0), pitch_of(1), pitch_of(2)]);
    r
}

/// Check the frame count that one write of the tone buffer returned: the
/// device must take the whole buffer.
pub fn check_write(written: usize) -> (r: Result<(), AudioError>)
    ensures
        written == PERIOD_FRAMES ==> r == Ok::<(), AudioError>(()),
        written != PERIOD_FRAMES ==> r == Err::<(), AudioError>(
            AudioError::WriteSize { expected: PERIOD_FRAMES, actual: written },
        ),
{
    if written == PERIOD_FRAMES {
        Ok(())
    } else {
        Err(AudioError::WriteSize { expected: PERIOD_FRAMES, actual: written })
    }
}

/// Whether playback must still be started explicitly once all tones are
/// written: so unless the device already runs.
pub fn needs_start(state: PcmState) -> (r: bool)
    ensures
        r == (state != PcmState::Running),
{
    !matches!(state, PcmState::Running)
}

/// The steps that play the siren with each tone lasting
/// `audio_length_secs` seconds: for each pitch in turn, synthesize it once,
/// then write the buffer `writes_per_tone(audio_length_secs)` times.
pub fn playback_plan(audio_length_secs: u64) -> (r: Vec<PlaybackStep>)
    requires
        audio_length_secs * SAMPLE_RATE <= u64::MAX,
        TONE_COUNT * (tone_writes(audio_length_secs as nat) + 1) <= usize::MAX,
    ensures
        r@ == plan_of(tone_writes(audio_length_secs as nat)),
{
    let n = writes_per_tone(audio_length_secs);
    let ghost m: int = n + 1;
    let pitches = tone_pitches();
    let mut r: Vec<PlaybackStep> = Vec::new();
    let mut t: usize = 0;
    while t < TONE_COUNT
        invariant
            m == n + 1,
            TONE_COUNT * m <= usize::MAX,
            t <= TONE_COUNT,
            pitches@ == seq![pitch_of(0), pitch_of(1), pitch_of(2)],
            r@.len() == t * m,
            forall|k: int| 0 <= k < r@.len() ==> r@[k] == plan_step(n as nat, k),
        decreases TONE_COUNT - t,
    {
        proof {
            assert(t * m + m <= TONE_COUNT * m) by (nonlinear_arith)
                requires
                    t < TONE_COUNT,
                    m > 0,
            ;
            vstd::arithmetic::div_mod::lemma_fundamental_div_mod_converse(t * m, m, t as int, 0);
        }
        r.push(PlaybackStep::Synthesize { pitch: pitches[t] });
        let mut j: u64 = 0;
        while j < n
            invariant
                m == n + 1,
                t < TONE_COUNT,
                t * m + m <= TONE_COUNT * m,
                TONE_COUNT * m <= usize::MAX,
                j <= n,
                r@.len() == t * m + 1 + j,
                forall|k: int| 0 <= k < r@.len() ==> r@[k] == plan_step(n as nat, k),
            decreases n - j,
        {
            proof {
                vstd::arithmetic::div_mod::lemma_fundamental_div_mod_converse(
                    t * m + 1 + j,
                    m,
                    t as int,
                    1 + j,
                );
            }
            r.push(PlaybackStep::Write);
            j = j + 1;
        }
        t = t + 1;
        assert(r@.len() == t * m) by (nonlinear_arith)
            requires
                r@.len() == (t - 1) * m + 1 + (m - 1),
        ;
    }
    assert(r@ =~= plan_of(n as nat));
    r
}

/// In the siren, tone `t` is synthesized once with pitch `2 * (t + 1)` and
/// then written `n` times before the next tone, and nothing follows the
/// third tone.
pub proof fn lemma_tone_written_n_times(n: nat, t: int)
    requires
        0 <= t < TONE_COUNT,
    ensures
        plan_of(n).len() == TONE_COUNT * (n + 1),
        plan_of(n)[t * (n + 1)] == (PlaybackStep::Synthesize { pitch: pitch_of(t) }),
        forall|j: int|
            1 <= j <= n ==> #[trigger] plan_of(n)[t * (n + 1) + j] == PlaybackStep::Write,
{
    let m = (n + 1) as int;
    assert(t * m + m <= TONE_COUNT * m) by (nonlinear_arith)
        requires
            t < TONE_COUNT,
            m > 0,
    ;
    vstd::arithmetic::div_mod::lemma_fundamental_div_mod_converse(t * m, m, t, 0);
    assert forall|j: int| 1 <= j <= n implies #[trigger] plan_of(n)[t * m + j]
        == PlaybackStep::Write by {
        vstd::arithmetic::div_mod::lemma_fundamental_div_mod_converse(t * m + j, m, t, j);
    }
}

/// With one second per tone, each of the three tones is written exactly
/// `44100 / 1024 = 43` times.
pub proof fn lemma_one_second_tones_written_43_times(t: int)
    requires
        0 <= t < TONE_COUNT,
    ensures
        tone_writes(AUDIO_LENGTH_SECS as nat) == 43,
        plan_of(43)[t * 44] == (PlaybackStep::Synthesize { pitch: pitch_of(t) }),
        forall|j: int| 1 <= j <= 43 ==> #[trigger] plan_of(43)[t * 44 + j] == PlaybackStep::Write,
{
    lemma_tone_written_n_times(43, t);
}

} // verus!
