use vstd::prelude::*;

verus! {

/// Samples that the player puts out in a second.
pub const AUDIO_FS: u32 = 25_000;

/// Beats of the music in a minute.
pub const AUDIO_BPM: u32 = 130;

/// Number of bytes that the sound asset spends on its header.
pub const WAV_HDR_SIZE: usize = 44;

/// Samples from one beat to the next: 11538.
pub const SAMPLES_PER_BEAT: usize = 25_000 * 60 / 130;

/// Samples, counted from a beat, during which the heartbeat lamp is lit: a
/// twentieth of a second, 1250 samples.
pub const LAMP_SAMPLES: usize = 25_000 / 20;

/// What the player remembers from one sample to the next, with unbounded
/// integers.
pub struct AudioState {
    /// Index, in the asset, of the sample that is put out next.
    pub pos: int,
    /// Beats counted since the asset was last begun.
    pub beats: int,
}

impl AudioState {
    /// The state in which the player begins: at the first sample, with no
    /// beat counted.
    pub open spec fn start() -> AudioState {
        AudioState { pos: 44, beats: 0 }
    }

    /// Samples put out since the last beat began.
    pub open spec fn phase(self) -> int {
        (self.pos - 44) % 11_538
    }

    /// Whether the heartbeat lamp is lit while the next sample is put out.
    pub open spec fn lamp_on(self) -> bool {
        self.phase() < 1_250
    }

    /// The state after one sample of an asset of `len` bytes: a sample that
    /// begins a beat is counted, and after the last sample the asset begins
    /// again with no beat counted.
    pub open spec fn step(self, len: int) -> AudioState {
        if self.pos + 1 >= len {
            AudioState::start()
        } else if self.phase() == 0 {
            AudioState { pos: self.pos + 1, beats: self.beats + 1 }
        } else {
            AudioState { pos: self.pos + 1, beats: self.beats }
        }
    }

    /// Whether a sample can be put out from an asset of `len` bytes: the
    /// sample lies in the asset, behind its header, and a beat that begins
    /// with it can still be counted in 32 bits.
    pub open spec fn can_step(self, len: int) -> bool {
        &&& 44 <= self.pos < len
        &&& self.phase() == 0 ==> self.beats < u32::MAX
    }

    /// Whether the beat count is the number of beats that have begun among
    /// the samples put out since the asset was last begun.
    pub open spec fn counts_beats(self) -> bool {
        &&& self.pos >= 44
        &&& self.beats == (self.pos - 44 + 11_537) / 11_538
    }
}

/// What the player hands to the hardware for one sample.
#[derive(Clone, Copy, Debug, PartialEq, Eq)]
pub struct AudioOutput {
    /// Whether the heartbeat lamp is lit.
    pub lamp_on: bool,
    /// The duty of the pulse-width modulator: the sample itself.
    pub duty: u16,
}

/// Plays the sound asset sample by sample and counts its beats.
#[derive(Clone, Copy, Debug, PartialEq, Eq)]
pub struct AudioPlayer {
    /// Index, in the asset, of the sample that is put out next.
    pub sample_pos: usize,
    /// Beats counted since the asset was last begun.
    pub beat_count: u32,
}

impl View for AudioPlayer {
    type V = AudioState;

    open spec fn view(&self) -> AudioState {
        AudioState { pos: self.sample_pos as int, beats: self.beat_count as int }
    }
}

impl AudioPlayer {
    /// A player at the first sample, with no beat counted.
    pub fn new() -> (player: Self)
        ensures
            player@ == AudioState::start(),
    {
        AudioPlayer { sample_pos: WAV_HDR_SIZE, beat_count: 0 }
    }

    /// Whether `tick` may be called on `audio`.
    pub fn can_tick(&self, audio: &[u8]) -> (ok: bool)
        ensures
            ok == self@.can_step(audio@.len() as int),
    {
        WAV_HDR_SIZE <= self.sample_pos && self.sample_pos < audio.len() && ((self.sample_pos
            - WAV_HDR_SIZE) % SAMPLES_PER_BEAT != 0 || self.beat_count < u32::MAX)
    }

    /// Puts out one sample: says what the lamp and the modulator are to be
    /// set to, and moves on to the next sample.
    pub fn tick(&mut self, audio: &[u8]) -> (out: AudioOutput)
        requires
            old(self)@.can_step(audio@.len() as int),
        ensures
            out.lamp_on == old(self)@.lamp_on(),
            out.duty == audio@[old(self).sample_pos as int],
            final(self)@ == old(self)@.step(audio@.len() as int),
    {
        let phase: usize = (self.sample_pos - WAV_HDR_SIZE) % SAMPLES_PER_BEAT;
        if phase == 0 {
            self.beat_count += 1;
        }
        let out = AudioOutput { lamp_on: phase < LAMP_SAMPLES, duty: audio[self.sample_pos] as u16 };
        self.sample_pos += 1;
        if self.sample_pos >= audio.len() {
            self.sample_pos = WAV_HDR_SIZE;
            self.beat_count = 0;
        }
        out
    }
}

/// A sample never takes a beat back: the count stays or grows by one, but
/// for the sample that ends the asset, after which it is zero.
pub proof fn lemma_beats_grow_until_restart(s: AudioState, len: int)
    ensures
        s.step(len) == AudioState::start() || (s.step(len).beats == s.beats + 1 && s.phase() == 0)
            || (s.step(len).beats == s.beats && s.phase() != 0),
{
}

/// The player counts the beats: after every sample the count is the number
/// of beats that have begun since the asset was last begun.
pub proof fn lemma_step_counts_beats(s: AudioState, len: int)
    requires
        s.counts_beats(),
    ensures
        s.step(len).counts_beats(),
{
}

} // verus!
