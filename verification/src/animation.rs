use vstd::prelude::*;

verus! {

/// Last beat of the still phase.
pub const STILL_LAST_BEAT: u32 = 20;

/// Last beat of the phase that only rotates.
pub const ROTATE_LAST_BEAT: u32 = 36;

/// Last beat of the phase that rotates and zooms out.
pub const UNZOOM_LAST_BEAT: u32 = 49;

/// The scale, in percent, at which the picture has its own size.
pub const FULL_SCALE: i32 = 100;

/// The five behaviours of the animation. One loop of the music runs through
/// them in this order.
#[derive(Clone, Copy, Debug, PartialEq, Eq, Structural)]
pub enum Phase {
    /// The picture stands still at full size.
    Still,
    /// The picture rotates.
    Rotate,
    /// The picture rotates and zooms out.
    RotateUnzoom,
    /// The picture rotates and zooms in, until the scale is used up.
    RotateZoom,
    /// The picture stands upright and grows back to full size.
    Restore,
}

/// What the animation remembers from one frame to the next, with unbounded
/// integers.
pub struct AnimationState {
    /// Angle of rotation, in hundredths of a radian.
    pub rot: int,
    /// Magnification, in percent.
    pub scl: int,
    /// Whether the zoom has run out and the picture is being restored.
    pub loopend: bool,
}

impl AnimationState {
    /// The state in which every animation begins.
    pub open spec fn start() -> AnimationState {
        AnimationState { rot: 0, scl: 100, loopend: false }
    }

    /// The phase that handles a frame drawn at beat `beat`.
    pub open spec fn phase(self, beat: int) -> Phase {
        if self.loopend {
            Phase::Restore
        } else if beat <= 20 {
            Phase::Still
        } else if beat <= 36 {
            Phase::Rotate
        } else if beat <= 49 {
            Phase::RotateUnzoom
        } else {
            Phase::RotateZoom
        }
    }

    /// The state after one frame drawn at beat `beat`.
    pub open spec fn step(self, beat: int) -> AnimationState {
        match self.phase(beat) {
            Phase::Restore => if self.scl < 100 {
                AnimationState { rot: 0, scl: self.scl + 4, loopend: true }
            } else {
                AnimationState { rot: 0, scl: 100, loopend: beat > 49 }
            },
            Phase::Still => AnimationState::start(),
            Phase::Rotate => AnimationState { rot: self.rot + 1, ..self },
            Phase::RotateUnzoom => AnimationState {
                rot: self.rot + 1,
                scl: self.scl + 2,
                ..self
            },
            Phase::RotateZoom => if self.scl > 0 {
                AnimationState { rot: self.rot + 1, scl: self.scl - 16, ..self }
            } else {
                AnimationState { loopend: true, ..self }
            },
        }
    }

    /// The state after one frame for each beat count of `beats`, in order.
    pub open spec fn run(self, beats: Seq<u32>) -> AnimationState
        decreases beats.len(),
    {
        if beats.len() == 0 {
            self
        } else {
            self.step(beats[0] as int).run(beats.subrange(1, beats.len() as int))
        }
    }

    /// Bounds that no animation begun in the start state ever leaves.
    pub open spec fn within_bounds(self) -> bool {
        &&& self.rot >= 0
        &&& self.scl >= -15
        &&& self.loopend ==> self.scl <= 103
    }

    /// The number of frames that the restore phase needs to bring the scale
    /// `scl` up to full size.
    pub open spec fn frames_to_full_scale(scl: int) -> nat {
        if scl >= 100 {
            0
        } else {
            ((100 - scl + 3) / 4) as nat
        }
    }

    /// The number of frames that the zoom phase needs to use up the scale
    /// `scl`.
    pub open spec fn frames_to_zoom_end(scl: int) -> nat {
        if scl <= 0 {
            0
        } else {
            ((scl + 15) / 16) as nat
        }
    }

    /// Whether both counters are signed 32-bit values.
    pub open spec fn fits_i32(self) -> bool {
        &&& i32::MIN <= self.rot <= i32::MAX
        &&& i32::MIN <= self.scl <= i32::MAX
    }
}

/// Drives rotation and scale of the picture from the beat of the music.
#[derive(Clone, Copy, Debug, PartialEq, Eq)]
pub struct AnimationController {
    /// Angle of rotation, in hundredths of a radian.
    pub rot: i32,
    /// Magnification, in percent.
    pub scl: i32,
    /// Whether the zoom has run out and the picture is being restored.
    pub loopend: bool,
}

impl View for AnimationController {
    type V = AnimationState;

    open spec fn view(&self) -> AnimationState {
        AnimationState { rot: self.rot as int, scl: self.scl as int, loopend: self.loopend }
    }
}

impl AnimationController {
    /// A controller in the start state.
    pub fn new() -> (c: Self)
        ensures
            c@ == AnimationState::start(),
    {
        AnimationController { rot: 0, scl: FULL_SCALE, loopend: false }
    }

    /// The phase that will handle a frame drawn at beat `beat_count`.
    pub fn phase(&self, beat_count: u32) -> (p: Phase)
        ensures
            p == self@.phase(beat_count as int),
    {
        if self.loopend {
            Phase::Restore
        } else if beat_count <= STILL_LAST_BEAT {
            Phase::Still
        } else if beat_count <= ROTATE_LAST_BEAT {
            Phase::Rotate
        } else if beat_count <= UNZOOM_LAST_BEAT {
            Phase::RotateUnzoom
        } else {
            Phase::RotateZoom
        }
    }

    /// Whether the state after a frame at beat `beat_count` can be held, that
    /// is, whether `next` may be called.
    pub fn has_headroom(&self, beat_count: u32) -> (ok: bool)
        ensures
            ok == self@.step(beat_count as int).fits_i32(),
    {
        match self.phase(beat_count) {
            Phase::Still | Phase::Restore => true,
            Phase::Rotate => self.rot < i32::MAX,
            Phase::RotateUnzoom => self.rot < i32::MAX && self.scl <= i32::MAX - 2,
            Phase::RotateZoom => self.scl <= 0 || self.rot < i32::MAX,
        }
    }

    /// Advances the animation by one frame, drawn at beat `beat_count`.
    pub fn next(&mut self, beat_count: u32)
        requires
            old(self)@.step(beat_count as int).fits_i32(),
        ensures
            final(self)@ == old(self)@.step(beat_count as int),
    {
        if self.loopend {
            self.rot = 0;
            if self.scl < FULL_SCALE {
                self.scl += 4;
            } else {
                self.scl = FULL_SCALE;
                if beat_count <= UNZOOM_LAST_BEAT {
                    self.loopend = false;
                }
            }
        } else if beat_count <= STILL_LAST_BEAT {
            self.rot = 0;
            self.scl = FULL_SCALE;
            self.loopend = false;
        } else if beat_count <= ROTATE_LAST_BEAT {
            self.rot += 1;
        } else if beat_count <= UNZOOM_LAST_BEAT {
            self.rot += 1;
            self.scl += 2;
        } else if self.scl > 0 {
            self.rot += 1;
            self.scl -= 16;
        } else {
            self.loopend = true;
        }
    }
}

/// A frame never takes the rotation below zero nor the scale below -15, and
/// the scale of a picture that is being restored never exceeds 103.
pub proof fn lemma_step_keeps_bounds(s: AnimationState, beat: int)
    requires
        s.within_bounds(),
    ensures
        s.step(beat).within_bounds(),
{
}

/// Whatever the beat counts are, an animation that begins within the bounds
/// stays within them: the rotation is never negative and the scale never
/// falls below -15.
pub proof fn lemma_run_keeps_bounds(s: AnimationState, beats: Seq<u32>)
    requires
        s.within_bounds(),
    ensures
        s.run(beats).within_bounds(),
    decreases beats.len(),
{
    if beats.len() > 0 {
        lemma_step_keeps_bounds(s, beats[0] as int);
        lemma_run_keeps_bounds(s.step(beats[0] as int), beats.subrange(1, beats.len() as int));
    }
}

/// Every animation that begins in the start state stays within the bounds.
pub proof fn lemma_animation_keeps_bounds(beats: Seq<u32>)
    ensures
        AnimationState::start().run(beats).within_bounds(),
{
    lemma_run_keeps_bounds(AnimationState::start(), beats);
}

/// A frame takes a scale that is not negative below zero in one case only:
/// the last frame of the zoom, when less than one zoom step is left.
pub proof fn lemma_scale_negative_only_after_zoom(s: AnimationState, beat: int)
    requires
        s.scl >= 0,
    ensures
        s.step(beat).scl < 0 <==> s.phase(beat) == Phase::RotateZoom && 0 < s.scl < 16,
{
}

/// The frame that ends the restore phase ends in the start state.
pub proof fn lemma_restore_ends_in_start(s: AnimationState, beat: int)
    requires
        s.loopend,
        !s.step(beat).loopend,
    ensures
        s.step(beat) == AnimationState::start(),
{
}

/// A picture that is being restored is back in the start state after the
/// frames that bring the scale to full size and one more, if the beat count
/// of that last frame is in the first three phases again.
pub proof fn lemma_restore_completes(s: AnimationState, beats: Seq<u32>)
    requires
        s.loopend,
        beats.len() == AnimationState::frames_to_full_scale(s.scl) + 1,
        beats.last() <= 49,
    ensures
        s.run(beats) == AnimationState::start(),
    decreases beats.len(),
{
    let rest: Seq<u32> = beats.subrange(1, beats.len() as int);
    if s.scl >= 100 {
        assert(rest.len() == 0);
        assert(s.step(beats[0] as int).run(rest) == s.step(beats[0] as int));
    } else {
        assert(rest.last() == beats.last());
        lemma_restore_completes(s.step(beats[0] as int), rest);
    }
}

/// While the beat count stays in the first three phases, an animation begun
/// in the start state keeps a scale of at least 100 and is not being
/// restored.
pub proof fn lemma_scale_stays_full_before_zoom(s: AnimationState, beats: Seq<u32>)
    requires
        !s.loopend,
        s.scl >= 100,
        forall|i: int| 0 <= i < beats.len() ==> beats[i] <= 49,
    ensures
        !s.run(beats).loopend,
        s.run(beats).scl >= 100,
    decreases beats.len(),
{
    if beats.len() > 0 {
        let rest: Seq<u32> = beats.subrange(1, beats.len() as int);
        assert forall|i: int| 0 <= i < rest.len() implies rest[i] <= 49 by {
            assert(rest[i] == beats[i + 1]);
        }
        lemma_scale_stays_full_before_zoom(s.step(beats[0] as int), rest);
    }
}

/// While the beat count stays in the zoom phase, the zoom ends: after the
/// frames that use up the scale and one more the picture is being restored,
/// from a scale between -15 and 0.
pub proof fn lemma_zoom_reaches_restore(s: AnimationState, beats: Seq<u32>)
    requires
        !s.loopend,
        s.scl >= -15,
        beats.len() == AnimationState::frames_to_zoom_end(s.scl) + 1,
        forall|i: int| 0 <= i < beats.len() ==> beats[i] > 49,
    ensures
        s.run(beats).loopend,
        -15 <= s.run(beats).scl <= 0,
        s.run(beats).rot == s.rot + AnimationState::frames_to_zoom_end(s.scl),
    decreases beats.len(),
{
    let rest: Seq<u32> = beats.subrange(1, beats.len() as int);
    if s.scl <= 0 {
        assert(rest.len() == 0);
        assert(s.step(beats[0] as int).run(rest) == s.step(beats[0] as int));
    } else {
        assert forall|i: int| 0 <= i < rest.len() implies rest[i] > 49 by {
            assert(rest[i] == beats[i + 1]);
        }
        lemma_zoom_reaches_restore(s.step(beats[0] as int), rest);
    }
}

} // verus!
