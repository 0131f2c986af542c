use vstd::prelude::*;
use vstd::arithmetic::div_mod::lemma_fundamental_div_mod_converse;
use crate::animation::{
    clip_of, entered_clip, frame_after, idle_range, lemma_frames_wrap, next_frame, select_clip, advance_frame, AnimationIndices,
    AnimationTimer, Motion, FRAME_PERIOD_NANOS,
};

verus! {

/// Horizontal facing of the player.
#[derive(Clone, Copy, Debug, PartialEq, Eq, Structural)]
pub enum Direction {
    Left,
    Right,
}

/// What the keyboard reports this frame about the two movement keys.
#[derive(Clone, Copy, Debug, PartialEq, Eq, Structural)]
pub struct MovementKeys {
    pub right_pressed: bool,
    pub left_pressed: bool,
    pub right_just_released: bool,
    pub left_just_released: bool,
}

/// Walking speed in world units per second, which is also nano-units of
/// position per nanosecond of frame time.
pub const SPEED: i64 = 50;

/// The change of position, in nano-units, that `keys` asks for over
/// `delta_nanos` nanoseconds: right wins over left.
pub open spec fn displacement(keys: MovementKeys, delta_nanos: int) -> int {
    if keys.right_pressed {
        SPEED * delta_nanos
    } else if keys.left_pressed {
        -(SPEED * delta_nanos)
    } else {
        0
    }
}

/// The single player: facing, motion, position, and the animation state.
/// `x` is in nano-units (10^-9 of a world unit).
#[derive(Clone, Copy, Debug, PartialEq, Eq, Structural)]
pub struct Player {
    pub direction: Direction,
    pub motion: Motion,
    pub x: i64,
    pub indices: AnimationIndices,
    pub timer: AnimationTimer,
    pub frame_index: usize,
}

impl Player {
    /// The clip shown is one of the three, the frame lies in it, and the timer
    /// is sound.
    pub open spec fn wf(self) -> bool {
        &&& self.indices.is_clip()
        &&& self.indices.holds(self.frame_index as int)
        &&& self.timer.wf()
    }

    /// Whether the sprite is drawn mirrored: exactly when facing left.
    pub open spec fn spec_flip_x(self) -> bool {
        self.direction == Direction::Left
    }

    /// Whether the new position for `keys` over `delta_nanos` fits in an `i64`.
    pub open spec fn can_move(self, keys: MovementKeys, delta_nanos: int) -> bool {
        i64::MIN <= self.x + displacement(keys, delta_nanos) <= i64::MAX
    }

    /// The player after one frame of keyboard input.
    pub open spec fn moved(self, keys: MovementKeys, delta_nanos: int) -> Player {
        if keys.right_pressed {
            Player {
                direction: Direction::Right,
                motion: Motion::Walking,
                x: (self.x + displacement(keys, delta_nanos)) as i64,
                ..self
            }
        } else if keys.left_pressed {
            Player {
                direction: Direction::Left,
                motion: Motion::Walking,
                x: (self.x + displacement(keys, delta_nanos)) as i64,
                ..self
            }
        } else if keys.right_just_released || keys.left_just_released {
            Player { motion: Motion::Idle, ..self }
        } else {
            self
        }
    }

    /// The player after the clip is brought in line with the motion: on a
    /// change of clip the frame snaps to the new clip's first frame.
    pub open spec fn entered(self) -> Player {
        match entered_clip(self.motion, self.indices) {
            Some(clip) => Player { indices: clip, frame_index: clip.first, ..self },
            None => self,
        }
    }

    /// The player after the timer runs for `delta_nanos`: one frame forward
    /// when it finished a period.
    pub open spec fn stepped(self, delta_nanos: int) -> Player {
        let timer = self.timer.ticked(delta_nanos);
        Player {
            timer,
            frame_index: if timer.just_finished {
                next_frame(self.frame_index as int, self.indices) as usize
            } else {
                self.frame_index
            },
            ..self
        }
    }

    /// The player after one frame of animation.
    pub open spec fn animated(self, delta_nanos: int) -> Player {
        self.entered().stepped(delta_nanos)
    }

    /// The player at start: facing right, idle, at the origin, on the first
    /// idle frame, with a fresh timer of a tenth of a second.
    pub fn new() -> (r: Player)
        ensures
            r.wf(),
            r.direction == Direction::Right,
            r.motion == Motion::Idle,
            r.x == 0,
            r.indices == idle_range(),
            r.frame_index == 0,
            r.timer == (AnimationTimer {
                period_nanos: FRAME_PERIOD_NANOS,
                elapsed_nanos: 0,
                just_finished: false,
            }),
    {
        let indices = AnimationIndices::idle();
        Player {
            direction: Direction::Right,
            motion: Motion::Idle,
            x: 0,
            indices,
            timer: AnimationTimer::new(FRAME_PERIOD_NANOS),
            frame_index: indices.first,
        }
    }

    /// Whether the sprite is drawn mirrored.
    pub fn flip_x(&self) -> (r: bool)
        ensures
            r == self.spec_flip_x(),
    {
        match self.direction {
            Direction::Left => true,
            Direction::Right => false,
        }
    }

    /// One frame of keyboard input: holding right moves right and faces right,
    /// else holding left moves left and faces left, both setting `Walking`;
    /// else a movement key released this frame sets `Idle`; else nothing
    /// changes.
    pub fn keyboard_input(&mut self, keys: MovementKeys, delta_nanos: u64)
        requires
            old(self).can_move(keys, delta_nanos as int),
        ensures
            *final(self) == old(self).moved(keys, delta_nanos as int),
            old(self).wf() ==> final(self).wf(),
            keys.right_pressed ==> final(self).direction == Direction::Right
                && !final(self).spec_flip_x(),
            !keys.right_pressed && keys.left_pressed ==> final(self).direction == Direction::Left
                && final(self).spec_flip_x(),
            !keys.right_pressed && !keys.left_pressed && (keys.right_just_released
                || keys.left_just_released) ==> final(self).motion == Motion::Idle,
    {
        if keys.right_pressed {
            let x: i128 = self.x as i128 + (SPEED as i128) * (delta_nanos as i128);
            self.x = x as i64;
            self.direction = Direction::Right;
            self.motion = Motion::Walking;
        } else if keys.left_pressed {
            let x: i128 = self.x as i128 - (SPEED as i128) * (delta_nanos as i128);
            self.x = x as i64;
            self.direction = Direction::Left;
            self.motion = Motion::Walking;
        } else if keys.right_just_released || keys.left_just_released {
            self.motion = Motion::Idle;
        }
    }

    /// Brings the clip in line with the motion.  After a change of clip the
    /// frame is the new clip's first frame and the clip is the motion's own.
    pub fn enter_motion(&mut self)
        requires
            old(self).wf(),
        ensures
            *final(self) == old(self).entered(),
            final(self).wf(),
            entered_clip(old(self).motion, old(self).indices) is Some ==> {
                &&& final(self).indices == clip_of(old(self).motion)
                &&& final(self).frame_index == final(self).indices.first
            },
    {
        match select_clip(self.motion, self.indices) {
            Some(clip) => {
                self.indices = clip;
                self.frame_index = clip.first;
            },
            None => {},
        }
    }

    /// Runs the timer for `delta_nanos` and, when it finished a period, moves
    /// to the next frame of the clip.
    pub fn step_frame(&mut self, delta_nanos: u64)
        requires
            old(self).wf(),
            old(self).timer.can_tick(delta_nanos as int),
        ensures
            *final(self) == old(self).stepped(delta_nanos as int),
            final(self).wf(),
    {
        self.timer.tick(delta_nanos);
        if self.timer.just_finished {
            self.frame_index = advance_frame(self.frame_index, self.indices);
        }
    }

    /// One frame of animation: the clip follows the motion, then the timer
    /// runs and may step the frame.
    pub fn sprite_animation(&mut self, delta_nanos: u64)
        requires
            old(self).wf(),
            old(self).timer.can_tick(delta_nanos as int),
        ensures
            *final(self) == old(self).animated(delta_nanos as int),
            final(self).wf(),
    {
        self.enter_motion();
        self.step_frame(delta_nanos);
    }

    /// The player after `n` frames of animation of `delta_nanos` each.
    pub open spec fn animated_n(self, delta_nanos: int, n: nat) -> Player
        decreases n,
    {
        if n == 0 {
            self
        } else {
            self.animated_n(delta_nanos, (n - 1) as nat).animated(delta_nanos)
        }
    }
}

/// Whatever the motion, when it changes the clip the new clip is the motion's
/// own and the frame shown is that clip's first frame.
pub proof fn lemma_entry_starts_at_first(p: Player)
    requires
        p.wf(),
        entered_clip(p.motion, p.indices) is Some,
    ensures
        p.entered().indices == clip_of(p.motion),
        p.entered().frame_index == clip_of(p.motion).first,
        p.entered().wf(),
{
}

/// With no change of clip pending, `n` frames that each last one timer period
/// move the frame `n` places forward in the clip, modulo the clip's length;
/// the frame never leaves the clip and the timer keeps its phase.
pub proof fn lemma_periodic_frames(p: Player, n: nat)
    requires
        p.wf(),
        entered_clip(p.motion, p.indices) is None,
    ensures
        p.animated_n(p.timer.period_nanos as int, n).indices == p.indices,
        p.animated_n(p.timer.period_nanos as int, n).motion == p.motion,
        p.animated_n(p.timer.period_nanos as int, n).timer.period_nanos == p.timer.period_nanos,
        p.animated_n(p.timer.period_nanos as int, n).timer.elapsed_nanos == p.timer.elapsed_nanos,
        p.animated_n(p.timer.period_nanos as int, n).frame_index == frame_after(
            p.frame_index as int,
            p.indices,
            n,
        ),
        p.animated_n(p.timer.period_nanos as int, n).frame_index == p.indices.first + (
        p.frame_index - p.indices.first + n) % p.indices.len(),
        p.animated_n(p.timer.period_nanos as int, n).wf(),
    decreases n,
{
    let period = p.timer.period_nanos as int;
    lemma_frames_wrap(p.frame_index as int, p.indices, n);
    if n > 0 {
        lemma_periodic_frames(p, (n - 1) as nat);
        let q = p.animated_n(period, (n - 1) as nat);
        assert(q.entered() == q);
        let e = q.timer.elapsed_nanos as int;
        lemma_fundamental_div_mod_converse(e + period, period, 1, e);
        assert(q.timer.ticked(period).just_finished);
        assert(q.timer.ticked(period).elapsed_nanos == e);
        lemma_frames_wrap(p.frame_index as int, p.indices, (n - 1) as nat);
        let f = next_frame(q.frame_index as int, q.indices);
        assert(f == frame_after(p.frame_index as int, p.indices, n));
        assert(p.indices.holds(f));
        assert(p.animated_n(period, n) == q.stepped(period));
        assert(q.stepped(period).frame_index == f);
    }
}

} // verus!
