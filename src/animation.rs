use vstd::prelude::*;
use vstd::arithmetic::div_mod::lemma_fundamental_div_mod;
use vstd::arithmetic::div_mod::lemma_fundamental_div_mod_converse;
use std::time::Duration;

verus! {

/// An inclusive range `[first, last]` of frame indices in the sprite sheet:
/// one animation clip.
#[derive(Clone, Copy, Debug, PartialEq, Eq, Structural)]
pub struct AnimationIndices {
    pub first: usize,
    pub last: usize,
}

/// The clip shown while standing still: frames 0 to 7.
pub open spec fn idle_range() -> AnimationIndices {
    AnimationIndices { first: 0, last: 7 }
}

/// The clip shown while walking: frames 8 to 15.
pub open spec fn walk_range() -> AnimationIndices {
    AnimationIndices { first: 8, last: 15 }
}

/// The clip shown while running: frames 16 to 23.
pub open spec fn run_range() -> AnimationIndices {
    AnimationIndices { first: 16, last: 23 }
}

impl AnimationIndices {
    /// One of the three clips of the sprite sheet.
    pub open spec fn is_clip(self) -> bool {
        self == idle_range() || self == walk_range() || self == run_range()
    }

    /// Whether `index` lies in `[first, last]`.
    pub open spec fn holds(self, index: int) -> bool {
        self.first <= index <= self.last
    }

    /// Number of frames in the clip.
    pub open spec fn len(self) -> int {
        self.last - self.first + 1
    }

    pub fn idle() -> (r: AnimationIndices)
        ensures
            r == idle_range(),
    {
        AnimationIndices { first: 0, last: 7 }
    }

    pub fn walk() -> (r: AnimationIndices)
        ensures
            r == walk_range(),
    {
        AnimationIndices { first: 8, last: 15 }
    }

    pub fn run() -> (r: AnimationIndices)
        ensures
            r == run_range(),
    {
        AnimationIndices { first: 16, last: 23 }
    }
}

/// Movement state of the player, which selects the animation clip.
#[derive(Clone, Copy, Debug, PartialEq, Eq, Structural)]
pub enum Motion {
    Idle,
    Walking,
    Running,
}

/// The clip that motion `m` switches to.
pub open spec fn clip_of(m: Motion) -> AnimationIndices {
    match m {
        Motion::Idle => idle_range(),
        Motion::Walking => walk_range(),
        Motion::Running => run_range(),
    }
}

/// The clip to switch to when the motion is `m` and the clip shown is `current`,
/// or `None` when the clip stays.  The change is read off the clip shown:
/// `Idle` leaves the walking and running clips, `Walking` and `Running` leave
/// the idle clip, and nothing moves directly between walking and running.
pub open spec fn entered_clip(m: Motion, current: AnimationIndices) -> Option<AnimationIndices> {
    match m {
        Motion::Idle => if current == walk_range() || current == run_range() {
            Some(idle_range())
        } else {
            None
        },
        Motion::Walking => if current == idle_range() {
            Some(walk_range())
        } else {
            None
        },
        Motion::Running => if current == idle_range() {
            Some(run_range())
        } else {
            None
        },
    }
}

/// Computes `entered_clip(m, current)`.
pub fn select_clip(m: Motion, current: AnimationIndices) -> (r: Option<AnimationIndices>)
    ensures
        r == entered_clip(m, current),
        r matches Some(c) ==> c == clip_of(m),
{
    match m {
        Motion::Idle => {
            if current == AnimationIndices::walk() || current == AnimationIndices::run() {
                Some(AnimationIndices::idle())
            } else {
                None
            }
        },
        Motion::Walking => {
            if current == AnimationIndices::idle() {
                Some(AnimationIndices::walk())
            } else {
                None
            }
        },
        Motion::Running => {
            if current == AnimationIndices::idle() {
                Some(AnimationIndices::run())
            } else {
                None
            }
        },
    }
}

/// The frame after `index` in `clip`, wrapping from `last` back to `first`.
pub open spec fn next_frame(index: int, clip: AnimationIndices) -> int {
    if index == clip.last {
        clip.first as int
    } else {
        index + 1
    }
}

/// The frame reached from `index` after `n` advances.
pub open spec fn frame_after(index: int, clip: AnimationIndices, n: nat) -> int
    decreases n,
{
    if n == 0 {
        index
    } else {
        next_frame(frame_after(index, clip, (n - 1) as nat), clip)
    }
}

/// Computes `next_frame(index, clip)`.
pub fn advance_frame(index: usize, clip: AnimationIndices) -> (r: usize)
    requires
        clip.holds(index as int),
    ensures
        r == next_frame(index as int, clip),
        clip.holds(r as int),
{
    if index == clip.last {
        clip.first
    } else {
        index + 1
    }
}

/// Advancing `n` times from a frame of a clip moves `n` places forward modulo
/// the clip's length, and never leaves the clip.
pub proof fn lemma_frames_wrap(index: int, clip: AnimationIndices, n: nat)
    requires
        clip.holds(index),
    ensures
        frame_after(index, clip, n) == clip.first + (index - clip.first + n) % clip.len(),
        clip.holds(frame_after(index, clip, n)),
    decreases n,
{
    let len = clip.len();
    if n == 0 {
        lemma_fundamental_div_mod_converse(index - clip.first, len, 0, index - clip.first);
    } else {
        lemma_frames_wrap(index, clip, (n - 1) as nat);
        let a = index - clip.first + n - 1;
        let q = a / len;
        let r = a % len;
        lemma_fundamental_div_mod(a, len);
        assert(a == len * q + r);
        assert(0 <= r < len);
        if r == len - 1 {
            assert(a + 1 == (q + 1) * len + 0) by (nonlinear_arith)
                requires
                    a == len * q + r,
                    r == len - 1,
            ;
            lemma_fundamental_div_mod_converse(a + 1, len, q + 1, 0);
        } else {
            assert(a + 1 == q * len + (r + 1)) by (nonlinear_arith)
                requires
                    a == len * q + r,
            ;
            lemma_fundamental_div_mod_converse(a + 1, len, q, r + 1);
        }
    }
}

/// Period of the animation timer: a tenth of a second, in nanoseconds.
pub const FRAME_PERIOD_NANOS: u64 = 100_000_000;

/// A repeating timer that reports when a period boundary has been crossed.
#[derive(Clone, Copy, Debug, PartialEq, Eq, Structural)]
pub struct AnimationTimer {
    pub period_nanos: u64,
    pub elapsed_nanos: u64,
    pub just_finished: bool,
}

impl AnimationTimer {
    pub open spec fn wf(self) -> bool {
        0 < self.period_nanos && self.elapsed_nanos < self.period_nanos
    }

    /// Whether a tick by `delta` stays within what the timer counts in one tick:
    /// fewer than 2^32 periods.
    pub open spec fn can_tick(self, delta: int) -> bool {
        self.elapsed_nanos + delta < self.period_nanos * 0x1_0000_0000
    }

    /// The timer after `delta` nanoseconds: the remainder within the period is
    /// kept, and it reports a finish when at least one boundary was crossed.
    pub open spec fn ticked(self, delta: int) -> AnimationTimer {
        let t = self.elapsed_nanos + delta;
        AnimationTimer {
            period_nanos: self.period_nanos,
            elapsed_nanos: (t % (self.period_nanos as int)) as u64,
            just_finished: t >= self.period_nanos,
        }
    }

    /// A fresh timer with the given period, at the start of a period.
    pub fn new(period_nanos: u64) -> (r: AnimationTimer)
        requires
            0 < period_nanos,
        ensures
            r.wf(),
            r == (AnimationTimer { period_nanos, elapsed_nanos: 0, just_finished: false }),
    {
        AnimationTimer { period_nanos, elapsed_nanos: 0, just_finished: false }
    }

    /// Advances the timer by `delta_nanos`.
    pub fn tick(&mut self, delta_nanos: u64)
        requires
            old(self).wf(),
            old(self).can_tick(delta_nanos as int),
        ensures
            *final(self) == old(self).ticked(delta_nanos as int),
            final(self).wf(),
    {
        let (elapsed, finished) = repeating_tick(self.period_nanos, self.elapsed_nanos, delta_nanos);
        proof {
            let t = self.elapsed_nanos + delta_nanos;
            let p = self.period_nanos as int;
            let q = t / p;
            lemma_fundamental_div_mod(t, p);
            assert(q < 0x1_0000_0000) by (nonlinear_arith)
                requires
                    t == p * q + t % p,
                    0 <= t % p,
                    t < p * 0x1_0000_0000,
                    0 < p,
            ;
            assert(q >= 1 <==> t >= p) by (nonlinear_arith)
                requires
                    t == p * q + t % p,
                    0 <= t % p < p,
                    0 < p,
            ;
            assert(q >= 0) by (nonlinear_arith)
                requires
                    t == p * q + t % p,
                    t % p < p,
                    0 <= t,
                    0 < p,
            ;
        }
        self.elapsed_nanos = elapsed;
        self.just_finished = finished;
    }
}

/// Relies on bevy's `Timer::tick` on a fresh repeating timer (bevy_time 0.13,
/// `Timer::new`, `Timer::set_elapsed`, `Timer::tick`, `Timer::elapsed`,
/// `Timer::just_finished`): the elapsed time becomes `(elapsed + delta) % period`
/// and the timer counts `(elapsed + delta) / period` finishes, as a `u32`;
/// it reports a finish when that count is not zero.
#[verifier::external_body]
fn repeating_tick(period_nanos: u64, elapsed_nanos: u64, delta_nanos: u64) -> (r: (u64, bool))
    requires
        0 < period_nanos,
    ensures
        r.0 == (elapsed_nanos + delta_nanos) % (period_nanos as int),
        r.1 == ((elapsed_nanos + delta_nanos) / (period_nanos as int) % 0x1_0000_0000 != 0),
{
    let mut timer = bevy::time::Timer::new(
        Duration::from_nanos(period_nanos),
        bevy::time::TimerMode::Repeating,
    );
    timer.set_elapsed(Duration::from_nanos(elapsed_nanos));
    timer.tick(Duration::from_nanos(delta_nanos));
    (timer.elapsed().as_nanos() as u64, timer.just_finished())
}

} // verus!
