//! Camera zoom.  Scales are counted in hundredths: 100 is a scale of 1.0.
use vstd::prelude::*;

verus! {

/// The smallest scale, 0.2: the closest the camera comes.
pub const MIN_ZOOM: u32 = 20;

/// The largest scale, 1.0.
pub const MAX_ZOOM: u32 = 100;

/// How much one key press changes the scale: 0.2.
pub const ZOOM_STEP: u32 = 20;

/// What the keyboard reports this frame about the two zoom keys.
#[derive(Clone, Copy, Debug, PartialEq, Eq, Structural)]
pub struct ZoomKeys {
    pub zoom_in_just_pressed: bool,
    pub zoom_out_just_pressed: bool,
}

/// One step closer, not below `MIN_ZOOM`.
pub open spec fn zoomed_in(scale: int) -> int {
    if scale - ZOOM_STEP < MIN_ZOOM {
        MIN_ZOOM as int
    } else {
        scale - ZOOM_STEP
    }
}

/// One step further, not above `MAX_ZOOM`.
pub open spec fn zoomed_out(scale: int) -> int {
    if scale + ZOOM_STEP > MAX_ZOOM {
        MAX_ZOOM as int
    } else {
        scale + ZOOM_STEP
    }
}

/// The scale after one frame of `keys`: zooming in wins over zooming out.
pub open spec fn zoomed(scale: int, keys: ZoomKeys) -> int {
    if keys.zoom_in_just_pressed {
        zoomed_in(scale)
    } else if keys.zoom_out_just_pressed {
        zoomed_out(scale)
    } else {
        scale
    }
}

/// The scale after one frame for each entry of `frames`, in order.
pub open spec fn zoomed_by(scale: int, frames: Seq<ZoomKeys>) -> int
    decreases frames.len(),
{
    if frames.len() == 0 {
        scale
    } else {
        zoomed(zoomed_by(scale, frames.drop_last()), frames.last())
    }
}

/// Computes `zoomed_in(scale)`.
pub fn zoom_in(scale: u32) -> (r: u32)
    ensures
        r == zoomed_in(scale as int),
{
    if scale < MIN_ZOOM + ZOOM_STEP {
        MIN_ZOOM
    } else {
        scale - ZOOM_STEP
    }
}

/// Computes `zoomed_out(scale)`.
pub fn zoom_out(scale: u32) -> (r: u32)
    ensures
        r == zoomed_out(scale as int),
{
    if scale > MAX_ZOOM - ZOOM_STEP {
        MAX_ZOOM
    } else {
        scale + ZOOM_STEP
    }
}

/// One frame of zoom keys applied to every camera's scale.  Returns whether a
/// zoom key was pressed, that is whether the scales were touched.
pub fn keyboard_zoom_in(scales: &mut Vec<u32>, keys: ZoomKeys) -> (r: bool)
    ensures
        r == (keys.zoom_in_just_pressed || keys.zoom_out_just_pressed),
        final(scales)@.len() == old(scales)@.len(),
        forall|i: int|
            0 <= i < old(scales)@.len() ==> final(scales)@[i] == zoomed(
                old(scales)@[i] as int,
                keys,
            ),
{
    if !keys.zoom_in_just_pressed && !keys.zoom_out_just_pressed {
        return false;
    }
    let n = scales.len();
    let mut i: usize = 0;
    while i < n
        invariant
            n == old(scales)@.len(),
            scales@.len() == n,
            keys.zoom_in_just_pressed || keys.zoom_out_just_pressed,
            forall|j: int| 0 <= j < i ==> scales@[j] == zoomed(old(scales)@[j] as int, keys),
            forall|j: int| i <= j < n ==> scales@[j] == old(scales)@[j],
        decreases n - i,
    {
        let s = scales[i];
        let z = if keys.zoom_in_just_pressed {
            zoom_in(s)
        } else {
            zoom_out(s)
        };
        scales.set(i, z);
        i = i + 1;
    }
    true
}

/// Starting from a scale within `[MIN_ZOOM, MAX_ZOOM]`, the scale stays within
/// those bounds after any sequence of zoom key frames.
pub proof fn lemma_zoom_stays_clamped(scale: int, frames: Seq<ZoomKeys>)
    requires
        MIN_ZOOM <= scale <= MAX_ZOOM,
    ensures
        MIN_ZOOM <= zoomed_by(scale, frames) <= MAX_ZOOM,
    decreases frames.len(),
{
    if frames.len() > 0 {
        lemma_zoom_stays_clamped(scale, frames.drop_last());
    }
}

/// A frame in which only the zoom-in key was pressed.
pub open spec fn zoom_in_press() -> ZoomKeys {
    ZoomKeys { zoom_in_just_pressed: true, zoom_out_just_pressed: false }
}

/// From a scale of at least `MIN_ZOOM`, `n` zoom-in presses give the larger of
/// `MIN_ZOOM` and `scale - n * ZOOM_STEP`.
pub proof fn lemma_repeated_zoom_in(scale: int, n: nat)
    requires
        MIN_ZOOM <= scale,
    ensures
        zoomed_by(scale, Seq::new(n, |k: int| zoom_in_press())) == if scale - n * ZOOM_STEP
            < MIN_ZOOM {
            MIN_ZOOM as int
        } else {
            scale - n * ZOOM_STEP
        },
    decreases n,
{
    let frames = Seq::new(n, |k: int| zoom_in_press());
    if n > 0 {
        lemma_repeated_zoom_in(scale, (n - 1) as nat);
        assert(frames.drop_last() =~= Seq::new((n - 1) as nat, |k: int| zoom_in_press()));
        assert(frames.last() == zoom_in_press());
    }
}

} // verus!
