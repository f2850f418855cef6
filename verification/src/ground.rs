//! Positional ground detection with hysteresis.
//!
//! Instead of consuming the physics engine's contact events, the player is
//! considered grounded when its vertical position has been stable for long
//! enough. A debounce counter in `[0, 5]` is incremented each tick the
//! quantized y-position repeats and decremented each tick it differs; the
//! grounded flag latches on only at counter 5 and latches off only once the
//! counter drops below 2. The two-threshold band is deliberate: a single
//! threshold would let one frame of jitter flip the flag back and forth.

use vstd::prelude::*;

verus! {

/// Counter value at which the grounded flag latches on.
pub const STABILITY_ON: u8 = 5;

/// Counter values strictly below this latch the grounded flag off.
pub const STABILITY_OFF: u8 = 2;

/// Whether the player currently counts as standing on the ground.
#[derive(Clone, Copy, Debug, PartialEq, Eq, Structural)]
pub struct Grounded(pub bool);

impl Default for Grounded {
    /// Players spawn standing on the ground.
    fn default() -> (r: Self)
        ensures
            r.0 == true,
    {
        Grounded(true)
    }
}

/// Debounce state of the ground detector: the last sampled y-position, in
/// hundredths of a pixel, and the stability counter, always in
/// `[0, STABILITY_ON]`.
#[derive(Clone, Copy, Debug, PartialEq, Eq, Structural)]
pub struct GroundSensor {
    pub last_y: i64,
    pub stability: u8,
}

impl GroundSensor {
    /// Well-formedness: the counter stays in its clamped range.
    pub open spec fn wf(self) -> bool {
        self.stability <= STABILITY_ON
    }
}

impl Default for GroundSensor {
    /// A fresh sensor: no evidence of stability yet.
    fn default() -> (r: Self)
        ensures
            r.last_y == 0,
            r.stability == 0,
            r.wf(),
    {
        GroundSensor { last_y: 0, stability: 0 }
    }
}

/// The stability counter after one tick: up by one when the sampled
/// position repeats, down by one when it differs, clamped to `[0, 5]`.
pub open spec fn step_stability(c: int, same: bool) -> int {
    if same {
        if c + 1 > STABILITY_ON {
            STABILITY_ON as int
        } else {
            c + 1
        }
    } else {
        if c - 1 < 0 {
            0
        } else {
            c - 1
        }
    }
}

/// The grounded flag after one tick, given the already-updated counter:
/// it latches on at the top of the band, off below the bottom, and is
/// otherwise left alone.
pub open spec fn step_grounded(g: bool, c: int) -> bool {
    if c == STABILITY_ON && !g {
        true
    } else if c < STABILITY_OFF && g {
        false
    } else {
        g
    }
}

/// One tick of ground detection. `y` is the player's current y-position
/// quantized to hundredths of a pixel (the caller rounds the engine's
/// floating-point position to this grid).
pub fn ground_detection(sensor: &mut GroundSensor, grounded: &mut Grounded, y: i64)
    requires
        old(sensor).wf(),
    ensures
        final(sensor).wf(),
        final(sensor).last_y == y,
        final(sensor).stability
            == step_stability(old(sensor).stability as int, y == old(sensor).last_y),
        final(grounded).0 == step_grounded(old(grounded).0, final(sensor).stability as int),
{
    if y == sensor.last_y {
        if sensor.stability < STABILITY_ON {
            sensor.stability = sensor.stability + 1;
        }
    } else {
        if sensor.stability > 0 {
            sensor.stability = sensor.stability - 1;
        }
    }

    if sensor.stability == STABILITY_ON && !grounded.0 {
        grounded.0 = true;
    } else if sensor.stability < STABILITY_OFF && grounded.0 {
        grounded.0 = false;
    }

    sensor.last_y = y;
}

/// The (counter, grounded) pair after a run of ticks described by
/// `pattern`: `pattern[i]` is whether the i-th sampled position repeated
/// the previous sample.
pub open spec fn detect_run(c: int, g: bool, pattern: Seq<bool>) -> (int, bool)
    decreases pattern.len(),
{
    if pattern.len() == 0 {
        (c, g)
    } else {
        let c1 = step_stability(c, pattern[0]);
        let g1 = step_grounded(g, c1);
        detect_run(c1, g1, pattern.drop_first())
    }
}

/// Law: a y-position that repeats for at least `STABILITY_ON` consecutive
/// ticks drives the counter to the top of the band and latches the
/// grounded flag on, from any starting state.
pub proof fn lemma_stable_run_grounds(c: int, g: bool, pattern: Seq<bool>)
    requires
        0 <= c <= STABILITY_ON,
        pattern.len() >= STABILITY_ON,
        forall|i: int| 0 <= i < pattern.len() ==> pattern[i],
    ensures
        detect_run(c, g, pattern).0 == STABILITY_ON,
        detect_run(c, g, pattern).1 == true,
{
    lemma_stable_run_counts(c, g, pattern);
}

/// Helper for `lemma_stable_run_grounds`: along an all-repeating run the
/// counter is the starting counter plus the tick count, clamped to the
/// top of the band, and the flag is latched on as soon as that sum
/// reaches the top.
proof fn lemma_stable_run_counts(c: int, g: bool, pattern: Seq<bool>)
    requires
        0 <= c <= STABILITY_ON,
        forall|i: int| 0 <= i < pattern.len() ==> pattern[i],
    ensures
        detect_run(c, g, pattern).0
            == if c + pattern.len() > STABILITY_ON { STABILITY_ON as int } else { c + pattern.len() },
        pattern.len() >= 1 && c + pattern.len() >= STABILITY_ON
            ==> detect_run(c, g, pattern).1 == true,
    decreases pattern.len(),
{
    if pattern.len() > 0 {
        let c1 = step_stability(c, pattern[0]);
        let g1 = step_grounded(g, c1);
        lemma_stable_run_counts(c1, g1, pattern.drop_first());
    }
}

/// Law: the grounded flag has hysteresis. Once latched on with a full
/// stability counter, no run of fewer than four ticks can latch it off,
/// whatever positions are sampled: each differing tick lowers the counter
/// by at most one, and the flag only releases below `STABILITY_OFF`.
pub proof fn lemma_grounded_persists(c: int, pattern: Seq<bool>)
    requires
        c == STABILITY_ON,
        pattern.len() <= 3,
    ensures
        detect_run(c, true, pattern).1 == true,
{
    lemma_grounded_persists_band(c, pattern);
}

/// Law: four consecutive differing-position ticks are also enough. From
/// a full stability counter with the flag latched on, a run of four
/// ticks whose sampled positions all differ lowers the counter to 1,
/// below the release threshold, and the flag latches off.
pub proof fn lemma_four_differing_ticks_release(pattern: Seq<bool>)
    requires
        pattern.len() == 4,
        forall|i: int| 0 <= i < pattern.len() ==> !pattern[i],
    ensures
        detect_run(STABILITY_ON as int, true, pattern) == (1int, false),
{
    let p1 = pattern.drop_first();
    let p2 = p1.drop_first();
    let p3 = p2.drop_first();
    let p4 = p3.drop_first();
    assert(detect_run(5, true, pattern) == detect_run(4, true, p1));
    assert(detect_run(4, true, p1) == detect_run(3, true, p2));
    assert(detect_run(3, true, p2) == detect_run(2, true, p3));
    assert(detect_run(2, true, p3) == detect_run(1, false, p4));
}

/// Helper for `lemma_grounded_persists`: the flag stays on along any run
/// short enough that the counter cannot cross below the release
/// threshold.
proof fn lemma_grounded_persists_band(c: int, pattern: Seq<bool>)
    requires
        c >= STABILITY_OFF + pattern.len(),
        c <= STABILITY_ON,
    ensures
        detect_run(c, true, pattern).1 == true,
    decreases pattern.len(),
{
    if pattern.len() > 0 {
        let c1 = step_stability(c, pattern[0]);
        assert(step_grounded(true, c1) == true);
        lemma_grounded_persists_band(c1, pattern.drop_first());
    }
}

} // verus!
