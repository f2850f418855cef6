//! Camera framing clamped to the current level.
//!
//! The projection is sized so the whole level fits along one axis at a
//! fixed 16:9 target aspect ratio: a level wider than 16:9 shows its full
//! height and pans horizontally, a level at most as wide shows its full
//! width and pans vertically. The panning axis centers on the player and
//! is clamped so the framed window never leaves the level's pixel bounds;
//! the level's own world translation is added at the end.
//!
//! Positions and extents are in hundredths of a pixel. A wide level's
//! vertical extent is the level height rounded up to a multiple of 9
//! pixels; a tall level's horizontal extent is the level width rounded to
//! the nearest multiple of 16 pixels (ties up), which for a width `v` is
//! `((2*v + 16) / 32) * 16`. The other extent follows at the exact 16:9
//! ratio.

use vstd::prelude::*;

verus! {

/// Largest level dimension (in pixels) the rule accepts; keeps every
/// intermediate product comfortably inside `i64`.
pub const MAX_LEVEL_EXTENT: i64 = 100_000;

/// Largest magnitude (in hundredths of a pixel) accepted for player and
/// level translations.
pub const MAX_TRANSLATION: i64 = 1_000_000_000;

/// The computed camera frame: orthographic projection extents and the
/// camera translation, all in hundredths of a pixel. `bottom` and `left`
/// are always zero: the projection window is anchored at its lower-left
/// corner and moved by the translation alone.
#[derive(Clone, Copy, Debug, PartialEq, Eq, Structural)]
pub struct CameraFrame {
    pub top: i64,
    pub right: i64,
    pub bottom: i64,
    pub left: i64,
    pub x: i64,
    pub y: i64,
}

/// Whether the level is strictly wider than the 16:9 target ratio.
pub open spec fn level_wider(w: int, h: int) -> bool {
    9 * w > 16 * h
}

/// Wide level: vertical extent, the height rounded up to a multiple of 9
/// pixels, in hundredths.
pub open spec fn wide_top(h: int) -> int {
    ((h + 8) / 9) * 900
}

/// Wide level: horizontal extent, 16/9 of the vertical extent.
pub open spec fn wide_right(h: int) -> int {
    ((h + 8) / 9) * 1600
}

/// Half of `wide_right`, used to center the window on the player.
pub open spec fn wide_half_right(h: int) -> int {
    ((h + 8) / 9) * 800
}

/// Tall level: horizontal extent, the width rounded to the nearest
/// multiple of 16 pixels, in hundredths.
pub open spec fn tall_right(w: int) -> int {
    ((2 * w + 16) / 32) * 1600
}

/// Tall level: vertical extent, 9/16 of the horizontal extent.
pub open spec fn tall_top(w: int) -> int {
    ((2 * w + 16) / 32) * 900
}

/// Half of `tall_top`, used to center the window on the player.
pub open spec fn tall_half_top(w: int) -> int {
    ((2 * w + 16) / 32) * 450
}

/// `v` clamped into `[lo, hi]`.
pub open spec fn spec_clamp(v: int, lo: int, hi: int) -> int {
    if v < lo {
        lo
    } else if v > hi {
        hi
    } else {
        v
    }
}

/// Levels the framing rule is defined on: positive dimensions within the
/// arithmetic bounds, and large enough that the extent rounded up to the
/// aspect-ratio step still fits inside the level along the panning axis
/// (otherwise the clamp interval would be empty).
pub open spec fn camera_level_wf(w: int, h: int) -> bool {
    &&& 1 <= w <= MAX_LEVEL_EXTENT
    &&& 1 <= h <= MAX_LEVEL_EXTENT
    &&& level_wider(w, h) ==> wide_right(h) <= 100 * w
    &&& !level_wider(w, h) ==> tall_top(w) <= 100 * h
}

/// The camera frame for a player at `(px, py)` in a level whose world
/// translation is `(lx, ly)` and whose pixel dimensions are `w` by `h`.
pub open spec fn spec_camera_frame(px: int, py: int, lx: int, ly: int, w: int, h: int)
    -> CameraFrame {
    if level_wider(w, h) {
        CameraFrame {
            top: wide_top(h) as i64,
            right: wide_right(h) as i64,
            bottom: 0,
            left: 0,
            x: (spec_clamp(px - lx - wide_half_right(h), 0, 100 * w - wide_right(h)) + lx) as i64,
            y: ly as i64,
        }
    } else {
        CameraFrame {
            top: tall_top(w) as i64,
            right: tall_right(w) as i64,
            bottom: 0,
            left: 0,
            x: lx as i64,
            y: (spec_clamp(py - ly - tall_half_top(w), 0, 100 * h - tall_top(w)) + ly) as i64,
        }
    }
}

/// Decide whether the framing rule is defined on a level of the given
/// pixel dimensions, so unverified callers can test the precondition of
/// `camera_fit_inside_current_level` before calling it.
pub fn camera_level_ok(level_px_wid: i64, level_px_hei: i64) -> (r: bool)
    ensures
        r == camera_level_wf(level_px_wid as int, level_px_hei as int),
{
    if !(1 <= level_px_wid && level_px_wid <= MAX_LEVEL_EXTENT) {
        return false;
    }
    if !(1 <= level_px_hei && level_px_hei <= MAX_LEVEL_EXTENT) {
        return false;
    }
    if 9 * level_px_wid > 16 * level_px_hei {
        let steps: i64 = (level_px_hei + 8) / 9;
        steps * 1600 <= 100 * level_px_wid
    } else {
        let steps: i64 = (2 * level_px_wid + 16) / 32;
        steps * 900 <= 100 * level_px_hei
    }
}

/// `v` clamped into `[lo, hi]`.
fn clamp_i64(v: i64, lo: i64, hi: i64) -> (r: i64)
    requires
        lo <= hi,
    ensures
        r == spec_clamp(v as int, lo as int, hi as int),
{
    if v < lo {
        lo
    } else if v > hi {
        hi
    } else {
        v
    }
}

/// Compute the camera frame for the current level and player position.
///
/// `player_x`, `player_y` are the player's world position and `level_x`,
/// `level_y` the level's world translation, in hundredths of a pixel;
/// `level_px_wid`, `level_px_hei` are the level's pixel dimensions. The
/// caller skips the call when no level is loaded yet (the rule is then a
/// no-op for the tick).
pub fn camera_fit_inside_current_level(
    player_x: i64,
    player_y: i64,
    level_x: i64,
    level_y: i64,
    level_px_wid: i64,
    level_px_hei: i64,
) -> (frame: CameraFrame)
    requires
        camera_level_wf(level_px_wid as int, level_px_hei as int),
        -MAX_TRANSLATION <= player_x <= MAX_TRANSLATION,
        -MAX_TRANSLATION <= player_y <= MAX_TRANSLATION,
        -MAX_TRANSLATION <= level_x <= MAX_TRANSLATION,
        -MAX_TRANSLATION <= level_y <= MAX_TRANSLATION,
    ensures
        frame == spec_camera_frame(
            player_x as int,
            player_y as int,
            level_x as int,
            level_y as int,
            level_px_wid as int,
            level_px_hei as int,
        ),
{
    if 9 * level_px_wid > 16 * level_px_hei {
        let steps: i64 = (level_px_hei + 8) / 9;
        let top: i64 = steps * 900;
        let right: i64 = steps * 1600;
        let half_right: i64 = steps * 800;
        let x_in_level = clamp_i64(
            player_x - level_x - half_right,
            0,
            100 * level_px_wid - right,
        );
        CameraFrame { top, right, bottom: 0, left: 0, x: x_in_level + level_x, y: level_y }
    } else {
        let steps: i64 = (2 * level_px_wid + 16) / 32;
        let right: i64 = steps * 1600;
        let top: i64 = steps * 900;
        let half_top: i64 = steps * 450;
        let y_in_level = clamp_i64(
            player_y - level_y - half_top,
            0,
            100 * level_px_hei - top,
        );
        CameraFrame { top, right, bottom: 0, left: 0, x: level_x, y: y_in_level + level_y }
    }
}

/// Law: the framed window never leaves the level. Along the panning axis
/// the camera translation, relative to the level, stays between zero and
/// the level size minus the window extent; along the other axis it is
/// exactly zero.
pub proof fn lemma_camera_within_level(px: int, py: int, lx: int, ly: int, w: int, h: int)
    requires
        camera_level_wf(w, h),
        -MAX_TRANSLATION <= px <= MAX_TRANSLATION,
        -MAX_TRANSLATION <= py <= MAX_TRANSLATION,
        -MAX_TRANSLATION <= lx <= MAX_TRANSLATION,
        -MAX_TRANSLATION <= ly <= MAX_TRANSLATION,
    ensures
        level_wider(w, h) ==> {
            let frame = spec_camera_frame(px, py, lx, ly, w, h);
            &&& 0 <= frame.x - lx <= 100 * w - wide_right(h)
            &&& frame.y == ly
        },
        !level_wider(w, h) ==> {
            let frame = spec_camera_frame(px, py, lx, ly, w, h);
            &&& 0 <= frame.y - ly <= 100 * h - tall_top(w)
            &&& frame.x == lx
        },
{
}

/// Law: a level exactly at the 16:9 target ratio (320 by 180 pixels)
/// leaves the camera no slack: the extents equal the level dimensions and
/// the translation equals the level's own translation, wherever the
/// player stands.
pub proof fn lemma_exact_ratio_level_pins_camera(px: int, py: int, lx: int, ly: int)
    ensures
        spec_camera_frame(px, py, lx, ly, 320, 180) == (CameraFrame {
            top: 18000,
            right: 32000,
            bottom: 0,
            left: 0,
            x: lx as i64,
            y: ly as i64,
        }),
{
}

/// Law: in a level wider than 16:9 (640 by 180 pixels), a player within
/// half a window of the left edge clamps the horizontal translation to
/// the level's left edge instead of going negative.
pub proof fn lemma_wide_level_clamps_left(px: int, py: int, lx: int, ly: int)
    requires
        px - lx <= 16000,
    ensures
        spec_camera_frame(px, py, lx, ly, 640, 180) == (CameraFrame {
            top: 18000,
            right: 32000,
            bottom: 0,
            left: 0,
            x: lx as i64,
            y: ly as i64,
        }),
{
}

} // verus!
