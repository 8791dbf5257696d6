//! Iterative fractal-zoom animation: an escape-time rendering of the
//! Mandelbrot set that breathes around a waypoint's base zoom, rotates
//! slowly, and cycles its palette.
//!
//! The complex plane is modeled in signed fixed point with 24 fractional
//! bits, so the whole pixel pipeline is ordinary integer arithmetic.

use vstd::prelude::*;
use crate::motion::Motion;
use crate::term::MAX_DIM;
use crate::term::clear_seq;
use crate::term::cursor_hide_seq;
use crate::term::fg256_seq;
use crate::term::normalize_dims;
use crate::term::push_fg256;
use crate::term::push_str_chars;
use crate::term::query_term_dimensions;
use crate::term::render_restore;
use crate::term::reset_seq;
use crate::term::term_emit;
use crate::term::term_flush;
use crate::trig::cos_mrad;
use crate::trig::cos_mrad_spec;
use crate::trig::sin_mrad;
use crate::trig::sin_mrad_spec;

verus! {

/// One unit of the complex plane, in fixed point (24 fractional bits).
pub const FP: i64 = 16777216;

// ---------------------------------------------------------------------------
// Escape-time iteration.
// ---------------------------------------------------------------------------

/// Truncating division for a positive divisor: what `/` computes on `i64`
/// values of either sign.
pub open spec fn fpdiv(a: int, b: int) -> int {
    if a >= 0 {
        a / b
    } else {
        -((-a) / b)
    }
}

/// Truncating division by a positive divisor.
pub fn fpdiv_exec(a: i64, b: i64) -> (r: i64)
    requires
        b > 0,
        a > i64::MIN,
    ensures
        r == fpdiv(a as int, b as int),
        fpdiv(a as int, b as int) == r,
{
    if a >= 0 {
        a / b
    } else {
        -((-a) / b)
    }
}

/// Real part of one escape step `z * z + c` in fixed point.
pub open spec fn escape_step_x(zx: int, zy: int, cx: int) -> int {
    fpdiv(zx * zx - zy * zy, FP as int) + cx
}

/// Imaginary part of one escape step `z * z + c` in fixed point.
pub open spec fn escape_step_y(zx: int, zy: int, cy: int) -> int {
    fpdiv(2 * zx * zy, FP as int) + cy
}

/// The standard escape-time count, continued from iteration `iter` at point
/// `z = (zx, zy)`: iterate `z := z * z + c` until `|z|^2 >= 4` or the
/// iteration bound is reached.  A count equal to `max` means the point is
/// taken to be inside the set.
pub open spec fn escape_from(zx: int, zy: int, cx: int, cy: int, iter: nat, max: nat) -> nat
    decreases max - iter,
{
    if iter >= max {
        max
    } else if zx * zx + zy * zy >= 4 * (FP as int) * (FP as int) {
        iter
    } else {
        escape_from(escape_step_x(zx, zy, cx), escape_step_y(zx, zy, cy), cx, cy, iter + 1, max)
    }
}

/// The escape count of a point, from `z = 0`.
pub open spec fn escape_count(cx: int, cy: int, max: nat) -> nat {
    escape_from(0, 0, cx, cy, 0, max)
}

/// Convergence at the origin: `c = 0` sits inside the main cardioid, `z`
/// stays at `0` forever, and the count always reaches the iteration bound.
pub proof fn lemma_escape_origin(iter: nat, max: nat)
    requires
        iter <= max,
    ensures
        escape_from(0, 0, 0, 0, iter, max) == max,
    decreases max - iter,
{
    if iter < max {
        assert(escape_step_x(0, 0, 0) == 0);
        assert(escape_step_y(0, 0, 0) == 0);
        lemma_escape_origin(iter + 1, max);
    }
}

/// Divergence far outside the set: a point with `|c|^2 >= 4` escapes on the
/// first iteration, so its count is at most `1`.
pub proof fn lemma_escape_far(cx: int, cy: int, max: nat)
    requires
        cx * cx + cy * cy >= 4 * (FP as int) * (FP as int),
    ensures
        escape_count(cx, cy, max) <= 1,
{
    if max > 0 {
        assert(escape_step_x(0, 0, cx) == cx);
        assert(escape_step_y(0, 0, cy) == cy);
        assert(escape_from(cx, cy, cx, cy, 1, max) == if 1 >= max {
            max as int
        } else {
            1
        });
    }
}

/// Runs the escape-time iteration for one point of the complex plane.
pub fn escape_iterations(cx: i64, cy: i64, max: u32) -> (r: u32)
    requires
        -32 * FP <= cx <= 32 * FP,
        -32 * FP <= cy <= 32 * FP,
        max <= 100000,
    ensures
        r == escape_count(cx as int, cy as int, max as nat),
        r <= max,
        cx == 0 && cy == 0 ==> r == max,
        cx * cx + cy * cy >= 4 * FP * FP ==> r <= 1,
{
    proof {
        if cx == 0 && cy == 0 {
            lemma_escape_origin(0, max as nat);
        }
        if cx * cx + cy * cy >= 4 * FP * FP {
            lemma_escape_far(cx as int, cy as int, max as nat);
        }
    }
    let mut zx: i64 = 0;
    let mut zy: i64 = 0;
    let mut iter: u32 = 0;
    while iter < max
        invariant
            iter <= max,
            -32 * FP <= cx <= 32 * FP,
            -32 * FP <= cy <= 32 * FP,
            -40 * FP <= zx <= 40 * FP,
            -40 * FP <= zy <= 40 * FP,
            escape_from(zx as int, zy as int, cx as int, cy as int, iter as nat, max as nat)
                == escape_count(cx as int, cy as int, max as nat),
            cx == 0 && cy == 0 ==> zx == 0 && zy == 0,
        decreases max - iter,
    {
        proof {
            assert(zx * zx <= 450359962737049600 && zy * zy <= 450359962737049600 && zx * zx
                >= 0 && zy * zy >= 0) by (nonlinear_arith)
                requires
                    -40 * FP <= zx <= 40 * FP,
                    -40 * FP <= zy <= 40 * FP,
                    FP == 16777216,
            ;
        }
        let m = zx * zx + zy * zy;
        if m >= 4 * FP * FP {
            proof {
                assert(escape_from(zx as int, zy as int, cx as int, cy as int, iter as nat, max as nat)
                    == iter as nat);
                if cx * cx + cy * cy >= 4 * FP * FP {
                    lemma_escape_far(cx as int, cy as int, max as nat);
                }
            }
            return iter;
        }
        proof {
            assert(zx * zx - zy * zy <= 4 * FP * FP && zx * zx - zy * zy >= -4 * FP * FP && 2 * zx
                * zy <= 4 * FP * FP && 2 * zx * zy >= -4 * FP * FP) by (nonlinear_arith)
                requires
                    zx * zx + zy * zy < 4 * FP * FP,
                    zx * zx >= 0,
                    zy * zy >= 0,
                    FP == 16777216,
            ;
        }
        let diff = zx * zx - zy * zy;
        let prod = 2 * zx * zy;
        let qx = fpdiv_exec(diff, FP);
        let qy = fpdiv_exec(prod, FP);
        proof {
            assert(-4 * FP <= fpdiv(diff as int, FP as int) <= 4 * FP && -4 * FP
                <= fpdiv(prod as int, FP as int) <= 4 * FP) by (nonlinear_arith)
                requires
                    -4 * FP * FP <= diff <= 4 * FP * FP,
                    -4 * FP * FP <= prod <= 4 * FP * FP,
                    FP == 16777216,
                    fpdiv(diff as int, FP as int) == if diff >= 0 {
                        diff as int / (FP as int)
                    } else {
                        -((-diff) as int / (FP as int))
                    },
                    fpdiv(prod as int, FP as int) == if prod >= 0 {
                        prod as int / (FP as int)
                    } else {
                        -((-prod) as int / (FP as int))
                    },
            ;
        }
        let nzx = qx + cx;
        let nzy = qy + cy;
        proof {
            assert(escape_from(zx as int, zy as int, cx as int, cy as int, iter as nat, max as nat)
                == escape_from(nzx as int, nzy as int, cx as int, cy as int, (iter + 1) as nat, max as nat));
        }
        zx = nzx;
        zy = nzy;
        iter = iter + 1;
    }
    iter
}

// ---------------------------------------------------------------------------
// Character and color mapping.
// ---------------------------------------------------------------------------

/// The nine-step brightness gradient, dimmest first, with a filled block
/// for points inside the set.
pub open spec fn gradient_seq() -> Seq<char> {
    " .:;+*xX#█"@
}

/// The character for an escape count: a filled block exactly at the
/// iteration bound (inside the set), otherwise the gradient step scaled
/// from the count.
pub open spec fn char_for(iter: int, max: int) -> char {
    if iter == max {
        '█'
    } else {
        gradient_seq()[iter * 9 / max]
    }
}

/// The 256-color index for an escape count: black (0) inside the set,
/// otherwise a palette index cycled by the color shift through the
/// 216-color range `16..=231`.
pub open spec fn color_for(iter: int, max: int, shift: int) -> u8 {
    if iter == max {
        0
    } else {
        (16 + (iter * 255 / max / 10 + shift) % 216) as u8
    }
}

/// Maps an escape count to its gradient character.
pub fn get_character_for(iter: u32, max: u32) -> (c: char)
    requires
        0 < max <= 100000,
        iter <= max,
    ensures
        c == char_for(iter as int, max as int),
{
    proof {
        reveal_strlit(" .:;+*xX#█");
    }
    if iter == max {
        return '█';
    }
    let idx = iter * 9 / max;
    proof {
        assert((iter as int) * 9 < (max as int) * 9) by (nonlinear_arith)
            requires
                iter < max,
        ;
        assert((iter as int) * 9 / (max as int) < 9) by (nonlinear_arith)
            requires
                (iter as int) * 9 < (max as int) * 9,
                max > 0,
        ;
    }
    if idx == 0 {
        ' '
    } else if idx == 1 {
        '.'
    } else if idx == 2 {
        ':'
    } else if idx == 3 {
        ';'
    } else if idx == 4 {
        '+'
    } else if idx == 5 {
        '*'
    } else if idx == 6 {
        'x'
    } else if idx == 7 {
        'X'
    } else {
        '#'
    }
}

/// Maps an escape count and the current color shift to a 256-color index.
pub fn get_color_for(iter: u32, max: u32, shift: u32) -> (c: u8)
    requires
        0 < max <= 100000,
        iter <= max,
        shift < 2160,
    ensures
        c == color_for(iter as int, max as int, shift as int),
        iter < max ==> 16 <= c <= 231,
        iter == max ==> c == 0,
{
    if iter == max {
        return 0;
    }
    proof {
        assert((iter as int) * 255 <= 100000 * 255) by (nonlinear_arith)
            requires
                iter <= 100000,
        ;
    }
    let base = iter * 255 / max;
    let idx = (base / 10 + shift) % 216;
    (16 + idx) as u8
}

// ---------------------------------------------------------------------------
// Animation state machine.
// ---------------------------------------------------------------------------

/// The named zoom targets: center and base zoom of each waypoint, in fixed
/// point.
pub open spec fn fractal_waypoints() -> Seq<(int, int, int)> {
    seq![
        (-8388608, 0, 16777216),
        (-12582912, 1677722, 167772160),
        (5033165, 0, 838860800),
        (-2670933, 17309054, 1677721600),
        (-13421773, 2617246, 3355443200),
        (0, 13421773, 8388608000),
        (-3944743, 13878365, 16777216000),
        (-12195358, 3169216, 33554432000),
    ]
}

/// Waypoint coordinates as mathematical integers.
pub open spec fn waypoints_int(w: Seq<(i64, i64, i64)>) -> Seq<(int, int, int)> {
    w.map_values(|t: (i64, i64, i64)| (t.0 as int, t.1 as int, t.2 as int))
}

/// The breathing zoom multiplier, in ten-thousandths: the sine wave mapped
/// into the `[0.5, 2.0]` envelope.
pub open spec fn breathing_mult(phase: int) -> int {
    5000 + (sin_mrad_spec(phase % 6284) + 10000) * 3 / 4
}

/// The breathing multiplier stays within `[0.5, 2.0]`, in ten-thousandths.
pub proof fn lemma_breathing_mult_bounds(phase: int)
    requires
        0 <= phase,
    ensures
        5000 <= breathing_mult(phase) <= 20000,
{
    crate::trig::lemma_sin_bounds(phase % 6284);
    let t = (sin_mrad_spec(phase % 6284) + 10000) * 3;
    assert(0 <= t <= 60000);
    vstd::arithmetic::div_mod::lemma_div_is_ordered(0, t, 4);
    vstd::arithmetic::div_mod::lemma_div_is_ordered(t, 60000, 4);
}

/// Zoom envelope: for any breathing phase, the computed zoom stays within
/// one half and twice the active waypoint's base zoom.
pub proof fn lemma_zoom_envelope(base: int, phase: int)
    requires
        0 <= base,
        0 <= phase,
    ensures
        base / 2 <= base * breathing_mult(phase) / 10000 <= 2 * base,
{
    let m = breathing_mult(phase);
    lemma_breathing_mult_bounds(phase);
    assert(base * m <= base * 20000 && base * 5000 <= base * m && 0 <= base * 5000 && base * 20000
        == (2 * base) * 10000 && base * 5000 == 5000 * base) by (nonlinear_arith)
        requires
            0 <= base,
            5000 <= m <= 20000,
    ;
    vstd::arithmetic::div_mod::lemma_div_is_ordered(base * m, (2 * base) * 10000, 10000);
    vstd::arithmetic::div_mod::lemma_div_by_multiple(2 * base, 10000);
    vstd::arithmetic::div_mod::lemma_div_is_ordered(5000 * base, base * m, 10000);
    vstd::arithmetic::div_mod::lemma_div_denominator(5000 * base, 5000, 2);
    vstd::arithmetic::div_mod::lemma_div_multiples_vanish(base, 5000);
}

/// Specification-level state of the fractal-zoom animation.
pub struct FractalState {
    pub width: int,
    pub height: int,
    pub first: bool,
    pub frames: int,
    pub center_x: int,
    pub center_y: int,
    pub zoom: int,
    pub base_zoom: int,
    pub max_iterations: int,
    pub rotation: int,
    pub color_shift: int,
    pub breathing: int,
    pub waypoint_index: int,
    pub waypoints: Seq<(int, int, int)>,
}

/// One tick of the animation parameters: the breathing phase advances and
/// scales the zoom inside its envelope, rotation and color shift advance by
/// their fixed steps, and after three full breathing periods the animation
/// moves to the next waypoint, perturbing its center slightly by a
/// frame-count-derived offset.
pub open spec fn animation_stepped(prev: FractalState, next: FractalState) -> bool {
    let phase = prev.breathing + 10;
    &&& next.breathing == if phase > 18852 { 0int } else { phase }
    &&& next.rotation == (prev.rotation + 5) % 6284
    &&& next.color_shift == (prev.color_shift + 2) % 2160
    &&& next.zoom == prev.base_zoom * breathing_mult(phase) / 10000
    &&& next.max_iterations == prev.max_iterations
    &&& next.waypoints == prev.waypoints
    &&& if phase > 18852 {
        let idx = (prev.waypoint_index + 1) % 8;
        &&& next.waypoint_index == idx
        &&& next.base_zoom == prev.waypoints[idx].2
        &&& next.center_x == prev.waypoints[idx].0 + fpdiv(
            sin_mrad_spec(prev.frames % 6284) * 83886,
            10000,
        )
        &&& next.center_y == prev.waypoints[idx].1 + fpdiv(
            cos_mrad_spec(prev.frames % 6284) * 83886,
            10000,
        )
    } else {
        &&& next.waypoint_index == prev.waypoint_index
        &&& next.base_zoom == prev.base_zoom
        &&& next.center_x == prev.center_x
        &&& next.center_y == prev.center_y
    }
}

// ---------------------------------------------------------------------------
// Pixel mapping and the exact frame text.
// ---------------------------------------------------------------------------

/// A value divided by a positive divisor keeps a symmetric bound.
proof fn lemma_fpdiv_bound(a: int, b: int, c: int)
    requires
        b > 0,
        0 <= c,
        -(b * c) <= a <= b * c,
    ensures
        -c <= fpdiv(a, b) <= c,
{
    if a >= 0 {
        vstd::arithmetic::div_mod::lemma_multiply_divide_le(a, b, c);
        vstd::arithmetic::div_mod::lemma_div_pos_is_pos(a, b);
    } else {
        vstd::arithmetic::div_mod::lemma_multiply_divide_le(-a, b, c);
        vstd::arithmetic::div_mod::lemma_div_pos_is_pos(-a, b);
    }
}

/// The complex-plane point a screen cell maps to: the cell offset from the
/// screen center scaled into the plane (the vertical axis corrected by the
/// terminal aspect ratio), then rotated by the current angle.
pub open spec fn pixel_pt(
    center_x: int,
    center_y: int,
    scale: int,
    w: int,
    h: int,
    rot: int,
    row: int,
    col: int,
) -> (int, int) {
    let x = center_x + (col - w / 2) * scale;
    let y = center_y + fpdiv((row - h / 2) * scale * w, h);
    (
        fpdiv(x * cos_mrad_spec(rot) - y * sin_mrad_spec(rot), 10000),
        fpdiv(x * sin_mrad_spec(rot) + y * cos_mrad_spec(rot), 10000),
    )
}

/// Computes the complex-plane point of one screen cell, with the bounds the
/// escape iteration needs.
pub fn pixel_point(
    center_x: i64,
    center_y: i64,
    scale: i64,
    w: usize,
    h: usize,
    rot: u32,
    row: usize,
    col: usize,
) -> (pt: (i64, i64))
    requires
        -3 * FP <= center_x <= 3 * FP,
        -3 * FP <= center_y <= 3 * FP,
        0 <= scale <= 8 * FP,
        scale * w <= 8 * FP,
        col < w <= MAX_DIM,
        row < h <= MAX_DIM,
        rot < 6284,
    ensures
        ({
            let spt = pixel_pt(
                center_x as int,
                center_y as int,
                scale as int,
                w as int,
                h as int,
                rot as int,
                row as int,
                col as int,
            );
            pt.0 == spt.0 && pt.1 == spt.1
        }),
        -32 * FP <= pt.0 <= 32 * FP,
        -32 * FP <= pt.1 <= 32 * FP,
{
    let half_w = w as i64 / 2;
    let dx = col as i64 - half_w;
    proof {
        assert(-(8 * FP) <= dx * scale <= 8 * FP) by (nonlinear_arith)
            requires
                -(w as int) <= dx <= w as int,
                0 <= scale,
                scale * (w as int) <= 8 * FP,
                FP == 16777216,
        ;
    }
    let x = center_x + dx * scale;
    let half_h = h as i64 / 2;
    let dy = row as i64 - half_h;
    proof {
        assert(-(4096 * (8 * FP)) <= dy * scale <= 4096 * (8 * FP)) by (nonlinear_arith)
            requires
                -(h as int) <= dy <= h as int,
                h as int <= 4096,
                0 <= scale <= 8 * FP,
                FP == 16777216,
        ;
    }
    let t = dy * scale;
    proof {
        assert(-(4096 * (8 * FP) * 4096) <= t * (w as int) <= 4096 * (8 * FP) * 4096
            && -((h as int) * (scale * (w as int))) <= t * (w as int) <= (h as int) * (scale
            * (w as int)) && (h as int) * (scale * (w as int)) <= (h as int) * (8 * FP))
            by (nonlinear_arith)
            requires
                t == dy * scale,
                -(h as int) <= dy <= h as int,
                h as int <= 4096,
                0 < w as int <= 4096,
                0 <= scale <= 8 * FP,
                scale * (w as int) <= 8 * FP,
                FP == 16777216,
        ;
    }
    let tw = t * (w as i64);
    proof {
        lemma_fpdiv_bound(tw as int, h as int, scale * (w as int));
    }
    let yoff = fpdiv_exec(tw, h as i64);
    let y = center_y + yoff;
    let cosv = cos_mrad(rot);
    let sinv = sin_mrad(rot);
    proof {
        assert(-(11 * FP * 10000) <= x * cosv <= 11 * FP * 10000 && -(11 * FP * 10000) <= y * sinv
            <= 11 * FP * 10000 && -(11 * FP * 10000) <= x * sinv <= 11 * FP * 10000 && -(11 * FP
            * 10000) <= y * cosv <= 11 * FP * 10000) by (nonlinear_arith)
            requires
                -11 * FP <= x <= 11 * FP,
                -11 * FP <= y <= 11 * FP,
                -10000 <= cosv <= 10000,
                -10000 <= sinv <= 10000,
                FP == 16777216,
        ;
        lemma_fpdiv_bound((x * cosv - y * sinv) as int, 10000, 22 * FP);
        lemma_fpdiv_bound((x * sinv + y * cosv) as int, 10000, 22 * FP);
    }
    let rx = fpdiv_exec(x * cosv - y * sinv, 10000);
    let ry = fpdiv_exec(x * sinv + y * cosv, 10000);
    (rx, ry)
}

/// The per-frame rendering parameters, fixed while one frame is drawn.
pub struct FrameParams {
    pub center_x: int,
    pub center_y: int,
    pub scale: int,
    pub width: int,
    pub height: int,
    pub rotation: int,
    pub color_shift: int,
    pub max_iterations: int,
}

/// The plane-to-cell scale for a zoom level and width: four plane units
/// spread over the screen width.
pub open spec fn scale_of(zoom: int, w: int) -> int {
    if w > 0 {
        4 * (FP as int) * (FP as int) / (zoom * w)
    } else {
        0
    }
}

/// The escape count of one screen cell.
pub open spec fn pixel_escape(p: FrameParams, row: int, col: int) -> int {
    let pt = pixel_pt(p.center_x, p.center_y, p.scale, p.width, p.height, p.rotation, row, col);
    escape_count(pt.0, pt.1, p.max_iterations as nat) as int
}

/// The colored text of one cell: plain black foreground for points inside
/// the set, a cycled palette color otherwise, then the gradient character.
pub open spec fn fractal_cell_seq(p: FrameParams, row: int, col: int) -> Seq<char> {
    let it = pixel_escape(p, row, col);
    let color = color_for(it, p.max_iterations, p.color_shift);
    let ch = char_for(it, p.max_iterations);
    (if color == 0 {
        "\x1B[30m"@
    } else {
        fg256_seq(color)
    }) + seq![ch]
}

/// The first `n` cells of row `row`, concatenated.
pub open spec fn fractal_cells_upto(p: FrameParams, row: int, n: int) -> Seq<char>
    decreases n,
{
    if n <= 0 {
        Seq::<char>::empty()
    } else {
        fractal_cells_upto(p, row, n - 1) + fractal_cell_seq(p, row, n - 1)
    }
}

/// The first `n` rows of the frame, each ended by a newline.
pub open spec fn fractal_rows_upto(p: FrameParams, n: int) -> Seq<char>
    decreases n,
{
    if n <= 0 {
        Seq::<char>::empty()
    } else {
        fractal_rows_upto(p, n - 1) + fractal_cells_upto(p, n - 1, p.width) + seq!['\n']
    }
}

/// The whole fractal frame: one-time cursor hide, a full-screen clear,
/// every cell colored by its escape count, and a final color reset.
pub open spec fn fractal_frame_seq(p: FrameParams, first: bool) -> Seq<char> {
    (if first {
        cursor_hide_seq() + clear_seq()
    } else {
        Seq::<char>::empty()
    }) + clear_seq() + fractal_rows_upto(p, p.height) + reset_seq()
}

/// Builds the colored text of one whole fractal frame.
pub fn render_fractal_frame(
    center_x: i64,
    center_y: i64,
    zoom: i64,
    max: u32,
    rot: u32,
    shift: u32,
    w: usize,
    h: usize,
    first: bool,
) -> (v: Vec<char>)
    requires
        -3 * FP <= center_x <= 3 * FP,
        -3 * FP <= center_y <= 3 * FP,
        FP / 2 <= zoom <= 4000 * FP,
        0 < max <= 1000,
        rot < 6284,
        shift < 2160,
        w <= MAX_DIM,
        h <= MAX_DIM,
    ensures
        v@ == fractal_frame_seq(
            FrameParams {
                center_x: center_x as int,
                center_y: center_y as int,
                scale: scale_of(zoom as int, w as int),
                width: w as int,
                height: h as int,
                rotation: rot as int,
                color_shift: shift as int,
                max_iterations: max as int,
            },
            first,
        ),
{
    let scale: i64 = if w > 0 {
        proof {
            assert(0 < zoom * (w as int) <= 67108864000 * 4096) by (nonlinear_arith)
                requires
                    0 < zoom <= 67108864000,
                    0 < w as int <= 4096,
            ;
        }
        (4 * FP * FP) / (zoom * w as i64)
    } else {
        0
    };
    proof {
        if w > 0 {
            let zw = (zoom as int) * (w as int);
            vstd::arithmetic::div_mod::lemma_div_denominator(4 * (FP as int) * (FP as int), zoom as int, w as int);
            let q = 4 * (FP as int) * (FP as int) / (zoom as int);
            vstd::arithmetic::div_mod::lemma_div_is_ordered_by_denominator(
                4 * (FP as int) * (FP as int),
                FP as int / 2,
                zoom as int,
            );
            assert(4 * (FP as int) * (FP as int) == (8 * FP) * (FP as int / 2))
                by (nonlinear_arith)
                requires
                    FP == 16777216,
            ;
            vstd::arithmetic::div_mod::lemma_div_by_multiple(8 * (FP as int), FP as int / 2);
            assert(q <= 8 * FP);
            vstd::arithmetic::div_mod::lemma_div_pos_is_pos(4 * (FP as int) * (FP as int), zoom as int);
            vstd::arithmetic::div_mod::lemma_div_nonincreasing(q, w as int);
            vstd::arithmetic::div_mod::lemma_div_pos_is_pos(q, w as int);
            assert(scale == q / (w as int));
            vstd::arithmetic::div_mod::lemma_fundamental_div_mod(q, w as int);
            assert((w as int) * (q / (w as int)) <= q);
            assert(scale * (w as int) <= q) by (nonlinear_arith)
                requires
                    (w as int) * (q / (w as int)) <= q,
                    scale == q / (w as int),
            ;
            assert(0 <= scale <= 8 * FP);
            assert(scale * (w as int) <= 8 * FP);
        } else {
            assert(scale * (w as int) == 0) by (nonlinear_arith)
                requires
                    w as int == 0,
            ;
        }
    }
    let ghost p = FrameParams {
        center_x: center_x as int,
        center_y: center_y as int,
        scale: scale as int,
        width: w as int,
        height: h as int,
        rotation: rot as int,
        color_shift: shift as int,
        max_iterations: max as int,
    };
    let mut v: Vec<char> = Vec::new();
    if first {
        push_str_chars(&mut v, "\x1B[?25l\x1B[2J\x1B[H");
        proof {
            reveal_strlit("\x1B[?25l\x1B[2J\x1B[H");
            reveal_strlit("\x1B[?25l");
            reveal_strlit("\x1B[2J\x1B[H");
            assert(v@ =~= cursor_hide_seq() + clear_seq());
        }
    }
    push_str_chars(&mut v, "\x1B[2J\x1B[H");
    let ghost header = v@;
    proof {
        assert(header =~= (if first {
            cursor_hide_seq() + clear_seq()
        } else {
            Seq::<char>::empty()
        }) + clear_seq());
    }
    let mut row: usize = 0;
    while row < h
        invariant
            row <= h,
            -3 * FP <= center_x <= 3 * FP,
            -3 * FP <= center_y <= 3 * FP,
            0 <= scale <= 8 * FP,
            scale * (w as int) <= 8 * FP,
            0 < max <= 1000,
            rot < 6284,
            shift < 2160,
            w <= MAX_DIM,
            h <= MAX_DIM,
            p == (FrameParams {
                center_x: center_x as int,
                center_y: center_y as int,
                scale: scale as int,
                width: w as int,
                height: h as int,
                rotation: rot as int,
                color_shift: shift as int,
                max_iterations: max as int,
            }),
            v@ == header + fractal_rows_upto(p, row as int),
        decreases h - row,
    {
        let mut col: usize = 0;
        while col < w
            invariant
                row < h,
                col <= w,
                -3 * FP <= center_x <= 3 * FP,
                -3 * FP <= center_y <= 3 * FP,
                0 <= scale <= 8 * FP,
                scale * (w as int) <= 8 * FP,
                0 < max <= 1000,
                rot < 6284,
                shift < 2160,
                w <= MAX_DIM,
                h <= MAX_DIM,
                p == (FrameParams {
                    center_x: center_x as int,
                    center_y: center_y as int,
                    scale: scale as int,
                    width: w as int,
                    height: h as int,
                    rotation: rot as int,
                    color_shift: shift as int,
                    max_iterations: max as int,
                }),
                v@ == header + fractal_rows_upto(p, row as int) + fractal_cells_upto(
                    p,
                    row as int,
                    col as int,
                ),
            decreases w - col,
        {
            let pt = pixel_point(center_x, center_y, scale, w, h, rot, row, col);
            let it = escape_iterations(pt.0, pt.1, max);
            let color = get_color_for(it, max, shift);
            if color == 0 {
                push_str_chars(&mut v, "\x1B[30m");
            } else {
                push_fg256(&mut v, color);
            }
            let ch = get_character_for(it, max);
            v.push(ch);
            proof {
                assert(it == pixel_escape(p, row as int, col as int));
                assert(fractal_cells_upto(p, row as int, col + 1) == fractal_cells_upto(
                    p,
                    row as int,
                    col as int,
                ) + fractal_cell_seq(p, row as int, col as int));
                assert(v@ =~= header + fractal_rows_upto(p, row as int) + fractal_cells_upto(
                    p,
                    row as int,
                    col + 1,
                ));
            }
            col = col + 1;
        }
        v.push('\n');
        proof {
            assert(fractal_rows_upto(p, row + 1) == fractal_rows_upto(p, row as int)
                + fractal_cells_upto(p, row as int, w as int) + seq!['\n']);
            assert(v@ =~= header + fractal_rows_upto(p, row + 1));
        }
        row = row + 1;
    }
    push_str_chars(&mut v, "\x1B[0m");
    proof {
        assert(v@ =~= fractal_frame_seq(p, first));
    }
    v
}

// ---------------------------------------------------------------------------
// The animation itself.
// ---------------------------------------------------------------------------

/// The iterative fractal-zoom animation.
pub struct MandelbrotMotion {
    terminal_width: usize,
    terminal_height: usize,
    first_update: bool,
    frame_count: u32,
    center_x: i64,
    center_y: i64,
    zoom: i64,
    max_iterations: u32,
    rotation_mrad: u32,
    color_shift: u32,
    breathing_mrad: u32,
    base_zoom: i64,
    waypoint_index: usize,
    waypoints: Vec<(i64, i64, i64)>,
}

impl View for MandelbrotMotion {
    type V = FractalState;

    closed spec fn view(&self) -> FractalState {
        FractalState {
            width: self.terminal_width as int,
            height: self.terminal_height as int,
            first: self.first_update,
            frames: self.frame_count as int,
            center_x: self.center_x as int,
            center_y: self.center_y as int,
            zoom: self.zoom as int,
            base_zoom: self.base_zoom as int,
            max_iterations: self.max_iterations as int,
            rotation: self.rotation_mrad as int,
            color_shift: self.color_shift as int,
            breathing: self.breathing_mrad as int,
            waypoint_index: self.waypoint_index as int,
            waypoints: waypoints_int(self.waypoints@),
        }
    }
}

/// Builds the waypoint table.
fn make_waypoints() -> (v: Vec<(i64, i64, i64)>)
    ensures
        waypoints_int(v@) == fractal_waypoints(),
        v.len() == 8,
{
    let mut v: Vec<(i64, i64, i64)> = Vec::new();
    v.push((-8388608, 0, 16777216));
    v.push((-12582912, 1677722, 167772160));
    v.push((5033165, 0, 838860800));
    v.push((-2670933, 17309054, 1677721600));
    v.push((-13421773, 2617246, 3355443200));
    v.push((0, 13421773, 8388608000));
    v.push((-3944743, 13878365, 16777216000));
    v.push((-12195358, 3169216, 33554432000));
    proof {
        assert(waypoints_int(v@) =~= fractal_waypoints());
    }
    v
}

/// Every waypoint's center sits within two plane units of the origin and
/// its base zoom within the supported range.
proof fn lemma_waypoint_bounds(i: int)
    requires
        0 <= i < 8,
    ensures
        -2 * FP <= fractal_waypoints()[i].0 <= 2 * FP,
        -2 * FP <= fractal_waypoints()[i].1 <= 2 * FP,
        FP <= fractal_waypoints()[i].2 <= 2000 * FP,
{
    if i == 0 {
        assert(fractal_waypoints()[0] == (-8388608int, 0int, 16777216int));
    } else if i == 1 {
        assert(fractal_waypoints()[1] == (-12582912int, 1677722int, 167772160int));
    } else if i == 2 {
        assert(fractal_waypoints()[2] == (5033165int, 0int, 838860800int));
    } else if i == 3 {
        assert(fractal_waypoints()[3] == (-2670933int, 17309054int, 1677721600int));
    } else if i == 4 {
        assert(fractal_waypoints()[4] == (-13421773int, 2617246int, 3355443200int));
    } else if i == 5 {
        assert(fractal_waypoints()[5] == (0int, 13421773int, 8388608000int));
    } else if i == 6 {
        assert(fractal_waypoints()[6] == (-3944743int, 13878365int, 16777216000int));
    } else {
        assert(fractal_waypoints()[7] == (-12195358int, 3169216int, 33554432000int));
    }
}

impl MandelbrotMotion {
    #[verifier::type_invariant]
    spec fn wf(self) -> bool {
        &&& self.terminal_width <= MAX_DIM
        &&& self.terminal_height <= MAX_DIM
        &&& waypoints_int(self.waypoints@) == fractal_waypoints()
        &&& self.waypoints.len() == 8
        &&& self.waypoint_index < 8
        &&& -3 * FP <= self.center_x <= 3 * FP
        &&& -3 * FP <= self.center_y <= 3 * FP
        &&& FP <= self.base_zoom <= 2000 * FP
        &&& FP / 2 <= self.zoom <= 4000 * FP
        &&& 0 < self.max_iterations <= 1000
        &&& self.rotation_mrad < 6284
        &&& self.color_shift < 2160
        &&& self.breathing_mrad <= 18852
    }

    /// Creates the animation at the first waypoint, against the currently
    /// reported terminal size (with a fallback when there is none).
    pub fn new() -> (m: Self)
        ensures
            m@.first,
            m@.frames == 0,
            m@.waypoint_index == 0,
            m@.waypoints == fractal_waypoints(),
            m@.center_x == fractal_waypoints()[0].0,
            m@.center_y == fractal_waypoints()[0].1,
            m@.zoom == fractal_waypoints()[0].2,
            m@.base_zoom == fractal_waypoints()[0].2,
            m@.max_iterations == 100,
            m@.rotation == 0,
            m@.color_shift == 0,
            m@.breathing == 0,
            0 <= m@.width <= MAX_DIM,
            0 <= m@.height <= MAX_DIM,
    {
        let d = normalize_dims(query_term_dimensions(), 2, (78, 20));
        let waypoints = make_waypoints();
        MandelbrotMotion {
            terminal_width: d.width,
            terminal_height: d.height,
            first_update: true,
            frame_count: 0,
            center_x: -8388608,
            center_y: 0,
            zoom: 16777216,
            max_iterations: 100,
            rotation_mrad: 0,
            color_shift: 0,
            breathing_mrad: 0,
            base_zoom: 16777216,
            waypoint_index: 0,
            waypoints,
        }
    }

    /// The current zoom, in fixed point.
    pub fn zoom(&self) -> (r: i64)
        ensures
            r == self@.zoom,
    {
        self.zoom
    }

    /// The active waypoint's base zoom, in fixed point.
    pub fn base_zoom(&self) -> (r: i64)
        ensures
            r == self@.base_zoom,
    {
        self.base_zoom
    }

    /// The per-pixel iteration bound.
    pub fn max_iterations(&self) -> (r: u32)
        ensures
            r == self@.max_iterations,
    {
        self.max_iterations
    }

    /// The escape count of a point of the complex plane, under this
    /// animation's iteration bound.
    pub fn mandelbrot_iterations(&self, x: i64, y: i64) -> (r: u32)
        requires
            -32 * FP <= x <= 32 * FP,
            -32 * FP <= y <= 32 * FP,
        ensures
            r == escape_count(x as int, y as int, self@.max_iterations as nat),
            r <= self@.max_iterations,
            x == 0 && y == 0 ==> r == self@.max_iterations,
            x * x + y * y >= 4 * FP * FP ==> r <= 1,
    {
        proof {
            use_type_invariant(&*self);
        }
        escape_iterations(x, y, self.max_iterations)
    }

    /// The gradient character for an escape count.
    pub fn get_character(&self, iterations: u32, _row: usize, _col: usize) -> (c: char)
        requires
            iterations <= self@.max_iterations,
        ensures
            c == char_for(iterations as int, self@.max_iterations as int),
    {
        proof {
            use_type_invariant(&*self);
        }
        get_character_for(iterations, self.max_iterations)
    }

    /// The 256-color index for an escape count under the current shift.
    pub fn get_color(&self, iterations: u32, _row: usize, _col: usize) -> (c: u8)
        requires
            iterations <= self@.max_iterations,
        ensures
            c == color_for(iterations as int, self@.max_iterations as int, self@.color_shift),
            iterations < self@.max_iterations ==> 16 <= c <= 231,
            iterations == self@.max_iterations ==> c == 0,
    {
        proof {
            use_type_invariant(&*self);
        }
        get_color_for(iterations, self.max_iterations, self.color_shift)
    }

    /// Advances the animation parameters by one tick.
    pub fn update_animation(&mut self)
        ensures
            animation_stepped(old(self)@, final(self)@),
            old(self)@.base_zoom / 2 <= final(self)@.zoom <= 2 * old(self)@.base_zoom,
            final(self)@.width == old(self)@.width,
            final(self)@.height == old(self)@.height,
            final(self)@.first == old(self)@.first,
            final(self)@.frames == old(self)@.frames,
    {
        proof {
            use_type_invariant(&*self);
        }
        let phase = self.breathing_mrad + 10;
        let s = sin_mrad(phase % 6284);
        let mult = 5000 + (s + 10000) * 3 / 4;
        proof {
            assert(mult == breathing_mult(phase as int));
            lemma_breathing_mult_bounds(phase as int);
            lemma_zoom_envelope(self.base_zoom as int, phase as int);
            assert(self.base_zoom * mult <= 33554432000 * 20000) by (nonlinear_arith)
                requires
                    0 <= self.base_zoom <= 33554432000,
                    0 <= mult <= 20000,
            ;
            assert(0 <= self.base_zoom * mult) by (nonlinear_arith)
                requires
                    0 <= self.base_zoom,
                    0 <= mult,
            ;
            vstd::arithmetic::div_mod::lemma_div_is_ordered(FP as int, self.base_zoom as int, 2);
        }
        let zoom = self.base_zoom * mult / 10000;
        let rotation = (self.rotation_mrad + 5) % 6284;
        let shift = (self.color_shift + 2) % 2160;
        if phase > 18852 {
            let idx = (self.waypoint_index + 1) % 8;
            let wp = self.waypoints[idx];
            let ps = sin_mrad(self.frame_count % 6284);
            let pc = cos_mrad(self.frame_count % 6284);
            proof {
                assert(-(10000 * 83886) <= ps * 83886 <= 10000 * 83886 && -(10000 * 83886) <= pc
                    * 83886 <= 10000 * 83886) by (nonlinear_arith)
                    requires
                        -10000 <= ps <= 10000,
                        -10000 <= pc <= 10000,
                ;
                lemma_fpdiv_bound((ps * 83886) as int, 10000, 83886);
                lemma_fpdiv_bound((pc * 83886) as int, 10000, 83886);
                lemma_waypoint_bounds(idx as int);
                assert(waypoints_int(self.waypoints@)[idx as int] == (wp.0 as int, wp.1 as int, wp.2 as int));
            }
            let px = fpdiv_exec(ps * 83886, 10000);
            let py = fpdiv_exec(pc * 83886, 10000);
            *self = MandelbrotMotion {
                breathing_mrad: 0,
                zoom,
                rotation_mrad: rotation,
                color_shift: shift,
                center_x: wp.0 + px,
                center_y: wp.1 + py,
                base_zoom: wp.2,
                waypoint_index: idx,
                waypoints: make_waypoints(),
                ..*self
            };
        } else {
            *self = MandelbrotMotion {
                breathing_mrad: phase,
                zoom,
                rotation_mrad: rotation,
                color_shift: shift,
                waypoints: make_waypoints(),
                ..*self
            };
        }
    }
}

impl Motion for MandelbrotMotion {
    /// Re-queries the terminal size, advances the animation parameters, and
    /// renders the full escape-time frame.
    fn update(&mut self)
        ensures
            animation_stepped(old(self)@, final(self)@),
            old(self)@.base_zoom / 2 <= final(self)@.zoom <= 2 * old(self)@.base_zoom,
            !final(self)@.first,
            final(self)@.frames == (old(self)@.frames + 1) % 0x1_0000_0000,
            0 <= final(self)@.width <= MAX_DIM,
            0 <= final(self)@.height <= MAX_DIM,
    {
        proof {
            use_type_invariant(&*self);
        }
        let d = normalize_dims(query_term_dimensions(), 2, (78, 20));
        self.update_animation();
        proof {
            use_type_invariant(&*self);
        }
        let frame = render_fractal_frame(
            self.center_x,
            self.center_y,
            self.zoom,
            self.max_iterations,
            self.rotation_mrad,
            self.color_shift,
            d.width,
            d.height,
            self.first_update,
        );
        let next_count = self.frame_count.wrapping_add(1);
        *self = MandelbrotMotion {
            terminal_width: d.width,
            terminal_height: d.height,
            first_update: false,
            frame_count: next_count,
            waypoints: make_waypoints(),
            ..*self
        };
        term_emit(&frame);
        term_flush();
    }

    /// Shows the cursor and resets colors once the animation stops.
    fn finish(&mut self)
        ensures
            final(self)@ == old(self)@,
    {
        proof {
            use_type_invariant(&*self);
        }
        let v = render_restore();
        term_emit(&v);
        term_flush();
    }
}

} // verus!
