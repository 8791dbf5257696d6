//! Bouncing-glyph animation: a crab walks along one terminal line and
//! reverses direction at the edges.

use vstd::prelude::*;
use crate::motion::Motion;
use crate::term::MAX_DIM;
use crate::term::clear_line_seq;
use crate::term::cursor_hide_seq;
use crate::term::normalize_dims;
use crate::term::push_repeat;
use crate::term::render_cursor_show;
use crate::term::push_str_chars;
use crate::term::query_term_dimensions;
use crate::term::term_emit;
use crate::term::term_flush;

verus! {

/// Specification-level state of the bounce animation.
pub struct CrabState {
    pub position: int,
    pub direction: int,
    pub width: int,
    pub first: bool,
}

/// One tick of the bounce state machine: the position advances by the
/// direction and is clamped to `[0, width]`, reversing direction exactly at
/// the boundaries.
pub open spec fn bounce_step(pos: int, dir: int, width: int) -> (int, int) {
    let next = pos + dir;
    if next <= 0 {
        (0, 1)
    } else if next >= width {
        (width, -1)
    } else {
        (next, dir)
    }
}

/// The bounce state machine run over a whole sequence of ticks, where
/// `widths[i]` is the terminal width seen at tick `i`.
pub open spec fn bounce_run(pos: int, dir: int, widths: Seq<int>) -> (int, int)
    decreases widths.len(),
{
    if widths.len() == 0 {
        (pos, dir)
    } else {
        let (p, d) = bounce_step(pos, dir, widths[0]);
        bounce_run(p, d, widths.drop_first())
    }
}

/// One step keeps the position within `[0, width]` and the direction a unit.
pub proof fn lemma_bounce_step_bounds(pos: int, dir: int, width: int)
    requires
        width >= 0,
        pos >= 0,
        dir == 1 || dir == -1,
    ensures
        ({
            let (p, d) = bounce_step(pos, dir, width);
            0 <= p <= width && (d == 1 || d == -1)
        }),
{
}

/// Bounce bounds over any sequence of ticks: however the terminal width
/// changes between ticks, after every tick the position lies in
/// `[0, width]` for the width seen at that tick, and the direction stays a
/// unit step.
pub proof fn lemma_bounce_run_bounds(pos: int, dir: int, widths: Seq<int>)
    requires
        pos >= 0,
        dir == 1 || dir == -1,
        widths.len() > 0,
        forall|i: int| 0 <= i < widths.len() ==> widths[i] >= 0,
    ensures
        ({
            let (p, d) = bounce_run(pos, dir, widths);
            0 <= p <= widths.last() && (d == 1 || d == -1)
        }),
    decreases widths.len(),
{
    let (p0, d0) = bounce_step(pos, dir, widths[0]);
    lemma_bounce_step_bounds(pos, dir, widths[0]);
    if widths.len() == 1 {
        let rest = widths.drop_first();
        assert(rest.len() == 0);
        assert(bounce_run(p0, d0, rest) == (p0, d0));
    } else {
        let rest = widths.drop_first();
        assert(forall|i: int| 0 <= i < rest.len() ==> rest[i] >= 0);
        lemma_bounce_run_bounds(p0, d0, rest);
        assert(rest.last() == widths.last());
    }
}

/// The text of one bounce frame: on the first frame the cursor is hidden,
/// then the line is cleared and the glyph is printed after `pos` spaces.
pub open spec fn crab_frame_seq(first: bool, pos: nat) -> Seq<char> {
    (if first {
        cursor_hide_seq()
    } else {
        Seq::<char>::empty()
    }) + clear_line_seq() + Seq::new(pos, |i: int| ' ') + "🦀"@
}

/// Builds the text of one bounce frame.
pub fn render_crab_frame(first: bool, position: usize) -> (v: Vec<char>)
    ensures
        v@ == crab_frame_seq(first, position as nat),
{
    let mut v: Vec<char> = Vec::new();
    if first {
        push_str_chars(&mut v, "\x1B[?25l");
    }
    push_str_chars(&mut v, "\r\x1B[K");
    push_repeat(&mut v, ' ', position);
    push_str_chars(&mut v, "🦀");
    proof {
        assert(v@ =~= crab_frame_seq(first, position as nat));
    }
    v
}

/// The bouncing-crab animation.
pub struct CrabMotion {
    position: usize,
    direction: i32,
    terminal_width: usize,
    first_update: bool,
}

impl View for CrabMotion {
    type V = CrabState;

    closed spec fn view(&self) -> CrabState {
        CrabState {
            position: self.position as int,
            direction: self.direction as int,
            width: self.terminal_width as int,
            first: self.first_update,
        }
    }
}

impl CrabMotion {
    #[verifier::type_invariant]
    spec fn wf(self) -> bool {
        &&& self.position <= self.terminal_width
        &&& self.terminal_width <= MAX_DIM
        &&& (self.direction == 1 || self.direction == -1)
    }

    /// Creates the animation at the left edge, walking right, against the
    /// currently reported terminal width (with a fallback when there is
    /// none).
    pub fn new() -> (m: Self)
        ensures
            m@.position == 0,
            m@.direction == 1,
            m@.first,
            0 <= m@.width <= MAX_DIM,
    {
        let d = normalize_dims(query_term_dimensions(), 5, (75, 20));
        CrabMotion { position: 0, direction: 1, terminal_width: d.width, first_update: true }
    }

    /// The current position along the line.
    pub fn position(&self) -> (r: usize)
        ensures
            r == self@.position,
    {
        self.position
    }

    /// The current direction of travel: `1` right, `-1` left.
    pub fn direction(&self) -> (r: i32)
        ensures
            r == self@.direction,
    {
        self.direction
    }

    /// The width the animation last saw.
    pub fn width(&self) -> (r: usize)
        ensures
            r == self@.width,
    {
        self.terminal_width
    }
}

impl Motion for CrabMotion {
    /// Re-queries the terminal width, advances the bounce state machine by
    /// one tick against it, and renders the line.
    fn update(&mut self)
        ensures
            ({
                let (p, d) = bounce_step(old(self)@.position, old(self)@.direction, final(self)@.width);
                final(self)@.position == p && final(self)@.direction == d
            }),
            0 <= final(self)@.position <= final(self)@.width,
            final(self)@.direction == 1 || final(self)@.direction == -1,
            0 <= final(self)@.width <= MAX_DIM,
            !final(self)@.first,
            (final(self)@.direction != old(self)@.direction) <==> {
                let next = old(self)@.position + old(self)@.direction;
                (old(self)@.direction == -1 && next <= 0)
                    || (old(self)@.direction == 1 && next >= final(self)@.width)
            },
    {
        proof {
            use_type_invariant(&*self);
        }
        let d = normalize_dims(query_term_dimensions(), 5, (75, 20));
        let width = d.width;
        let next: i64 = self.position as i64 + self.direction as i64;
        let (position, direction): (usize, i32) = if next <= 0 {
            (0, 1)
        } else if next >= width as i64 {
            (width, -1)
        } else {
            (next as usize, self.direction)
        };
        let frame = render_crab_frame(self.first_update, position);
        *self = CrabMotion { position, direction, terminal_width: width, first_update: false };
        term_emit(&frame);
        term_flush();
    }

    /// Shows the cursor again once the animation stops.
    fn finish(&mut self)
        ensures
            final(self)@ == old(self)@,
    {
        proof {
            use_type_invariant(&*self);
        }
        let v = render_cursor_show();
        term_emit(&v);
        term_flush();
    }
}

} // verus!
