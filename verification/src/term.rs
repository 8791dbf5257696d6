//! Terminal frame renderer: the low-level contract every motion honors.
//!
//! A frame is modeled as a `Vec<char>` holding the exact text of one redraw,
//! ANSI escape sequences included.  The helpers here build frames with exact
//! contracts over their character sequences; two trusted wrappers at the
//! bottom hand a finished frame to the terminal and query its size.

use vstd::prelude::*;
use std::io::Write;

verus! {

/// Terminal dimensions in character cells.
///
/// Queries of the real terminal may fail or report degenerate sizes; every
/// renderer therefore works from a normalized pair instead of the raw answer.
pub struct Dims {
    pub width: usize,
    pub height: usize,
}

/// Largest width or height a renderer will work with; larger reports are
/// clamped so that per-frame arithmetic stays within machine bounds.
pub const MAX_DIM: usize = 4096;

impl Dims {
    pub open spec fn wf(self) -> bool {
        self.width <= MAX_DIM && self.height <= MAX_DIM
    }
}

/// Normalizes a raw terminal-size report: a missing report falls back to the
/// given default, the width loses a small margin, and both axes are clamped.
pub fn normalize_dims(
    raw: Option<(usize, usize)>,
    width_margin: usize,
    fallback: (usize, usize),
) -> (d: Dims)
    requires
        fallback.0 <= MAX_DIM,
        fallback.1 <= MAX_DIM,
    ensures
        d.wf(),
        raw is None ==> d.width == fallback.0 && d.height == fallback.1,
        raw matches Some((w, h)) ==> {
            &&& d.width == {
                let reduced = if w >= width_margin { (w - width_margin) as int } else { 0 };
                if reduced <= MAX_DIM { reduced } else { MAX_DIM as int }
            }
            &&& d.height == if h <= MAX_DIM { h as int } else { MAX_DIM as int }
        },
{
    match raw {
        None => Dims { width: fallback.0, height: fallback.1 },
        Some((w, h)) => {
            let reduced = if w >= width_margin { w - width_margin } else { 0 };
            Dims {
                width: if reduced <= MAX_DIM { reduced } else { MAX_DIM },
                height: if h <= MAX_DIM { h } else { MAX_DIM },
            }
        },
    }
}

// ---------------------------------------------------------------------------
// ANSI escape sequences (VT100/256-color), as specification-level sequences.
// ---------------------------------------------------------------------------

pub open spec fn cursor_hide_seq() -> Seq<char> {
    "\x1B[?25l"@
}

pub open spec fn cursor_show_seq() -> Seq<char> {
    "\x1B[?25h"@
}

/// Clear the whole screen and move the cursor home.
pub open spec fn clear_seq() -> Seq<char> {
    "\x1B[2J\x1B[H"@
}

/// Reset colors and attributes.
pub open spec fn reset_seq() -> Seq<char> {
    "\x1B[0m"@
}

/// Return to column one and erase the current line.
pub open spec fn clear_line_seq() -> Seq<char> {
    "\r\x1B[K"@
}

/// The decimal digit character for `d` (meaningful for `d < 10`).
pub open spec fn digit_char(d: nat) -> char {
    ((48 + d) as u8) as char
}

/// The decimal rendering of `n`, most significant digit first.
pub open spec fn dec_seq(n: nat) -> Seq<char>
    decreases n,
{
    if n < 10 {
        seq![digit_char(n)]
    } else {
        dec_seq(n / 10).push(digit_char(n % 10))
    }
}

/// 256-color foreground escape: `ESC [ 38 ; 5 ; <n> m`.
pub open spec fn fg256_seq(n: u8) -> Seq<char> {
    "\x1B[38;5;"@ + dec_seq(n as nat) + "m"@
}

// ---------------------------------------------------------------------------
// Exact frame-building helpers.
// ---------------------------------------------------------------------------

/// Appends every character of `s` to `out`.
pub fn push_str_chars(out: &mut Vec<char>, s: &str)
    ensures
        final(out)@ == old(out)@ + s@,
{
    let n = s.unicode_len();
    let mut i: usize = 0;
    while i < n
        invariant
            n == s@.len(),
            i <= n,
            out@ == old(out)@ + s@.subrange(0, i as int),
        decreases n - i,
    {
        let c = s.get_char(i);
        out.push(c);
        proof {
            assert(s@.subrange(0, i + 1) == s@.subrange(0, i as int).push(s@[i as int]));
        }
        i = i + 1;
    }
    proof {
        assert(s@.subrange(0, n as int) == s@);
    }
}

/// Appends `n` copies of `c` to `out`.
pub fn push_repeat(out: &mut Vec<char>, c: char, n: usize)
    ensures
        final(out)@ == old(out)@ + Seq::new(n as nat, |i: int| c),
{
    let mut i: usize = 0;
    while i < n
        invariant
            i <= n,
            out@ == old(out)@ + Seq::new(i as nat, |j: int| c),
        decreases n - i,
    {
        out.push(c);
        proof {
            assert(Seq::new((i + 1) as nat, |j: int| c)
                == Seq::new(i as nat, |j: int| c).push(c));
        }
        i = i + 1;
    }
}

/// The characters of `s`, as a fresh vector.
pub fn chars_of(s: &str) -> (v: Vec<char>)
    ensures
        v@ == s@,
{
    let mut v: Vec<char> = Vec::new();
    push_str_chars(&mut v, s);
    proof {
        assert(v@ =~= s@);
    }
    v
}

/// Appends every character of `src` to `out`.
pub fn push_chars(out: &mut Vec<char>, src: &Vec<char>)
    ensures
        final(out)@ == old(out)@ + src@,
{
    let n = src.len();
    let mut i: usize = 0;
    while i < n
        invariant
            n == src.len(),
            i <= n,
            out@ == old(out)@ + src@.subrange(0, i as int),
        decreases n - i,
    {
        let c = src[i];
        out.push(c);
        proof {
            assert(src@.subrange(0, i + 1) == src@.subrange(0, i as int).push(src@[i as int]));
        }
        i = i + 1;
    }
    proof {
        assert(src@.subrange(0, n as int) == src@);
    }
}

/// The digit character for `d < 10`.
pub fn digit_char_exec(d: u32) -> (c: char)
    requires
        d < 10,
    ensures
        c == digit_char(d as nat),
{
    (48 + d as u8) as char
}

/// Appends the decimal rendering of `n` to `out`.
pub fn push_dec_u32(out: &mut Vec<char>, n: u32)
    ensures
        final(out)@ == old(out)@ + dec_seq(n as nat),
    decreases n,
{
    if n >= 10 {
        push_dec_u32(out, n / 10);
    }
    let c = digit_char_exec(n % 10);
    out.push(c);
}

/// Appends the decimal rendering of `n` to `out`.
pub fn push_dec_u64(out: &mut Vec<char>, n: u64)
    ensures
        final(out)@ == old(out)@ + dec_u64_seq(n),
    decreases n,
{
    if n >= 10 {
        push_dec_u64(out, n / 10);
    }
    let c = digit_char_exec((n % 10) as u32);
    out.push(c);
}

/// The decimal rendering of a 64-bit value.
pub open spec fn dec_u64_seq(n: u64) -> Seq<char> {
    dec_seq(n as nat)
}

/// The decimal rendering of a signed value, with a leading minus sign when
/// negative.
pub open spec fn dec_i64_seq(n: int) -> Seq<char> {
    if n < 0 {
        seq!['-'] + dec_seq((-n) as nat)
    } else {
        dec_seq(n as nat)
    }
}

/// Appends the decimal rendering of a signed value to `out`.
pub fn push_dec_i64(out: &mut Vec<char>, n: i64)
    requires
        n > i64::MIN,
    ensures
        final(out)@ == old(out)@ + dec_i64_seq(n as int),
{
    if n < 0 {
        out.push('-');
        push_dec_u64(out, (-n) as u64);
        proof {
            assert(out@ =~= old(out)@ + dec_i64_seq(n as int));
        }
    } else {
        push_dec_u64(out, n as u64);
    }
}

/// Appends the 256-color foreground escape for color `n`.
pub fn push_fg256(out: &mut Vec<char>, n: u8)
    ensures
        final(out)@ == old(out)@ + fg256_seq(n),
{
    push_str_chars(out, "\x1B[38;5;");
    push_dec_u32(out, n as u32);
    push_str_chars(out, "m");
}

/// The terminal-restore text a full-screen animation emits when it stops:
/// cursor shown and colors reset.
pub open spec fn restore_seq() -> Seq<char> {
    cursor_show_seq() + reset_seq()
}

/// Builds the cursor-show escape, emitted when a single-line animation
/// stops.
pub fn render_cursor_show() -> (v: Vec<char>)
    ensures
        v@ == cursor_show_seq(),
{
    let mut v: Vec<char> = Vec::new();
    push_str_chars(&mut v, "\x1B[?25h");
    proof {
        assert(v@ =~= cursor_show_seq());
    }
    v
}

/// Builds the terminal-restore text a full-screen animation emits when it
/// stops.
pub fn render_restore() -> (v: Vec<char>)
    ensures
        v@ == restore_seq(),
{
    let mut v: Vec<char> = Vec::new();
    push_str_chars(&mut v, "\x1B[?25h\x1B[0m");
    proof {
        reveal_strlit("\x1B[?25h\x1B[0m");
        reveal_strlit("\x1B[?25h");
        reveal_strlit("\x1B[0m");
        assert(v@ =~= restore_seq());
    }
    v
}

// ---------------------------------------------------------------------------
// Trusted boundary: terminal size query and best-effort output.
// ---------------------------------------------------------------------------

/// Relies on `term_size::dimensions`: the current terminal size as
/// `(width, height)` in cells, or `None` when no standard stream is a
/// terminal.  The answer depends on the environment, so nothing is promised
/// of it.
#[verifier::external_body]
pub(crate) fn query_term_dimensions() -> (r: Option<(usize, usize)>) {
    term_size::dimensions()
}

/// Relies on `std::io::Stdout::write_fmt` (through `write!`): best-effort
/// write of the frame text to the terminal; failures are ignored, as a
/// dropped frame is harmless.
#[verifier::external_body]
pub(crate) fn term_emit(frame: &Vec<char>) {
    let s: String = frame.iter().collect();
    let _ = write!(std::io::stdout(), "{}", s);
}

/// Relies on `std::io::Stdout::flush`: pushes buffered frame bytes out to
/// the terminal so the frame is visible immediately; failures are ignored.
#[verifier::external_body]
pub(crate) fn term_flush() {
    let _ = std::io::stdout().flush();
}

} // verus!
