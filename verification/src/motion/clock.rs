//! Digital-clock animation: the local wall-clock time rendered as large
//! seven-segment-style glyph blocks, centered on the screen, with one
//! decorative cycling character at the center of each digit.

use vstd::prelude::*;
use chrono::Timelike;
use crate::motion::Motion;
use crate::term::MAX_DIM;
use crate::term::chars_of;
use crate::term::clear_seq;
use crate::term::cursor_hide_seq;
use crate::term::normalize_dims;
use crate::term::push_chars;
use crate::term::push_repeat;
use crate::term::push_str_chars;
use crate::term::query_term_dimensions;
use crate::term::render_restore;
use crate::term::reset_seq;
use crate::term::term_emit;
use crate::term::term_flush;

verus! {

// ---------------------------------------------------------------------------
// Trusted boundary: the wall clock.
// ---------------------------------------------------------------------------

/// Relies on `chrono::Local::now` and chrono's `Timelike` accessors
/// (`hour`, `minute`, `second`): the current local time of day, with the
/// hour from 0 to 23 and the minute and second from 0 to 59 (chrono carries
/// a leap second in the nanosecond field, never here).  Which time comes
/// back depends on the wall clock, so only those ranges are promised.
#[verifier::external_body]
fn current_local_time() -> (t: (u32, u32, u32))
    ensures
        t.0 < 24,
        t.1 < 60,
        t.2 < 60,
{
    let now = chrono::Local::now();
    (now.hour(), now.minute(), now.second())
}

/// Reads the wall clock as hours, minutes and seconds.
pub fn get_current_time() -> (t: (u8, u8, u8))
    ensures
        t.0 < 24,
        t.1 < 60,
        t.2 < 60,
{
    let (hours, minutes, seconds) = current_local_time();
    (hours as u8, minutes as u8, seconds as u8)
}

// ---------------------------------------------------------------------------
// Glyphs.
// ---------------------------------------------------------------------------

/// A vector of rows, viewed as a sequence of character sequences.
pub open spec fn rows_view(v: Seq<Vec<char>>) -> Seq<Seq<char>> {
    v.map_values(|r: Vec<char>| r@)
}

/// The cycling substitute alphabet of each decimal digit: twelve visually
/// similar characters per digit.
pub open spec fn cycling_seq() -> Seq<Seq<char>> {
    seq![
        "0Oo°○◯◉●◆◇◈◊"@,
        "1Il|│┃║╏╎┊┋┆"@,
        "2ZzƵƶⱿⱾɀɁɂɃɄ"@,
        "3EeƐεɛ∃∄∈∉∊∋"@,
        "4Aa∀∁∂∃∄∅∆∇∈"@,
        "5Ss∫∬∭∮∯∰∱∲∳"@,
        "6GgΓγδεζηθικ"@,
        "7TtτυφχψωϖϗϘ"@,
        "8Bb∞∝∟∠∡∢∣∤∥"@,
        "9PpπϖϗϘϙϚϛϜϝ"@,
    ]
}

/// The substitute character digit `d` shows at frame `frame`: the alphabet
/// steps forward every three frames.
pub open spec fn cycling_char_spec(d: int, frame: int) -> char {
    cycling_seq()[d][(frame / 3) % 12]
}

/// The 5x7 block glyph of digit `d`, with `c` as the decorative cycling
/// character at the glyph's one interior position: the center of the
/// block, on the middle row.
pub open spec fn digit_glyph(d: int, c: char) -> Seq<Seq<char>> {
    if d == 0 {
        seq![" _____ "@, "|     |"@, "|  "@ + seq![c] + "  |"@, "|     |"@, "|_____|"@]
    } else if d == 1 {
        seq!["   |   "@, "   |   "@, "   "@ + seq![c] + "   "@, "   |   "@, "   |   "@]
    } else if d == 2 {
        seq![" _____ "@, "      |"@, " __"@ + seq![c] + "__|"@, "|      "@, "|_____ "@]
    } else if d == 3 {
        seq![" _____ "@, "      |"@, " __"@ + seq![c] + "__|"@, "      |"@, " _____|"@]
    } else if d == 4 {
        seq!["|     |"@, "|     |"@, "|__"@ + seq![c] + "__|"@, "      |"@, "      |"@]
    } else if d == 5 {
        seq![" _____ "@, "|      "@, "|__"@ + seq![c] + "__ "@, "      |"@, " _____|"@]
    } else if d == 6 {
        seq![" _____ "@, "|      "@, "|__"@ + seq![c] + "__ "@, "|     |"@, "|_____|"@]
    } else if d == 7 {
        seq![" _____ "@, "      |"@, "   "@ + seq![c] + "  |"@, "      |"@, "      |"@]
    } else if d == 8 {
        seq![" _____ "@, "|     |"@, "|__"@ + seq![c] + "__|"@, "|     |"@, "|_____|"@]
    } else {
        seq![" _____ "@, "|     |"@, "|__"@ + seq![c] + "__|"@, "      |"@, " _____|"@]
    }
}

/// The 5x7 colon separator block: a vertical bar on the second and fourth
/// rows.
pub open spec fn colon_glyph() -> Seq<Seq<char>> {
    seq!["       "@, "   |   "@, "       "@, "   |   "@, "       "@]
}

/// The five combined rows of the whole clock face `HH:MM:SS`, digit and
/// colon blocks concatenated row-wise.
pub open spec fn clock_row(h: int, m: int, s: int, frame: int, i: int) -> Seq<char> {
    digit_glyph(h / 10, cycling_char_spec(h / 10, frame))[i]
        + digit_glyph(h % 10, cycling_char_spec(h % 10, frame))[i]
        + colon_glyph()[i]
        + digit_glyph(m / 10, cycling_char_spec(m / 10, frame))[i]
        + digit_glyph(m % 10, cycling_char_spec(m % 10, frame))[i]
        + colon_glyph()[i]
        + digit_glyph(s / 10, cycling_char_spec(s / 10, frame))[i]
        + digit_glyph(s % 10, cycling_char_spec(s % 10, frame))[i]
}

/// All five rows of the clock face.
pub open spec fn clock_lines_spec(h: int, m: int, s: int, frame: int) -> Seq<Seq<char>> {
    Seq::new(5, |i: int| clock_row(h, m, s, frame, i))
}

// ---------------------------------------------------------------------------
// Centering.
// ---------------------------------------------------------------------------

/// A run of `n` spaces.
pub open spec fn space_seq(n: int) -> Seq<char> {
    Seq::new(n as nat, |i: int| ' ')
}

/// The width of the widest line.
pub open spec fn max_len(lines: Seq<Seq<char>>) -> int
    decreases lines.len(),
{
    if lines.len() == 0 {
        0
    } else {
        let m = max_len(lines.drop_last());
        if lines.last().len() > m {
            lines.last().len() as int
        } else {
            m
        }
    }
}

/// The clock face centered on a `w` by `h` screen: blank lines above,
/// left padding on each face line, and blank lines below until the screen
/// height is filled.
pub open spec fn centered_spec(lines: Seq<Seq<char>>, w: int, h: int) -> Seq<Seq<char>> {
    let maxw = max_len(lines);
    let start_col = (if w >= maxw { w - maxw } else { 0 }) / 2;
    let start_row = (if h >= lines.len() { h - lines.len() } else { 0 }) / 2;
    let total = start_row + lines.len();
    let pad = if h > total { h - total } else { 0 };
    Seq::new(start_row as nat, |i: int| space_seq(w))
        + lines.map_values(|l: Seq<char>| space_seq(start_col) + l)
        + Seq::new(pad as nat, |i: int| space_seq(w))
}

// ---------------------------------------------------------------------------
// The exact frame text.
// ---------------------------------------------------------------------------

/// One centered line, colored white and ended by a newline.
pub open spec fn clock_line_colored(line: Seq<char>) -> Seq<char> {
    "\x1B[38;5;255m"@ + line + reset_seq() + seq!['\n']
}

/// The first `n` centered lines, colored and concatenated.
pub open spec fn clock_body(lines: Seq<Seq<char>>, n: int) -> Seq<char>
    decreases n,
{
    if n <= 0 {
        Seq::<char>::empty()
    } else {
        clock_body(lines, n - 1) + clock_line_colored(lines[n - 1])
    }
}

/// The whole clock frame: one-time cursor hide, a full-screen clear, and
/// every centered line in white.
pub open spec fn clock_frame_seq(
    h: int,
    m: int,
    s: int,
    frame: int,
    w: int,
    hgt: int,
    first: bool,
) -> Seq<char> {
    let lines = centered_spec(clock_lines_spec(h, m, s, frame), w, hgt);
    (if first {
        cursor_hide_seq() + clear_seq()
    } else {
        Seq::<char>::empty()
    }) + clear_seq() + clock_body(lines, lines.len() as int)
}

// ---------------------------------------------------------------------------
// The animation itself.
// ---------------------------------------------------------------------------

/// Specification-level state of the clock animation.
pub struct ClockState {
    pub width: int,
    pub height: int,
    pub first: bool,
    pub frames: int,
    pub last_second: int,
}

/// The digital-clock animation.
pub struct ClockMotion {
    terminal_width: usize,
    terminal_height: usize,
    first_update: bool,
    frame_count: u32,
    last_second: u64,
    cycling_chars: Vec<Vec<char>>,
}

impl View for ClockMotion {
    type V = ClockState;

    closed spec fn view(&self) -> ClockState {
        ClockState {
            width: self.terminal_width as int,
            height: self.terminal_height as int,
            first: self.first_update,
            frames: self.frame_count as int,
            last_second: self.last_second as int,
        }
    }
}

/// Builds the cycling-alphabet table.
fn make_cycling_chars() -> (v: Vec<Vec<char>>)
    ensures
        rows_view(v@) == cycling_seq(),
        v.len() == 10,
        forall|i: int| 0 <= i < 10 ==> #[trigger] v@[i]@.len() == 12,
{
    let mut v: Vec<Vec<char>> = Vec::new();
    v.push(chars_of("0Oo°○◯◉●◆◇◈◊"));
    v.push(chars_of("1Il|│┃║╏╎┊┋┆"));
    v.push(chars_of("2ZzƵƶⱿⱾɀɁɂɃɄ"));
    v.push(chars_of("3EeƐεɛ∃∄∈∉∊∋"));
    v.push(chars_of("4Aa∀∁∂∃∄∅∆∇∈"));
    v.push(chars_of("5Ss∫∬∭∮∯∰∱∲∳"));
    v.push(chars_of("6GgΓγδεζηθικ"));
    v.push(chars_of("7TtτυφχψωϖϗϘ"));
    v.push(chars_of("8Bb∞∝∟∠∡∢∣∤∥"));
    v.push(chars_of("9PpπϖϗϘϙϚϛϜϝ"));
    proof {
        assert(rows_view(v@) =~~= cycling_seq());
        reveal_strlit("0Oo°○◯◉●◆◇◈◊");
        reveal_strlit("1Il|│┃║╏╎┊┋┆");
        reveal_strlit("2ZzƵƶⱿⱾɀɁɂɃɄ");
        reveal_strlit("3EeƐεɛ∃∄∈∉∊∋");
        reveal_strlit("4Aa∀∁∂∃∄∅∆∇∈");
        reveal_strlit("5Ss∫∬∭∮∯∰∱∲∳");
        reveal_strlit("6GgΓγδεζηθικ");
        reveal_strlit("7TtτυφχψωϖϗϘ");
        reveal_strlit("8Bb∞∝∟∠∡∢∣∤∥");
        reveal_strlit("9PpπϖϗϘϙϚϛϜϝ");
        assert(forall|i: int| 0 <= i < 10 ==> #[trigger] v@[i]@.len() == 12);
    }
    v
}

/// One middle glyph row: a fixed prefix, the cycling character, a fixed
/// suffix.
fn glyph_mid_row(prefix: &str, c: char, suffix: &str) -> (v: Vec<char>)
    ensures
        v@ == prefix@ + seq![c] + suffix@,
{
    let mut v = chars_of(prefix);
    v.push(c);
    push_str_chars(&mut v, suffix);
    proof {
        assert(v@ =~= prefix@ + seq![c] + suffix@);
    }
    v
}

impl ClockMotion {
    #[verifier::type_invariant]
    spec fn wf(self) -> bool {
        &&& self.terminal_width <= MAX_DIM
        &&& self.terminal_height <= MAX_DIM
        &&& rows_view(self.cycling_chars@) == cycling_seq()
        &&& self.cycling_chars.len() == 10
        &&& forall|i: int| 0 <= i < 10 ==> #[trigger] self.cycling_chars@[i]@.len() == 12
    }

    /// Creates the animation against the currently reported terminal size
    /// (with a fallback when there is none).
    pub fn new() -> (m: Self)
        ensures
            m@.first,
            m@.frames == 0,
            m@.last_second == 0,
            0 <= m@.width <= MAX_DIM,
            0 <= m@.height <= MAX_DIM,
    {
        let d = normalize_dims(query_term_dimensions(), 2, (78, 20));
        ClockMotion {
            terminal_width: d.width,
            terminal_height: d.height,
            first_update: true,
            frame_count: 0,
            last_second: 0,
            cycling_chars: make_cycling_chars(),
        }
    }

    /// The substitute character digit `digit` shows at frame `frame`.
    pub fn get_cycling_char(&self, digit: u8, frame: u32) -> (c: char)
        requires
            digit < 10,
        ensures
            c == cycling_char_spec(digit as int, frame as int),
    {
        proof {
            use_type_invariant(&*self);
        }
        let chars = &self.cycling_chars[digit as usize];
        let index = ((frame / 3) as usize) % chars.len();
        proof {
            assert(rows_view(self.cycling_chars@)[digit as int] == chars@);
        }
        chars[index]
    }

    /// Draws the 5x7 block glyph of one digit.
    pub fn draw_digit(&self, digit: u8, frame: u32) -> (v: Vec<Vec<char>>)
        requires
            digit < 10,
        ensures
            rows_view(v@) == digit_glyph(
                digit as int,
                cycling_char_spec(digit as int, frame as int),
            ),
            v.len() == 5,
    {
        let c = self.get_cycling_char(digit, frame);
        let mut v: Vec<Vec<char>> = Vec::new();
        if digit == 0 {
            v.push(chars_of(" _____ "));
            v.push(chars_of("|     |"));
            v.push(glyph_mid_row("|  ", c, "  |"));
            v.push(chars_of("|     |"));
            v.push(chars_of("|_____|"));
        } else if digit == 1 {
            v.push(chars_of("   |   "));
            v.push(chars_of("   |   "));
            v.push(glyph_mid_row("   ", c, "   "));
            v.push(chars_of("   |   "));
            v.push(chars_of("   |   "));
        } else if digit == 2 {
            v.push(chars_of(" _____ "));
            v.push(chars_of("      |"));
            v.push(glyph_mid_row(" __", c, "__|"));
            v.push(chars_of("|      "));
            v.push(chars_of("|_____ "));
        } else if digit == 3 {
            v.push(chars_of(" _____ "));
            v.push(chars_of("      |"));
            v.push(glyph_mid_row(" __", c, "__|"));
            v.push(chars_of("      |"));
            v.push(chars_of(" _____|"));
        } else if digit == 4 {
            v.push(chars_of("|     |"));
            v.push(chars_of("|     |"));
            v.push(glyph_mid_row("|__", c, "__|"));
            v.push(chars_of("      |"));
            v.push(chars_of("      |"));
        } else if digit == 5 {
            v.push(chars_of(" _____ "));
            v.push(chars_of("|      "));
            v.push(glyph_mid_row("|__", c, "__ "));
            v.push(chars_of("      |"));
            v.push(chars_of(" _____|"));
        } else if digit == 6 {
            v.push(chars_of(" _____ "));
            v.push(chars_of("|      "));
            v.push(glyph_mid_row("|__", c, "__ "));
            v.push(chars_of("|     |"));
            v.push(chars_of("|_____|"));
        } else if digit == 7 {
            v.push(chars_of(" _____ "));
            v.push(chars_of("      |"));
            v.push(glyph_mid_row("   ", c, "  |"));
            v.push(chars_of("      |"));
            v.push(chars_of("      |"));
        } else if digit == 8 {
            v.push(chars_of(" _____ "));
            v.push(chars_of("|     |"));
            v.push(glyph_mid_row("|__", c, "__|"));
            v.push(chars_of("|     |"));
            v.push(chars_of("|_____|"));
        } else {
            v.push(chars_of(" _____ "));
            v.push(chars_of("|     |"));
            v.push(glyph_mid_row("|__", c, "__|"));
            v.push(chars_of("      |"));
            v.push(chars_of(" _____|"));
        }
        proof {
            assert(rows_view(v@) =~~= digit_glyph(
                digit as int,
                cycling_char_spec(digit as int, frame as int),
            ));
        }
        v
    }

    /// Draws the 5x7 colon separator block.
    pub fn draw_colon() -> (v: Vec<Vec<char>>)
        ensures
            rows_view(v@) == colon_glyph(),
            v.len() == 5,
    {
        let mut v: Vec<Vec<char>> = Vec::new();
        v.push(chars_of("       "));
        v.push(chars_of("   |   "));
        v.push(chars_of("       "));
        v.push(chars_of("   |   "));
        v.push(chars_of("       "));
        proof {
            assert(rows_view(v@) =~~= colon_glyph());
        }
        v
    }

    /// Centers the clock face within this animation's terminal dimensions.
    pub fn center_clock(&self, clock_lines: &Vec<Vec<char>>) -> (v: Vec<Vec<char>>)
        ensures
            rows_view(v@) == centered_spec(rows_view(clock_lines@), self@.width, self@.height),
    {
        proof {
            use_type_invariant(&*self);
        }
        centered_exec(clock_lines, self.terminal_width, self.terminal_height)
    }
}

/// A blank line of `w` spaces.
fn space_row(w: usize) -> (v: Vec<char>)
    ensures
        v@ == space_seq(w as int),
{
    let mut v: Vec<char> = Vec::new();
    push_repeat(&mut v, ' ', w);
    proof {
        assert(v@ =~= space_seq(w as int));
    }
    v
}

/// Centers lines within a `w` by `h` screen, as `centered_spec` describes.
pub fn centered_exec(lines: &Vec<Vec<char>>, w: usize, h: usize) -> (v: Vec<Vec<char>>)
    requires
        w <= MAX_DIM,
        h <= MAX_DIM,
    ensures
        rows_view(v@) == centered_spec(rows_view(lines@), w as int, h as int),
{
    let ghost glines = rows_view(lines@);
    let mut maxw: usize = 0;
    let mut i: usize = 0;
    while i < lines.len()
        invariant
            i <= lines.len(),
            glines == rows_view(lines@),
            maxw == max_len(glines.take(i as int)),
        decreases lines.len() - i,
    {
        let li = lines[i].len();
        proof {
            assert(glines.take(i + 1).drop_last() =~= glines.take(i as int));
            assert(glines.take(i + 1).last() == glines[i as int]);
            assert(glines[i as int] == lines@[i as int]@);
        }
        if li > maxw {
            maxw = li;
        }
        i = i + 1;
    }
    proof {
        assert(glines.take(lines.len() as int) =~~= glines);
    }
    let start_col = (if w >= maxw { w - maxw } else { 0 }) / 2;
    let start_row = (if h >= lines.len() { h - lines.len() } else { 0 }) / 2;
    let ghost top = Seq::new(start_row as nat, |j: int| space_seq(w as int));
    let ghost mid = glines.map_values(|l: Seq<char>| space_seq(start_col as int) + l);
    let mut v: Vec<Vec<char>> = Vec::new();
    let mut r: usize = 0;
    while r < start_row
        invariant
            r <= start_row,
            w <= MAX_DIM,
            top == Seq::new(start_row as nat, |j: int| space_seq(w as int)),
            rows_view(v@) == top.take(r as int),
        decreases start_row - r,
    {
        let row_new = space_row(w);
        let ghost vprev = v@;
        v.push(row_new);
        proof {
            assert(rows_view(vprev).len() == vprev.len());
            assert(vprev.len() == r);
            assert forall|j: int| 0 <= j < r + 1 implies rows_view(v@)[j] == top.take(r + 1)[j] by {
                if j < r {
                    assert(rows_view(vprev)[j] == top.take(r as int)[j]);
                    assert(rows_view(vprev)[j] == vprev[j]@);
                    assert(v@[j] == vprev[j]);
                } else {
                    assert(v@[j]@ == space_seq(w as int));
                }
            }
            assert(rows_view(v@) =~~= top.take(r + 1));
        }
        r = r + 1;
    }
    proof {
        assert(top.take(start_row as int) =~~= top);
    }
    let mut k: usize = 0;
    while k < lines.len()
        invariant
            k <= lines.len(),
            w <= MAX_DIM,
            glines == rows_view(lines@),
            top == Seq::new(start_row as nat, |j: int| space_seq(w as int)),
            mid == glines.map_values(|l: Seq<char>| space_seq(start_col as int) + l),
            rows_view(v@) == top + mid.take(k as int),
        decreases lines.len() - k,
    {
        let mut line: Vec<char> = Vec::new();
        push_repeat(&mut line, ' ', start_col);
        push_chars(&mut line, &lines[k]);
        proof {
            assert(line@ =~= space_seq(start_col as int) + glines[k as int]);
            assert(mid[k as int] == space_seq(start_col as int) + glines[k as int]);
        }
        let ghost vprev = v@;
        v.push(line);
        proof {
            assert(rows_view(vprev).len() == vprev.len());
            assert(vprev.len() == start_row + k);
            assert forall|j: int| 0 <= j < start_row + k + 1 implies rows_view(v@)[j] == (top
                + mid.take(k + 1))[j] by {
                if j < start_row + k {
                    assert(rows_view(vprev)[j] == (top + mid.take(k as int))[j]);
                    assert(rows_view(vprev)[j] == vprev[j]@);
                    assert(v@[j] == vprev[j]);
                } else {
                    assert(v@[j]@ == line@);
                    assert((top + mid.take(k + 1))[j] == mid[k as int]);
                }
            }
            assert(rows_view(v@) =~~= top + mid.take(k + 1));
        }
        k = k + 1;
    }
    proof {
        assert(mid.take(lines.len() as int) =~~= mid);
    }
    let total = start_row + lines.len();
    let pad = if h > total { h - total } else { 0 };
    let ghost bottom = Seq::new(pad as nat, |j: int| space_seq(w as int));
    let mut b: usize = 0;
    while b < pad
        invariant
            b <= pad,
            w <= MAX_DIM,
            glines == rows_view(lines@),
            top == Seq::new(start_row as nat, |j: int| space_seq(w as int)),
            mid == glines.map_values(|l: Seq<char>| space_seq(start_col as int) + l),
            bottom == Seq::new(pad as nat, |j: int| space_seq(w as int)),
            start_row + lines.len() == total,
            rows_view(v@) == top + mid + bottom.take(b as int),
        decreases pad - b,
    {
        let row_new = space_row(w);
        let ghost vprev = v@;
        v.push(row_new);
        proof {
            assert(rows_view(vprev).len() == vprev.len());
            assert(rows_view(lines@).len() == lines@.len());
            assert(mid.len() == glines.len());
            assert(vprev.len() == start_row + lines.len() + b);
            assert forall|j: int| 0 <= j < vprev.len() + 1 implies rows_view(v@)[j] == (top + mid
                + bottom.take(b + 1))[j] by {
                if j < vprev.len() {
                    assert(rows_view(vprev)[j] == (top + mid + bottom.take(b as int))[j]);
                    assert(rows_view(vprev)[j] == vprev[j]@);
                    assert(v@[j] == vprev[j]);
                } else {
                    assert(v@[j]@ == space_seq(w as int));
                    assert((top + mid + bottom.take(b + 1))[j] == bottom[b as int]);
                }
            }
            assert(rows_view(v@) =~~= top + mid + bottom.take(b + 1));
        }
        b = b + 1;
    }
    proof {
        assert(bottom.take(pad as int) =~~= bottom);
        assert(rows_view(v@) =~~= centered_spec(glines, w as int, h as int));
    }
    v
}

impl Motion for ClockMotion {
    /// Re-queries the terminal size, reads the wall clock, and renders the
    /// centered clock face.
    fn update(&mut self)
        ensures
            !final(self)@.first,
            final(self)@.frames == (old(self)@.frames + 1) % 0x1_0000_0000,
            0 <= final(self)@.width <= MAX_DIM,
            0 <= final(self)@.height <= MAX_DIM,
            0 <= final(self)@.last_second < 60,
    {
        proof {
            use_type_invariant(&*self);
        }
        let d = normalize_dims(query_term_dimensions(), 2, (78, 20));
        let (hours, minutes, seconds) = get_current_time();
        let current_second = seconds as u64;
        let new_last = if current_second != self.last_second {
            current_second
        } else {
            self.last_second
        };
        proof {
            assert(new_last < 60 || new_last == self.last_second);
            assert(new_last == current_second);
        }
        let frame = render_clock_frame(
            hours,
            minutes,
            seconds,
            self.frame_count,
            d.width,
            d.height,
            self.first_update,
            self,
        );
        let next_count = self.frame_count.wrapping_add(1);
        *self = ClockMotion {
            terminal_width: d.width,
            terminal_height: d.height,
            first_update: false,
            frame_count: next_count,
            last_second: new_last,
            cycling_chars: make_cycling_chars(),
        };
        term_emit(&frame);
        term_flush();
    }

    /// Shows the cursor and resets colors once the animation stops.
    fn finish(&mut self)
        ensures
            final(self)@ == old(self)@,
    {
        proof {
            use_type_invariant(&*self);
        }
        let v = render_restore();
        term_emit(&v);
        term_flush();
    }
}

/// Builds the text of one whole clock frame for the given time, frame
/// counter and screen size.
pub fn render_clock_frame(
    hours: u8,
    minutes: u8,
    seconds: u8,
    frame: u32,
    w: usize,
    hgt: usize,
    first: bool,
    clock: &ClockMotion,
) -> (v: Vec<char>)
    requires
        hours < 24,
        minutes < 60,
        seconds < 60,
        w <= MAX_DIM,
        hgt <= MAX_DIM,
    ensures
        v@ == clock_frame_seq(
            hours as int,
            minutes as int,
            seconds as int,
            frame as int,
            w as int,
            hgt as int,
            first,
        ),
{
    let hour_tens = hours / 10;
    let hour_ones = hours % 10;
    let minute_tens = minutes / 10;
    let minute_ones = minutes % 10;
    let second_tens = seconds / 10;
    let second_ones = seconds % 10;
    let b0 = clock.draw_digit(hour_tens, frame);
    let b1 = clock.draw_digit(hour_ones, frame);
    let b2 = ClockMotion::draw_colon();
    let b3 = clock.draw_digit(minute_tens, frame);
    let b4 = clock.draw_digit(minute_ones, frame);
    let b5 = ClockMotion::draw_colon();
    let b6 = clock.draw_digit(second_tens, frame);
    let b7 = clock.draw_digit(second_ones, frame);
    let ghost lines_spec = clock_lines_spec(
        hours as int,
        minutes as int,
        seconds as int,
        frame as int,
    );
    let mut clock_lines: Vec<Vec<char>> = Vec::new();
    let mut i: usize = 0;
    while i < 5
        invariant
            i <= 5,
            b0.len() == 5 && b1.len() == 5 && b2.len() == 5 && b3.len() == 5 && b4.len() == 5
                && b5.len() == 5 && b6.len() == 5 && b7.len() == 5,
            rows_view(b0@) == digit_glyph(
                hours as int / 10,
                cycling_char_spec(hours as int / 10, frame as int),
            ),
            rows_view(b1@) == digit_glyph(
                hours as int % 10,
                cycling_char_spec(hours as int % 10, frame as int),
            ),
            rows_view(b2@) == colon_glyph(),
            rows_view(b3@) == digit_glyph(
                minutes as int / 10,
                cycling_char_spec(minutes as int / 10, frame as int),
            ),
            rows_view(b4@) == digit_glyph(
                minutes as int % 10,
                cycling_char_spec(minutes as int % 10, frame as int),
            ),
            rows_view(b5@) == colon_glyph(),
            rows_view(b6@) == digit_glyph(
                seconds as int / 10,
                cycling_char_spec(seconds as int / 10, frame as int),
            ),
            rows_view(b7@) == digit_glyph(
                seconds as int % 10,
                cycling_char_spec(seconds as int % 10, frame as int),
            ),
            lines_spec == clock_lines_spec(
                hours as int,
                minutes as int,
                seconds as int,
                frame as int,
            ),
            rows_view(clock_lines@) == lines_spec.take(i as int),
        decreases 5 - i,
    {
        let mut line: Vec<char> = Vec::new();
        push_chars(&mut line, &b0[i]);
        push_chars(&mut line, &b1[i]);
        push_chars(&mut line, &b2[i]);
        push_chars(&mut line, &b3[i]);
        push_chars(&mut line, &b4[i]);
        push_chars(&mut line, &b5[i]);
        push_chars(&mut line, &b6[i]);
        push_chars(&mut line, &b7[i]);
        proof {
            assert(line@ =~= clock_row(
                hours as int,
                minutes as int,
                seconds as int,
                frame as int,
                i as int,
            ));
            assert(lines_spec[i as int] == clock_row(
                hours as int,
                minutes as int,
                seconds as int,
                frame as int,
                i as int,
            ));
        }
        let ghost vprev = clock_lines@;
        clock_lines.push(line);
        proof {
            assert(rows_view(vprev).len() == vprev.len());
            assert(vprev.len() == i);
            assert forall|j: int| 0 <= j < i + 1 implies rows_view(clock_lines@)[j]
                == lines_spec.take(i + 1)[j] by {
                if j < i {
                    assert(rows_view(vprev)[j] == lines_spec.take(i as int)[j]);
                    assert(rows_view(vprev)[j] == vprev[j]@);
                    assert(clock_lines@[j] == vprev[j]);
                } else {
                    assert(clock_lines@[j]@ == line@);
                }
            }
            assert(rows_view(clock_lines@) =~~= lines_spec.take(i + 1));
        }
        i = i + 1;
    }
    proof {
        assert(lines_spec.take(5) =~~= lines_spec);
    }
    let centered = centered_exec(&clock_lines, w, hgt);
    let ghost clines = centered_spec(lines_spec, w as int, hgt as int);
    let mut v: Vec<char> = Vec::new();
    if first {
        push_str_chars(&mut v, "\x1B[?25l\x1B[2J\x1B[H");
        proof {
            reveal_strlit("\x1B[?25l\x1B[2J\x1B[H");
            reveal_strlit("\x1B[?25l");
            reveal_strlit("\x1B[2J\x1B[H");
            assert(v@ =~= cursor_hide_seq() + clear_seq());
        }
    }
    push_str_chars(&mut v, "\x1B[2J\x1B[H");
    let ghost header = v@;
    proof {
        assert(header =~= (if first {
            cursor_hide_seq() + clear_seq()
        } else {
            Seq::<char>::empty()
        }) + clear_seq());
    }
    let mut k: usize = 0;
    while k < centered.len()
        invariant
            k <= centered.len(),
            rows_view(centered@) == clines,
            header == (if first {
                cursor_hide_seq() + clear_seq()
            } else {
                Seq::<char>::empty()
            }) + clear_seq(),
            v@ == header + clock_body(clines, k as int),
        decreases centered.len() - k,
    {
        push_str_chars(&mut v, "\x1B[38;5;255m");
        push_chars(&mut v, &centered[k]);
        push_str_chars(&mut v, "\x1B[0m");
        v.push('\n');
        proof {
            assert(clines[k as int] == centered@[k as int]@);
            assert(clock_body(clines, k + 1) == clock_body(clines, k as int)
                + clock_line_colored(clines[k as int]));
            assert(v@ =~= header + clock_body(clines, k + 1));
        }
        k = k + 1;
    }
    proof {
        assert(clines.len() == centered.len());
        assert(v@ =~= clock_frame_seq(
            hours as int,
            minutes as int,
            seconds as int,
            frame as int,
            w as int,
            hgt as int,
            first,
        ));
    }
    v
}

} // verus!
