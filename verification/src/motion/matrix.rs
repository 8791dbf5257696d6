//! Cascading-rain animation: per-column drops fall through a character
//! grid, redrawn cell by cell with a bright head, a fading green tail, and
//! occasional background flicker.

use vstd::prelude::*;
use rand::Rng;
use crate::motion::Motion;
use crate::term::MAX_DIM;
use crate::term::clear_seq;
use crate::term::cursor_hide_seq;
use crate::term::fg256_seq;
use crate::term::normalize_dims;
use crate::term::push_fg256;
use crate::term::push_repeat;
use crate::term::push_str_chars;
use crate::term::query_term_dimensions;
use crate::term::render_restore;
use crate::term::reset_seq;
use crate::term::term_emit;
use crate::term::term_flush;

verus! {

// ---------------------------------------------------------------------------
// Trusted boundary: randomness.
// ---------------------------------------------------------------------------

/// Relies on `rand::Rng::random_range` over `0..n`: a value sampled from
/// that range, hence below `n`.  The range must not be empty, or the call
/// panics.
#[verifier::external_body]
pub(crate) fn random_below(n: usize) -> (r: usize)
    requires
        n > 0,
    ensures
        r < n,
{
    rand::rng().random_range(0..n)
}

/// Relies on `rand::Rng::random_ratio`: a coin flip that is true with
/// probability `num/den`.  Which side comes up is random, so nothing is
/// promised of the answer; `num <= den` and `den > 0` are required, or the
/// call panics.
#[verifier::external_body]
pub(crate) fn random_chance(num: u32, den: u32) -> (r: bool)
    requires
        0 < den,
        num <= den,
{
    rand::rng().random_ratio(num, den)
}

// ---------------------------------------------------------------------------
// The drop and cell state machines.
// ---------------------------------------------------------------------------

/// The fixed symbol alphabet drops are drawn from.
pub open spec fn symbols_seq() -> Seq<char> {
    "0123456789ABCDEFGHIJKLMNOPQRSTUVWXYZabcdefghijklmnopqrstuvwxyzGUINETIK!@#$%^&*()-_=+[]{}|\\:;\"'<>,.?/~`"@
}

/// A freshly reset drop sits strictly above the screen (row 0 at the top),
/// no further up than one screen height; on a zero-height screen it rests
/// at 0.
pub open spec fn drop_reset_ok(v: int, rows: int) -> bool {
    (rows > 0 && -rows < v <= 0) || (rows == 0 && v == 0)
}

/// How one drop may advance in a tick: it either falls one row (only
/// possible while within `rows + 10` of the top), or is reset above the
/// screen.
pub open spec fn drop_advanced(prev: int, next: int, rows: int) -> bool {
    (prev <= rows + 10 && next == prev + 1) || drop_reset_ok(next, rows)
}

/// The drop positions as mathematical integers.
pub open spec fn drops_int(drops: Seq<i64>) -> Seq<int> {
    drops.map_values(|d: i64| d as int)
}

/// The cell at `row` is the head of a drop at (floored) position `drop`.
pub open spec fn is_head(row: int, drop: int) -> bool {
    row == drop
}

/// The cell at `row` is in the eight-row tail above the drop head.
pub open spec fn is_tail(row: int, drop: int) -> bool {
    row < drop && drop < row + 8
}

/// How one grid cell may be refreshed in a tick, given its column's drop:
/// the head is always redrawn with a fresh symbol, tail cells keep their
/// symbol or flicker to a fresh one, and background cells are blank or an
/// occasional stray symbol.
pub open spec fn cell_refreshed(prev: char, next: char, row: int, drop: int) -> bool {
    if is_head(row, drop) {
        symbols_seq().contains(next)
    } else if is_tail(row, drop) {
        next == prev || symbols_seq().contains(next)
    } else {
        next == ' ' || symbols_seq().contains(next)
    }
}

/// The drop a column starts the tick from: its old drop where the column
/// already existed, else just above row 0.
pub open spec fn prev_drop(prev: MatrixState, i: int) -> int {
    if i < prev.columns {
        prev.drops[i]
    } else {
        -1
    }
}

/// In the step from `prev` to `next`, column `i`'s drop advanced as the
/// drop state machine allows.
pub open spec fn drop_tick_ok(prev: MatrixState, next: MatrixState, i: int) -> bool {
    drop_advanced(prev_drop(prev, i), next.drops[i], next.rows)
}

/// The symbol a cell starts the tick from, on the grid resized to `cols`
/// columns: its old symbol where the flat grid position persists, else
/// blank.
pub open spec fn prev_cell(prev_grid: Seq<char>, cols: int, rr: int, cc: int) -> char {
    if rr * cols + cc < prev_grid.len() {
        prev_grid[rr * cols + cc]
    } else {
        ' '
    }
}

/// In the step from `prev` to `next`, the cell at `(rr, cc)` was refreshed
/// as the cell state machine allows.
pub open spec fn cell_tick_ok(prev: MatrixState, next: MatrixState, rr: int, cc: int) -> bool {
    cell_refreshed(
        prev_cell(prev.grid, next.columns, rr, cc),
        next.grid[rr * next.columns + cc],
        rr,
        next.drops[cc],
    )
}

/// Green shade for a tail cell at `dist` rows above the head: a linear fade
/// from 27 down to 23 over the eight tail rows (the 256-color cube's green
/// ramp sits at 22..=29).
pub open spec fn green_intensity(dist: int) -> u8 {
    (22 + (63 - 7 * dist) / 10) as u8
}

// ---------------------------------------------------------------------------
// Exact frame text.
// ---------------------------------------------------------------------------

/// The colored text of one cell: a foreground escape chosen by the cell's
/// zone, then its symbol.
pub open spec fn matrix_cell_seq(ch: char, row: int, drop: int) -> Seq<char> {
    if is_head(row, drop) {
        "\x1B[38;5;15m"@ + seq![ch]
    } else if is_tail(row, drop) {
        fg256_seq(green_intensity(drop - row)) + seq![ch]
    } else {
        "\x1B[38;5;22m"@ + seq![ch]
    }
}

/// The first `n` cells of row `row`, concatenated.
pub open spec fn matrix_cells_upto(
    grid: Seq<char>,
    drops: Seq<int>,
    cols: int,
    row: int,
    n: int,
) -> Seq<char>
    decreases n,
{
    if n <= 0 {
        Seq::<char>::empty()
    } else {
        matrix_cells_upto(grid, drops, cols, row, n - 1)
            + matrix_cell_seq(grid[row * cols + (n - 1)], row, drops[n - 1])
    }
}

/// The first `n` rows of the grid, each ended by a newline.
pub open spec fn matrix_rows_upto(grid: Seq<char>, drops: Seq<int>, cols: int, n: int) -> Seq<char>
    decreases n,
{
    if n <= 0 {
        Seq::<char>::empty()
    } else {
        matrix_rows_upto(grid, drops, cols, n - 1)
            + matrix_cells_upto(grid, drops, cols, n - 1, cols) + seq!['\n']
    }
}

/// The whole rain frame: one-time cursor hide, a full-screen clear, every
/// cell with its zone color, and a final color reset.
pub open spec fn matrix_frame_seq(
    grid: Seq<char>,
    drops: Seq<int>,
    rows: int,
    cols: int,
    first: bool,
) -> Seq<char> {
    (if first {
        cursor_hide_seq() + clear_seq()
    } else {
        Seq::<char>::empty()
    }) + clear_seq() + matrix_rows_upto(grid, drops, cols, rows) + reset_seq()
}

// ---------------------------------------------------------------------------
// Verified helpers.
// ---------------------------------------------------------------------------

/// Builds the symbol alphabet.
fn make_symbols() -> (v: Vec<char>)
    ensures
        v@ == symbols_seq(),
        v.len() > 0,
{
    let mut v: Vec<char> = Vec::new();
    push_str_chars(
        &mut v,
        "0123456789ABCDEFGHIJKLMNOPQRSTUVWXYZabcdefghijklmnopqrstuvwxyzGUINETIK!@#$%^&*()-_=+[]{}|\\:;\"'<>,.?/~`",
    );
    proof {
        reveal_strlit(
            "0123456789ABCDEFGHIJKLMNOPQRSTUVWXYZabcdefghijklmnopqrstuvwxyzGUINETIK!@#$%^&*()-_=+[]{}|\\:;\"'<>,.?/~`",
        );
        assert(v@ =~= symbols_seq());
    }
    v
}

/// A fresh random symbol from the alphabet.
fn random_symbol(symbols: &Vec<char>) -> (c: char)
    requires
        symbols.len() > 0,
        symbols@ == symbols_seq(),
    ensures
        symbols_seq().contains(c),
{
    let i = random_below(symbols.len());
    let c = symbols[i];
    proof {
        assert(symbols@[i as int] == c);
    }
    c
}

/// Resizes the per-column drop array to `cols` columns, keeping the drops
/// of columns that persist and starting new columns just above the screen.
pub fn resized_drops(drops: &Vec<i64>, cols: usize) -> (out: Vec<i64>)
    ensures
        out.len() == cols,
        forall|i: int| 0 <= i < cols && i < drops.len() ==> out@[i] == drops@[i],
        forall|i: int| drops.len() <= i < cols ==> out@[i] == -1i64,
{
    let mut out: Vec<i64> = Vec::new();
    let mut i: usize = 0;
    while i < cols
        invariant
            i <= cols,
            out.len() == i,
            forall|j: int| 0 <= j < i && j < drops.len() ==> out@[j] == drops@[j],
            forall|j: int| drops.len() <= j < i ==> out@[j] == -1i64,
        decreases cols - i,
    {
        if i < drops.len() {
            let v = drops[i];
            out.push(v);
        } else {
            out.push(-1i64);
        }
        i = i + 1;
    }
    out
}

/// Resizes the flat character grid to `n` cells, keeping the prefix that
/// persists and blanking new cells.
pub fn resized_grid(grid: &Vec<char>, n: usize) -> (out: Vec<char>)
    ensures
        out.len() == n,
        forall|i: int| 0 <= i < n && i < grid.len() ==> out@[i] == grid@[i],
        forall|i: int| grid.len() <= i < n ==> out@[i] == ' ',
{
    let mut out: Vec<char> = Vec::new();
    let mut i: usize = 0;
    while i < n
        invariant
            i <= n,
            out.len() == i,
            forall|j: int| 0 <= j < i && j < grid.len() ==> out@[j] == grid@[j],
            forall|j: int| grid.len() <= j < i ==> out@[j] == ' ',
        decreases n - i,
    {
        if i < grid.len() {
            let v = grid[i];
            out.push(v);
        } else {
            out.push(' ');
        }
        i = i + 1;
    }
    out
}

/// Advances every drop one tick: each either falls one row, or — with a
/// small probability, or once it has fallen more than `rows + 10` rows — is
/// reset to a random position above the screen.
pub fn advance_drops(drops: &Vec<i64>, rows: usize) -> (out: Vec<i64>)
    requires
        rows <= MAX_DIM,
    ensures
        out.len() == drops.len(),
        forall|i: int| 0 <= i < drops.len()
            ==> #[trigger] drop_advanced(drops@[i] as int, out@[i] as int, rows as int),
        forall|i: int| 0 <= i < drops.len() && drops@[i] > rows + 10
            ==> drop_reset_ok(out@[i] as int, rows as int),
{
    let mut out: Vec<i64> = Vec::new();
    let mut i: usize = 0;
    while i < drops.len()
        invariant
            i <= drops.len(),
            out.len() == i,
            rows <= MAX_DIM,
            forall|j: int| 0 <= j < i
                ==> #[trigger] drop_advanced(drops@[j] as int, out@[j] as int, rows as int),
            forall|j: int| 0 <= j < i && drops@[j] > rows + 10
                ==> drop_reset_ok(out@[j] as int, rows as int),
        decreases drops.len() - i,
    {
        let v = drops[i];
        if v > rows as i64 + 10 || random_chance(25, 1000) {
            let reset: i64 = if rows > 0 {
                -(random_below(rows) as i64)
            } else {
                0
            };
            out.push(reset);
        } else {
            out.push(v + 1);
        }
        i = i + 1;
    }
    out
}

/// Whether the already-refreshed cell `(rr, cc)` satisfies the cell state
/// machine with respect to the previous grid and the current drops.
pub open spec fn cell_ok(
    prev: Seq<char>,
    next: Seq<char>,
    drops: Seq<int>,
    cols: int,
    rr: int,
    cc: int,
) -> bool {
    cell_refreshed(prev[rr * cols + cc], next[rr * cols + cc], rr, drops[cc])
}

proof fn lemma_grid_index(r: int, c: int, rows: int, cols: int)
    requires
        0 <= r < rows,
        0 <= c < cols,
    ensures
        0 <= r * cols + c < rows * cols,
        r * cols + c < (r + 1) * cols,
{
    assert(0 <= r * cols + c < rows * cols && r * cols + c < (r + 1) * cols)
        by (nonlinear_arith)
        requires
            0 <= r < rows,
            0 <= c < cols,
    ;
}

/// Refreshes every cell of the grid for one tick, as `cell_refreshed`
/// allows: drop heads always get a fresh symbol, tails flicker, the
/// background stays mostly blank.
pub fn refresh_grid(grid: &Vec<char>, drops: &Vec<i64>, rows: usize, cols: usize, symbols: &Vec<char>) -> (out: Vec<char>)
    requires
        grid.len() == rows * cols,
        drops.len() == cols,
        rows <= MAX_DIM,
        cols <= MAX_DIM,
        symbols.len() > 0,
        symbols@ == symbols_seq(),
    ensures
        out.len() == rows * cols,
        forall|rr: int, cc: int| 0 <= rr < rows && 0 <= cc < cols
            ==> #[trigger] cell_ok(grid@, out@, drops_int(drops@), cols as int, rr, cc),
{
    let ghost gdrops = drops_int(drops@);
    let mut out: Vec<char> = Vec::new();
    let mut r: usize = 0;
    while r < rows
        invariant
            r <= rows,
            out.len() == r * cols,
            grid.len() == rows * cols,
            drops.len() == cols,
            rows <= MAX_DIM,
            cols <= MAX_DIM,
            symbols.len() > 0,
            symbols@ == symbols_seq(),
            gdrops == drops_int(drops@),
            forall|rr: int, cc: int| 0 <= rr < r && 0 <= cc < cols
                ==> #[trigger] cell_ok(grid@, out@, gdrops, cols as int, rr, cc),
        decreases rows - r,
    {
        let mut c: usize = 0;
        proof {
            assert(r * cols + cols == (r + 1) * cols) by (nonlinear_arith);
            assert((r + 1) * cols <= rows * cols) by (nonlinear_arith)
                requires r < rows && cols >= 0;
        }
        while c < cols
            invariant
                r < rows,
                c <= cols,
                out.len() == r * cols + c,
                grid.len() == rows * cols,
                drops.len() == cols,
                rows <= MAX_DIM,
                cols <= MAX_DIM,
                symbols.len() > 0,
                symbols@ == symbols_seq(),
                gdrops == drops_int(drops@),
                r * cols + cols == (r + 1) * cols,
                (r + 1) * cols <= rows * cols,
                forall|rr: int, cc: int| 0 <= rr < r && 0 <= cc < cols
                    ==> #[trigger] cell_ok(grid@, out@, gdrops, cols as int, rr, cc),
                forall|cc: int| 0 <= cc < c
                    ==> #[trigger] cell_ok(grid@, out@, gdrops, cols as int, r as int, cc),
            decreases cols - c,
        {
            proof {
                lemma_grid_index(r as int, c as int, rows as int, cols as int);
            }
            let idx = r * cols + c;
            let prev = grid[idx];
            let dp = drops[c];
            let row_i = r as i64;
            let next: char = if row_i == dp {
                random_symbol(symbols)
            } else if row_i < dp && dp < row_i + 8 {
                if random_chance(100, 1000) {
                    random_symbol(symbols)
                } else {
                    prev
                }
            } else {
                if random_chance(50, 1000) {
                    random_symbol(symbols)
                } else {
                    ' '
                }
            };
            let ghost out_prev = out@;
            out.push(next);
            proof {
                assert(gdrops[c as int] == dp as int);
                assert(out@[r * cols + c] == next);
                assert(cell_ok(grid@, out@, gdrops, cols as int, r as int, c as int));
                assert forall|rr: int, cc: int| 0 <= rr < r && 0 <= cc < cols
                    implies #[trigger] cell_ok(grid@, out@, gdrops, cols as int, rr, cc) by {
                    lemma_grid_index(rr, cc, r as int, cols as int);
                    assert(rr * cols + cc < r * cols);
                    assert(cell_ok(grid@, out_prev, gdrops, cols as int, rr, cc));
                    assert(out@[rr * cols + cc] == out_prev[rr * cols + cc]);
                }
                assert forall|cc: int| 0 <= cc < c + 1
                    implies #[trigger] cell_ok(grid@, out@, gdrops, cols as int, r as int, cc) by {
                    if cc < c {
                        assert(cell_ok(grid@, out_prev, gdrops, cols as int, r as int, cc));
                        assert(r * cols + cc < r * cols + c);
                        assert(out@[r * cols + cc] == out_prev[r * cols + cc]);
                    }
                }
            }
            c = c + 1;
        }
        r = r + 1;
    }
    proof {
        assert(out.len() == rows * cols);
    }
    out
}

/// Builds the colored text of one whole rain frame.
pub fn render_matrix_frame(grid: &Vec<char>, drops: &Vec<i64>, rows: usize, cols: usize, first: bool) -> (v: Vec<char>)
    requires
        grid.len() == rows * cols,
        drops.len() == cols,
        rows <= MAX_DIM,
        cols <= MAX_DIM,
    ensures
        v@ == matrix_frame_seq(
            grid@,
            drops_int(drops@),
            rows as int,
            cols as int,
            first,
        ),
{
    let ghost gdrops = drops_int(drops@);
    let mut v: Vec<char> = Vec::new();
    if first {
        push_str_chars(&mut v, "\x1B[?25l\x1B[2J\x1B[H");
        proof {
            reveal_strlit("\x1B[?25l\x1B[2J\x1B[H");
            reveal_strlit("\x1B[?25l");
            reveal_strlit("\x1B[2J\x1B[H");
            assert(v@ =~= cursor_hide_seq() + clear_seq());
        }
    }
    push_str_chars(&mut v, "\x1B[2J\x1B[H");
    let ghost header = v@;
    proof {
        assert(header =~= (if first { cursor_hide_seq() + clear_seq() } else { Seq::<char>::empty() }) + clear_seq());
    }
    let mut r: usize = 0;
    while r < rows
        invariant
            r <= rows,
            grid.len() == rows * cols,
            drops.len() == cols,
            rows <= MAX_DIM,
            cols <= MAX_DIM,
            gdrops == drops_int(drops@),
            v@ == header + matrix_rows_upto(grid@, gdrops, cols as int, r as int),
        decreases rows - r,
    {
        proof {
            assert((r + 1) * cols <= rows * cols) by (nonlinear_arith)
                requires r < rows && cols >= 0;
        }
        let mut c: usize = 0;
        while c < cols
            invariant
                r < rows,
                c <= cols,
                grid.len() == rows * cols,
                drops.len() == cols,
                rows <= MAX_DIM,
                cols <= MAX_DIM,
                gdrops == drops_int(drops@),
                (r + 1) * cols <= rows * cols,
                v@ == header + matrix_rows_upto(grid@, gdrops, cols as int, r as int)
                    + matrix_cells_upto(grid@, gdrops, cols as int, r as int, c as int),
            decreases cols - c,
        {
            proof {
                lemma_grid_index(r as int, c as int, rows as int, cols as int);
            }
            let idx = r * cols + c;
            let ch = grid[idx];
            let dp = drops[c];
            let row_i = r as i64;
            proof {
                assert(gdrops[c as int] == dp as int);
            }
            if row_i == dp {
                push_str_chars(&mut v, "\x1B[38;5;15m");
            } else if row_i < dp && dp < row_i + 8 {
                let dist = dp - row_i;
                let g: i64 = 22 + (63 - 7 * dist) / 10;
                push_fg256(&mut v, g as u8);
                proof {
                    assert(g as u8 == green_intensity(dp - r as int));
                }
            } else {
                push_str_chars(&mut v, "\x1B[38;5;22m");
            }
            v.push(ch);
            proof {
                assert(matrix_cells_upto(grid@, gdrops, cols as int, r as int, c + 1)
                    == matrix_cells_upto(grid@, gdrops, cols as int, r as int, c as int)
                        + matrix_cell_seq(grid@[r as int * cols as int + c as int], r as int, gdrops[c as int]));
                assert(v@ =~= header + matrix_rows_upto(grid@, gdrops, cols as int, r as int)
                    + matrix_cells_upto(grid@, gdrops, cols as int, r as int, c + 1));
            }
            c = c + 1;
        }
        v.push('\n');
        proof {
            assert(matrix_rows_upto(grid@, gdrops, cols as int, r + 1)
                == matrix_rows_upto(grid@, gdrops, cols as int, r as int)
                    + matrix_cells_upto(grid@, gdrops, cols as int, r as int, cols as int) + seq!['\n']);
            assert(v@ =~= header + matrix_rows_upto(grid@, gdrops, cols as int, r + 1));
        }
        r = r + 1;
    }
    push_str_chars(&mut v, "\x1B[0m");
    proof {
        assert(v@ =~= matrix_frame_seq(grid@, gdrops, rows as int, cols as int, first));
    }
    v
}

// ---------------------------------------------------------------------------
// The animation itself.
// ---------------------------------------------------------------------------

/// Specification-level state of the rain animation.
pub struct MatrixState {
    pub columns: int,
    pub rows: int,
    pub drops: Seq<int>,
    pub grid: Seq<char>,
    pub first: bool,
    pub frames: int,
}

/// The cascading-rain animation.
pub struct MatrixMotion {
    columns: usize,
    rows: usize,
    drops: Vec<i64>,
    chars: Vec<char>,
    terminal_width: usize,
    terminal_height: usize,
    first_update: bool,
    frame_count: u32,
    symbols: Vec<char>,
}

impl View for MatrixMotion {
    type V = MatrixState;

    closed spec fn view(&self) -> MatrixState {
        MatrixState {
            columns: self.columns as int,
            rows: self.rows as int,
            drops: drops_int(self.drops@),
            grid: self.chars@,
            first: self.first_update,
            frames: self.frame_count as int,
        }
    }
}

impl MatrixMotion {
    #[verifier::type_invariant]
    spec fn wf(self) -> bool {
        &&& self.columns == self.terminal_width
        &&& self.rows == self.terminal_height
        &&& self.terminal_width <= MAX_DIM
        &&& self.terminal_height <= MAX_DIM
        &&& self.drops.len() == self.columns
        &&& self.chars.len() == self.rows * self.columns
        &&& self.symbols@ == symbols_seq()
        &&& self.symbols.len() > 0
    }

    /// Creates the animation against the currently reported terminal size
    /// (with a fallback when there is none), every drop starting above the
    /// screen and the grid blank.
    pub fn new() -> (m: Self)
        ensures
            m@.drops.len() == m@.columns,
            m@.grid.len() == m@.rows * m@.columns,
            0 <= m@.columns <= MAX_DIM,
            0 <= m@.rows <= MAX_DIM,
            forall|i: int| 0 <= i < m@.drops.len() ==> #[trigger] drop_reset_ok(
                m@.drops[i],
                m@.rows,
            ),
            forall|i: int| 0 <= i < m@.grid.len() ==> m@.grid[i] == ' ',
            m@.first,
            m@.frames == 0,
    {
        let d = normalize_dims(query_term_dimensions(), 2, (78, 20));
        let symbols = make_symbols();
        let mut drops: Vec<i64> = Vec::new();
        let mut i: usize = 0;
        while i < d.width
            invariant
                i <= d.width,
                drops.len() == i,
                d.wf(),
                forall|j: int| 0 <= j < i ==> #[trigger] drop_reset_ok(
                    drops@[j] as int,
                    d.height as int,
                ),
            decreases d.width - i,
        {
            let v: i64 = if d.height > 0 {
                -(random_below(d.height) as i64)
            } else {
                0
            };
            drops.push(v);
            i = i + 1;
        }
        proof {
            assert(d.height * d.width <= MAX_DIM * MAX_DIM && d.width * d.height == d.height
                * d.width) by (nonlinear_arith)
                requires
                    d.width <= MAX_DIM,
                    d.height <= MAX_DIM,
            ;
        }
        let grid_size = d.width * d.height;
        let mut chars: Vec<char> = Vec::new();
        push_repeat(&mut chars, ' ', grid_size);
        MatrixMotion {
            columns: d.width,
            rows: d.height,
            drops,
            chars,
            terminal_width: d.width,
            terminal_height: d.height,
            first_update: true,
            frame_count: 0,
            symbols,
        }
    }
}

impl Motion for MatrixMotion {
    /// Re-queries the terminal size, resizes the drop array and grid to it
    /// (keeping what persists), advances every drop, refreshes every cell,
    /// and renders the full frame.
    fn update(&mut self)
        ensures
            final(self)@.drops.len() == final(self)@.columns,
            final(self)@.grid.len() == final(self)@.rows * final(self)@.columns,
            0 <= final(self)@.columns <= MAX_DIM,
            0 <= final(self)@.rows <= MAX_DIM,
            // Every surviving column's drop advances from its old value;
            // columns beyond the old width start from just above row 0.
            forall|i: int| 0 <= i < final(self)@.columns
                ==> #[trigger] drop_tick_ok(old(self)@, final(self)@, i),
            // Every cell is refreshed as the cell state machine allows,
            // relative to the resized previous grid.
            forall|rr: int, cc: int| 0 <= rr < final(self)@.rows && 0 <= cc < final(self)@.columns
                ==> #[trigger] cell_tick_ok(old(self)@, final(self)@, rr, cc),
            !final(self)@.first,
            final(self)@.frames == (old(self)@.frames + 1) % 0x1_0000_0000,
    {
        proof {
            use_type_invariant(&*self);
        }
        let d = normalize_dims(query_term_dimensions(), 2, (78, 20));
        let cols = d.width;
        let rows = d.height;
        proof {
            assert(rows * cols <= MAX_DIM * MAX_DIM) by (nonlinear_arith)
                requires
                    rows <= MAX_DIM,
                    cols <= MAX_DIM,
            ;
        }
        let drops0 = resized_drops(&self.drops, cols);
        let grid0 = resized_grid(&self.chars, rows * cols);
        let drops1 = advance_drops(&drops0, rows);
        let grid1 = refresh_grid(&grid0, &drops1, rows, cols, &self.symbols);
        let frame = render_matrix_frame(&grid1, &drops1, rows, cols, self.first_update);
        let next_count = self.frame_count.wrapping_add(1);
        let symbols = make_symbols();
        let ghost old_view = old(self)@;
        *self = MatrixMotion {
            columns: cols,
            rows,
            drops: drops1,
            chars: grid1,
            terminal_width: cols,
            terminal_height: rows,
            first_update: false,
            frame_count: next_count,
            symbols,
        };
        proof {
            assert forall|i: int| 0 <= i < self@.columns
                implies #[trigger] drop_tick_ok(old_view, self@, i) by {
                assert(drops0@[i] == if i < old_view.columns { old_view.drops[i] as i64 } else { -1i64 });
                assert(drop_advanced(drops0@[i] as int, drops1@[i] as int, rows as int));
            }
            assert forall|rr: int, cc: int|
                0 <= rr < self@.rows && 0 <= cc < self@.columns
                implies #[trigger] cell_tick_ok(old_view, self@, rr, cc) by {
                lemma_grid_index(rr, cc, rows as int, cols as int);
                assert(cell_ok(grid0@, grid1@, drops_int(drops1@), cols as int, rr, cc));
                assert(grid0@[rr * self@.columns + cc] == prev_cell(old_view.grid, self@.columns, rr, cc));
            }
        }
        term_emit(&frame);
        term_flush();
    }

    /// Shows the cursor and resets colors once the animation stops.
    fn finish(&mut self)
        ensures
            final(self)@ == old(self)@,
    {
        proof {
            use_type_invariant(&*self);
        }
        let v = render_restore();
        term_emit(&v);
        term_flush();
    }
}

} // verus!
