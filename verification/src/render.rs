//! The renderer: a pure function from grid state to its textual
//! representation, one glyph per cell, one line per row.

use vstd::prelude::*;
use crate::grid::{Cell, GridView};

verus! {

/// The glyph a single cell renders to: a fixed symbol for `Dead`, a
/// distinct fixed symbol for `Alive`.
pub open spec fn glyph(c: Cell) -> char {
    match c {
        Cell::Dead => '\u{25fb}',
        Cell::Alive => '\u{25fc}',
    }
}

/// The characters of row `r`: `width` glyphs followed by one line
/// terminator.
pub open spec fn spec_row(cells: Seq<Cell>, width: int, r: int) -> Seq<char> {
    Seq::new(width as nat, |c: int| glyph(cells[r * width + c])).push('\n')
}

/// The first `upto` rows of the rendering, concatenated in order.
pub open spec fn spec_render_rows(cells: Seq<Cell>, width: int, upto: int) -> Seq<char>
    decreases upto,
{
    if upto <= 0 {
        Seq::empty()
    } else {
        spec_render_rows(cells, width, upto - 1) + spec_row(cells, width, upto - 1)
    }
}

/// The full rendering of a grid state. It reads the dimensions and the
/// cell buffer alone: the advisory container id plays no part.
pub open spec fn spec_render(g: GridView) -> Seq<char> {
    spec_render_rows(g.cells, g.width as int, g.height as int)
}

/// How many line terminators a character sequence holds.
pub open spec fn count_newlines(s: Seq<char>) -> int
    decreases s.len(),
{
    if s.len() == 0 {
        0
    } else {
        count_newlines(s.drop_last()) + if s.last() == '\n' {
            1int
        } else {
            0int
        }
    }
}

/// The two glyphs are fixed and distinct: one symbol for every dead
/// cell, another for every alive cell.
pub proof fn lemma_glyph_mapping()
    ensures
        glyph(Cell::Dead) == '\u{25fb}',
        glyph(Cell::Alive) == '\u{25fc}',
        glyph(Cell::Dead) != glyph(Cell::Alive),
{
}

/// The rendering is a function of the dimensions and the cell buffer
/// alone: two grid states that agree on those render identically,
/// whatever their advisory container ids.
pub proof fn lemma_render_deterministic(g1: GridView, g2: GridView)
    requires
        g1.width == g2.width,
        g1.height == g2.height,
        g1.cells == g2.cells,
    ensures
        spec_render(g1) == spec_render(g2),
{
}

/// The first `upto` rows render to exactly `upto * (width + 1)`
/// characters.
pub proof fn lemma_render_rows_len(cells: Seq<Cell>, width: int, upto: int)
    requires
        0 <= width,
        0 <= upto,
    ensures
        spec_render_rows(cells, width, upto).len() == upto * (width + 1),
    decreases upto,
{
    if upto > 0 {
        lemma_render_rows_len(cells, width, upto - 1);
        assert(spec_row(cells, width, upto - 1).len() == width + 1);
        assert(spec_render_rows(cells, width, upto).len() == (upto - 1) * (width + 1) + (width
            + 1));
        assert((upto - 1) * (width + 1) + (width + 1) == upto * (width + 1)) by (nonlinear_arith);
    } else {
        assert(upto * (width + 1) == 0) by (nonlinear_arith)
            requires
                upto == 0,
        ;
    }
}

/// Inside the first `upto` rows, the character at offset `k` of row `r`
/// is character `k` of that row's own rendering.
pub proof fn lemma_render_rows_index(cells: Seq<Cell>, width: int, upto: int, r: int, k: int)
    requires
        0 <= width,
        0 <= r < upto,
        0 <= k <= width,
    ensures
        spec_render_rows(cells, width, upto)[r * (width + 1) + k] == spec_row(cells, width, r)[k],
    decreases upto,
{
    lemma_render_rows_len(cells, width, upto - 1);
    if r == upto - 1 {
        assert(r * (width + 1) + k - (upto - 1) * (width + 1) == k) by (nonlinear_arith)
            requires
                r == upto - 1,
        ;
    } else {
        lemma_render_rows_index(cells, width, upto - 1, r, k);
        assert(r * (width + 1) + k < (upto - 1) * (width + 1)) by (nonlinear_arith)
            requires
                0 <= width,
                0 <= r < upto - 1,
                0 <= k <= width,
        ;
    }
}

/// Row partition of the rendering: it is `height * (width + 1)`
/// characters long; within each of the `height` rows, the first `width`
/// characters are the glyphs of that row's cells in order, and the one
/// character after them is the line terminator.
pub proof fn lemma_render_partition(g: GridView, r: int, c: int)
    requires
        g.cells.len() == (g.width as int) * (g.height as int),
        0 <= r < g.height as int,
        0 <= c < g.width as int,
    ensures
        spec_render(g).len() == (g.height as int) * (g.width as int + 1),
        spec_render(g)[r * (g.width as int + 1) + c] == glyph(g.cells[r * (g.width as int) + c]),
        spec_render(g)[r * (g.width as int + 1) + g.width as int] == '\n',
{
    let w = g.width as int;
    let h = g.height as int;
    lemma_render_rows_len(g.cells, w, h);
    lemma_render_rows_index(g.cells, w, h, r, c);
    lemma_render_rows_index(g.cells, w, h, r, w);
}

/// Concatenation adds newline counts.
pub proof fn lemma_count_newlines_concat(a: Seq<char>, b: Seq<char>)
    ensures
        count_newlines(a + b) == count_newlines(a) + count_newlines(b),
    decreases b.len(),
{
    if b.len() == 0 {
        assert(a + b =~= a);
    } else {
        lemma_count_newlines_concat(a, b.drop_last());
        assert((a + b).drop_last() =~= a + b.drop_last());
        assert((a + b).last() == b.last());
    }
}

/// A sequence with no line terminator in it counts zero.
pub proof fn lemma_count_newlines_none(s: Seq<char>)
    requires
        forall|i: int| 0 <= i < s.len() ==> s[i] != '\n',
    ensures
        count_newlines(s) == 0,
    decreases s.len(),
{
    if s.len() > 0 {
        lemma_count_newlines_none(s.drop_last());
    }
}

/// One rendered row holds exactly one line terminator.
pub proof fn lemma_count_newlines_row(cells: Seq<Cell>, width: int, r: int)
    requires
        0 <= width,
    ensures
        count_newlines(spec_row(cells, width, r)) == 1,
{
    let glyphs = Seq::new(width as nat, |c: int| glyph(cells[r * width + c]));
    lemma_count_newlines_none(glyphs);
    assert(spec_row(cells, width, r).drop_last() =~= glyphs);
}

/// Line terminator count of the rendering: exactly one per row, so
/// `height` in all.
pub proof fn lemma_render_newline_count(g: GridView)
    ensures
        count_newlines(spec_render(g)) == g.height as int,
{
    lemma_count_newlines_rows(g.cells, g.width as int, g.height as int);
}

/// Helper for [`lemma_render_newline_count`]: the first `upto` rows
/// hold `upto` line terminators.
pub proof fn lemma_count_newlines_rows(cells: Seq<Cell>, width: int, upto: int)
    requires
        0 <= width,
        0 <= upto,
    ensures
        count_newlines(spec_render_rows(cells, width, upto)) == upto,
    decreases upto,
{
    if upto > 0 {
        lemma_count_newlines_rows(cells, width, upto - 1);
        lemma_count_newlines_concat(
            spec_render_rows(cells, width, upto - 1),
            spec_row(cells, width, upto - 1),
        );
        lemma_count_newlines_row(cells, width, upto - 1);
    }
}

} // verus!
