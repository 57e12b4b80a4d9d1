//! The renderer: from a grid of RGB triples to lines of coloured glyphs.

use vstd::prelude::*;
use vstd::string::*;
use crate::ansi::{
    lemma_occurrences_concat, lemma_painted_occurrences, occurrences, paint, paint_on, painted,
    painted_on,
};
use crate::config::RenderMode;
use crate::grid::{GridView, TargetGrid};

verus! {

/// The glyph of full-cell mode: a full block.
pub const FULL_BLOCK: char = '\u{2588}';

/// The glyph of half-block mode: a lower half block.
pub const LOWER_HALF_BLOCK: char = '\u{2584}';

/// The glyph that a render mode draws.
pub open spec fn glyph(mode: RenderMode) -> char {
    match mode {
        RenderMode::FullCell => FULL_BLOCK,
        RenderMode::HalfBlock => LOWER_HALF_BLOCK,
    }
}

/// The number of text lines that a grid renders to: one for each grid row in
/// full-cell mode, one for each complete pair of grid rows in half-block
/// mode.
pub open spec fn line_count(grid: GridView, mode: RenderMode) -> int {
    grid.rows as int / mode.rows_per_line()
}

/// The text of one terminal cell.
///
/// In full-cell mode it is a full block in the colour of the grid cell. In
/// half-block mode it is a lower half block whose foreground is the lower
/// of two grid cells and whose background is the upper one.
pub open spec fn cell_text(grid: GridView, mode: RenderMode, line: int, col: int) -> Seq<char> {
    match mode {
        RenderMode::FullCell => painted(grid.at(line, col), seq![FULL_BLOCK]),
        RenderMode::HalfBlock => painted_on(
            grid.at(2 * line + 1, col),
            grid.at(2 * line, col),
            seq![LOWER_HALF_BLOCK],
        ),
    }
}

/// The first `upto` cells of a line, left to right.
pub open spec fn cells_text(grid: GridView, mode: RenderMode, line: int, upto: int) -> Seq<char>
    decreases upto,
{
    if upto <= 0 {
        Seq::empty()
    } else {
        cells_text(grid, mode, line, upto - 1) + cell_text(grid, mode, line, upto - 1)
    }
}

/// One line of text: a cell for every column, then a newline.
pub open spec fn line_text(grid: GridView, mode: RenderMode, line: int) -> Seq<char> {
    cells_text(grid, mode, line, grid.cols as int) + seq!['\n']
}

/// The first `upto` lines, top to bottom.
pub open spec fn lines_text(grid: GridView, mode: RenderMode, upto: int) -> Seq<char>
    decreases upto,
{
    if upto <= 0 {
        Seq::empty()
    } else {
        lines_text(grid, mode, upto - 1) + line_text(grid, mode, upto - 1)
    }
}

/// The text that a grid renders to.
pub open spec fn rendered(grid: GridView, mode: RenderMode) -> Seq<char> {
    lines_text(grid, mode, line_count(grid, mode))
}

/// Renders a grid as text, line by line, in the given mode.
pub fn render(grid: &TargetGrid, mode: RenderMode) -> (text: String)
    ensures
        text@ == rendered(grid@, mode),
{
    let rows = grid.rows();
    let cols = grid.cols();
    let lines = match mode {
        RenderMode::FullCell => rows,
        RenderMode::HalfBlock => rows / 2,
    };
    let mut text = String::new();
    let mut i: usize = 0;
    while i < lines
        invariant
            i <= lines,
            lines == line_count(grid@, mode),
            rows == grid@.rows,
            cols == grid@.cols,
            text@ == lines_text(grid@, mode, i as int),
        decreases lines - i,
    {
        let ghost before = text@;
        let mut j: usize = 0;
        while j < cols
            invariant
                i < lines,
                j <= cols,
                lines == line_count(grid@, mode),
                rows == grid@.rows,
                cols == grid@.cols,
                text@ == before + cells_text(grid@, mode, i as int, j as int),
            decreases cols - j,
        {
            let ghost so_far = text@;
            let cell = match mode {
                RenderMode::FullCell => {
                    proof {
                        reveal_strlit("\u{2588}");
                        assert("\u{2588}"@ =~= seq![FULL_BLOCK]);
                    }
                    paint(grid.get(i, j), "\u{2588}")
                },
                RenderMode::HalfBlock => {
                    proof {
                        reveal_strlit("\u{2584}");
                        assert("\u{2584}"@ =~= seq![LOWER_HALF_BLOCK]);
                    }
                    let upper = grid.get(2 * i, j);
                    let lower = grid.get(2 * i + 1, j);
                    paint_on(lower, upper, "\u{2584}")
                },
            };
            text.append(cell.as_str());
            j += 1;
            assert(text@ =~= before + cells_text(grid@, mode, i as int, j as int));
        }
        proof {
            reveal_strlit("\n");
            assert("\n"@ =~= seq!['\n']);
        }
        text.append("\n");
        i += 1;
        assert(text@ =~= lines_text(grid@, mode, i as int));
    }
    text
}

/// Renders a grid with half blocks: two grid rows to a line of text, the
/// upper one as background and the lower one as foreground of each glyph.
/// A last grid row without a partner is not drawn.
pub fn color_image_ansi(image: &TargetGrid) -> (text: String)
    ensures
        text@ == rendered(image@, RenderMode::HalfBlock),
{
    render(image, RenderMode::HalfBlock)
}

/// A cell holds exactly one glyph and no newline.
proof fn lemma_cell_shape(grid: GridView, mode: RenderMode, line: int, col: int)
    ensures
        occurrences(cell_text(grid, mode, line, col), glyph(mode)) == 1,
        occurrences(cell_text(grid, mode, line, col), '\n') == 0,
{
    let g = seq![glyph(mode)];
    assert(g.drop_last() =~= Seq::<char>::empty());
    assert(occurrences(g.drop_last(), glyph(mode)) == 0);
    assert(occurrences(g.drop_last(), '\n') == 0);
    assert(occurrences(g, glyph(mode)) == 1);
    assert(occurrences(g, '\n') == 0);
    match mode {
        RenderMode::FullCell => {
            let c = grid.at(line, col);
            lemma_painted_occurrences(c, c, g, glyph(mode));
            lemma_painted_occurrences(c, c, g, '\n');
        },
        RenderMode::HalfBlock => {
            let lower = grid.at(2 * line + 1, col);
            let upper = grid.at(2 * line, col);
            lemma_painted_occurrences(lower, upper, g, glyph(mode));
            lemma_painted_occurrences(lower, upper, g, '\n');
        },
    }
}

/// The first `upto` cells of a line hold `upto` glyphs and no newline.
proof fn lemma_cells_shape(grid: GridView, mode: RenderMode, line: int, upto: int)
    requires
        0 <= upto,
    ensures
        occurrences(cells_text(grid, mode, line, upto), glyph(mode)) == upto,
        occurrences(cells_text(grid, mode, line, upto), '\n') == 0,
    decreases upto,
{
    if upto > 0 {
        lemma_cells_shape(grid, mode, line, upto - 1);
        lemma_cell_shape(grid, mode, line, upto - 1);
        let head = cells_text(grid, mode, line, upto - 1);
        let cell = cell_text(grid, mode, line, upto - 1);
        lemma_occurrences_concat(head, cell, glyph(mode));
        lemma_occurrences_concat(head, cell, '\n');
    }
}

/// Every line of a rendered grid holds one glyph for each column of the
/// grid and ends in its only newline.
pub proof fn lemma_line_shape(grid: GridView, mode: RenderMode, line: int)
    ensures
        occurrences(line_text(grid, mode, line), glyph(mode)) == grid.cols,
        occurrences(line_text(grid, mode, line), '\n') == 1,
        line_text(grid, mode, line).last() == '\n',
{
    let cells = cells_text(grid, mode, line, grid.cols as int);
    let end = seq!['\n'];
    lemma_cells_shape(grid, mode, line, grid.cols as int);
    assert(end.drop_last() =~= Seq::<char>::empty());
    assert(occurrences(end.drop_last(), '\n') == 0);
    assert(occurrences(end.drop_last(), glyph(mode)) == 0);
    assert(occurrences(end, '\n') == 1);
    assert(occurrences(end, glyph(mode)) == 0);
    lemma_occurrences_concat(cells, end, glyph(mode));
    lemma_occurrences_concat(cells, end, '\n');
}

/// The first `upto` lines hold `upto` newlines and `upto` times the grid's
/// width in glyphs.
proof fn lemma_lines_shape(grid: GridView, mode: RenderMode, upto: int)
    requires
        0 <= upto,
    ensures
        occurrences(lines_text(grid, mode, upto), '\n') == upto,
        occurrences(lines_text(grid, mode, upto), glyph(mode)) == upto * grid.cols,
    decreases upto,
{
    if upto > 0 {
        lemma_lines_shape(grid, mode, upto - 1);
        lemma_line_shape(grid, mode, upto - 1);
        let head = lines_text(grid, mode, upto - 1);
        let line = line_text(grid, mode, upto - 1);
        lemma_occurrences_concat(head, line, glyph(mode));
        lemma_occurrences_concat(head, line, '\n');
        assert((upto - 1) * grid.cols + grid.cols == upto * grid.cols) by (nonlinear_arith);
    } else {
        assert(upto * grid.cols == 0) by (nonlinear_arith)
            requires
                upto == 0,
        ;
    }
}

/// A grid of `H` rows and `W` columns renders to `H` lines in full-cell
/// mode and to `H / 2` lines in half-block mode, and every line holds `W`
/// glyphs. With an even `H`, half-block mode draws every grid row.
///
/// The rendered text is its lines one after another; each line ends in a
/// newline and holds no other, so the number of newlines in the text is the
/// number of lines.
pub proof fn lemma_rendered_shape(grid: GridView, mode: RenderMode)
    ensures
        rendered(grid, mode) == lines_text(grid, mode, line_count(grid, mode)),
        mode == RenderMode::FullCell ==> line_count(grid, mode) == grid.rows,
        mode == RenderMode::HalfBlock ==> line_count(grid, mode) == grid.rows / 2,
        mode == RenderMode::HalfBlock && grid.rows % 2 == 0 ==> 2 * line_count(grid, mode)
            == grid.rows,
        occurrences(rendered(grid, mode), '\n') == line_count(grid, mode),
        occurrences(rendered(grid, mode), glyph(mode)) == line_count(grid, mode) * grid.cols,
        forall|line: int|
            0 <= line < line_count(grid, mode) ==> {
                &&& occurrences(#[trigger] line_text(grid, mode, line), glyph(mode)) == grid.cols
                &&& occurrences(line_text(grid, mode, line), '\n') == 1
                &&& line_text(grid, mode, line).last() == '\n'
            },
{
    lemma_lines_shape(grid, mode, line_count(grid, mode));
    assert forall|line: int| 0 <= line < line_count(grid, mode) implies {
        &&& occurrences(#[trigger] line_text(grid, mode, line), glyph(mode)) == grid.cols
        &&& occurrences(line_text(grid, mode, line), '\n') == 1
        &&& line_text(grid, mode, line).last() == '\n'
    } by {
        lemma_line_shape(grid, mode, line);
    }
}

} // verus!
