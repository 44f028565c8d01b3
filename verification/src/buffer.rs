//! The render buffer: a row-major grid of display cells that food and snake
//! glyphs are drawn into, and its serialization to a (possibly boxed) text
//! frame.

use std::collections::VecDeque;
use vstd::prelude::*;

use crate::geometry::{Point, SnakeTexture};

verus! {

/// A row-major sequence of `n` blank cells.
pub open spec fn blank_cells(n: nat) -> Seq<char> {
    Seq::new(n, |i: int| ' ')
}

/// Grid row `r` of a row-major cell sequence `cols` wide.
pub open spec fn row_of(cells: Seq<char>, cols: int, r: int) -> Seq<char> {
    cells.subrange(r * cols, (r + 1) * cols)
}

/// A horizontal border line: a corner, `cols` double-line rules, a corner.
pub open spec fn border_line(cols: int, left: char, right: char) -> Seq<char> {
    seq![left] + Seq::new(cols as nat, |i: int| '\u{2550}') + seq![right]
}

/// The lines of the serialized frame: each grid row as one line; when boxed,
/// the rows are flanked by wall glyphs and wrapped in border lines.
pub open spec fn frame_lines(cells: Seq<char>, cols: int, rows: int, boxed: bool) -> Seq<
    Seq<char>,
> {
    if boxed {
        seq![border_line(cols, '\u{2554}', '\u{2557}')] + Seq::new(
            rows as nat,
            |r: int| seq!['\u{2551}'] + row_of(cells, cols, r) + seq!['\u{2551}'],
        ) + seq![border_line(cols, '\u{255A}', '\u{255D}')]
    } else {
        Seq::new(rows as nat, |r: int| row_of(cells, cols, r))
    }
}

/// Lines joined with a single newline between each adjacent pair.
pub open spec fn join_lines(lines: Seq<Seq<char>>) -> Seq<char>
    decreases lines.len(),
{
    if lines.len() == 0 {
        Seq::empty()
    } else if lines.len() == 1 {
        lines[0]
    } else {
        join_lines(lines.drop_last()) + seq!['\n'] + lines.last()
    }
}

/// Cells after drawing the glyph of every segment in order; a later segment
/// overwrites an earlier one on the same cell.
pub open spec fn drawn_segments(
    cells: Seq<char>,
    cols: int,
    segs: Seq<(Point, SnakeTexture)>,
) -> Seq<char>
    decreases segs.len(),
{
    if segs.len() == 0 {
        cells
    } else {
        let s = segs.last();
        drawn_segments(cells, cols, segs.drop_last()).update(
            s.0.1 as int * cols + s.0.0 as int,
            s.1.char_spec(),
        )
    }
}

/// Cells after drawing the food glyph on every coordinate in order.
pub open spec fn drawn_food(cells: Seq<char>, cols: int, food: Seq<Point>) -> Seq<char>
    decreases food.len(),
{
    if food.len() == 0 {
        cells
    } else {
        let p = food.last();
        drawn_food(cells, cols, food.drop_last()).update(p.1 as int * cols + p.0 as int, '*')
    }
}

/// The row-major index of cell `(x, y)` lies inside a `cols` by `rows` grid.
proof fn lemma_cell_index(x: int, y: int, cols: int, rows: int)
    requires
        0 <= x < cols,
        0 <= y < rows,
    ensures
        0 <= y * cols + x,
        y * cols + x < rows * cols,
{
    assert(0 <= y * cols + x && y * cols + x < rows * cols) by (nonlinear_arith)
        requires
            0 <= x < cols,
            0 <= y < rows,
    ;
}

/// Relies on `String`'s `FromIterator` over characters: collecting the
/// characters of a vector yields the string of exactly those characters.
#[verifier::external_body]
fn chars_to_string(v: &Vec<char>) -> (r: String)
    ensures
        r@ == v@,
{
    v.iter().collect()
}

/// A fixed grid of display cells, row-major, `columns` wide and `rows` high.
pub struct Buffer {
    pub buffer: Vec<char>,
    pub columns: u32,
    pub rows: u32,
}

impl Buffer {
    /// Well-formedness: positive dimensions and a fully allocated grid.
    pub open spec fn wf(self) -> bool {
        &&& self.columns >= 1
        &&& self.rows >= 1
        &&& self.columns * self.rows <= u32::MAX
        &&& self.buffer@.len() == self.columns * self.rows
    }

    /// A blank `x` by `y` grid.
    pub fn new(x: u32, y: u32) -> (b: Buffer)
        requires
            x >= 1,
            y >= 1,
            x * y <= u32::MAX,
        ensures
            b.wf(),
            b.columns == x,
            b.rows == y,
            b.buffer@ == blank_cells((x * y) as nat),
    {
        let total = x * y;
        let mut cells: Vec<char> = Vec::new();
        let mut i: u32 = 0;
        while i < total
            invariant
                i <= total,
                cells@ =~= blank_cells(i as nat),
            decreases total - i,
        {
            cells.push(' ');
            proof {
                assert(cells@ =~= blank_cells((i + 1) as nat));
            }
            i += 1;
        }
        Buffer { buffer: cells, columns: x, rows: y }
    }

    /// Overwrite the cell at `(x, y)` with `symbol`.
    pub fn _draw(&mut self, x: u32, y: u32, symbol: char)
        requires
            old(self).wf(),
            x < old(self).columns,
            y < old(self).rows,
        ensures
            final(self).wf(),
            final(self).columns == old(self).columns,
            final(self).rows == old(self).rows,
            final(self).buffer@ == old(self).buffer@.update(
                y as int * old(self).columns as int + x as int,
                symbol,
            ),
    {
        proof {
            lemma_cell_index(x as int, y as int, self.columns as int, self.rows as int);
        }
        let offset = y * self.columns + x;
        self.buffer[offset as usize] = symbol;
    }

    /// Draw each segment's texture glyph at its coordinate, front to back.
    pub fn draw_snake(self, snake: &VecDeque<(Point, SnakeTexture)>) -> (r: Buffer)
        requires
            self.wf(),
            forall|i: int|
                0 <= i < snake@.len() ==> (#[trigger] snake@[i]).0.0 < self.columns
                    && snake@[i].0.1 < self.rows,
        ensures
            r.wf(),
            r.columns == self.columns,
            r.rows == self.rows,
            r.buffer@ == drawn_segments(self.buffer@, self.columns as int, snake@),
    {
        let mut this = self;
        let ghost orig = this.buffer@;
        let ghost cols0 = this.columns;
        let ghost rows0 = this.rows;
        let n = snake.len();
        let mut i: usize = 0;
        while i < n
            invariant
                i <= n,
                n == snake@.len(),
                this.wf(),
                this.columns == cols0,
                this.rows == rows0,
                forall|k: int|
                    0 <= k < snake@.len() ==> (#[trigger] snake@[k]).0.0 < cols0
                        && snake@[k].0.1 < rows0,
                this.buffer@ == drawn_segments(orig, cols0 as int, snake@.take(i as int)),
            decreases n - i,
        {
            let s = snake[i];
            this._draw(s.0.0, s.0.1, s.1.to_char());
            proof {
                assert(snake@.take(i + 1).drop_last() =~= snake@.take(i as int));
                assert(snake@.take(i + 1).last() == snake@[i as int]);
            }
            i += 1;
        }
        proof {
            assert(snake@.take(n as int) =~= snake@);
        }
        this
    }

    /// Draw the food glyph at each food coordinate.
    pub fn draw_food(self, food: &Vec<Point>) -> (r: Buffer)
        requires
            self.wf(),
            forall|i: int|
                0 <= i < food@.len() ==> (#[trigger] food@[i]).0 < self.columns && food@[i].1
                    < self.rows,
        ensures
            r.wf(),
            r.columns == self.columns,
            r.rows == self.rows,
            r.buffer@ == drawn_food(self.buffer@, self.columns as int, food@),
    {
        let mut this = self;
        let ghost orig = this.buffer@;
        let ghost cols0 = this.columns;
        let ghost rows0 = this.rows;
        let n = food.len();
        let mut i: usize = 0;
        while i < n
            invariant
                i <= n,
                n == food@.len(),
                this.wf(),
                this.columns == cols0,
                this.rows == rows0,
                forall|k: int|
                    0 <= k < food@.len() ==> (#[trigger] food@[k]).0 < cols0 && food@[k].1
                        < rows0,
                this.buffer@ == drawn_food(orig, cols0 as int, food@.take(i as int)),
            decreases n - i,
        {
            let p = food[i];
            this._draw(p.0, p.1, '*');
            proof {
                assert(food@.take(i + 1).drop_last() =~= food@.take(i as int));
                assert(food@.take(i + 1).last() == food@[i as int]);
            }
            i += 1;
        }
        proof {
            assert(food@.take(n as int) =~= food@);
        }
        this
    }

    /// Serialize the grid row-major into newline-separated lines; when boxed,
    /// wrap the grid in a rectangular double-line border that matches its
    /// width and height exactly.
    pub fn render(&self, boxed: bool) -> (r: String)
        requires
            self.wf(),
        ensures
            r@ == join_lines(
                frame_lines(self.buffer@, self.columns as int, self.rows as int, boxed),
            ),
    {
        let v = self.render_chars(boxed);
        chars_to_string(&v)
    }

    /// Push grid row `r0` of the buffer onto `v`.
    fn push_row(&self, v: &mut Vec<char>, r0: u32)
        requires
            self.wf(),
            r0 < self.rows,
        ensures
            final(v)@ == old(v)@ + row_of(self.buffer@, self.columns as int, r0 as int),
    {
        let mut c: u32 = 0;
        while c < self.columns
            invariant
                c <= self.columns,
                self.wf(),
                r0 < self.rows,
                v@ == old(v)@ + row_of(self.buffer@, self.columns as int, r0 as int).take(
                    c as int,
                ),
            decreases self.columns - c,
        {
            proof {
                lemma_cell_index(c as int, r0 as int, self.columns as int, self.rows as int);
                lemma_row_of_len(
                    self.buffer@,
                    self.columns as int,
                    self.rows as int,
                    r0 as int,
                );
            }
            let offset = r0 * self.columns + c;
            v.push(self.buffer[offset as usize]);
            proof {
                let row = row_of(self.buffer@, self.columns as int, r0 as int);
                assert(row.take(c + 1) =~= row.take(c as int).push(
                    self.buffer@[r0 as int * self.columns as int + c as int],
                ));
                assert(v@ =~= old(v)@ + row.take(c + 1));
            }
            c += 1;
        }
        proof {
            lemma_row_of_len(self.buffer@, self.columns as int, self.rows as int, r0 as int);
            let row = row_of(self.buffer@, self.columns as int, r0 as int);
            assert(row.take(self.columns as int) =~= row);
        }
    }

    /// The serialized frame as a sequence of characters.
    fn render_chars(&self, boxed: bool) -> (v: Vec<char>)
        requires
            self.wf(),
        ensures
            v@ == join_lines(
                frame_lines(self.buffer@, self.columns as int, self.rows as int, boxed),
            ),
    {
        let ghost lines = frame_lines(
            self.buffer@,
            self.columns as int,
            self.rows as int,
            boxed,
        );
        let mut v: Vec<char> = Vec::new();
        if boxed {
            v.push('\u{2554}');
            let mut c: u32 = 0;
            while c < self.columns
                invariant
                    c <= self.columns,
                    v@ =~= seq!['\u{2554}'] + Seq::new(c as nat, |i: int| '\u{2550}'),
                decreases self.columns - c,
            {
                v.push('\u{2550}');
                proof {
                    assert(v@ =~= seq!['\u{2554}'] + Seq::new((c + 1) as nat, |i: int| '\u{2550}'));
                }
                c += 1;
            }
            v.push('\u{2557}');
            proof {
                assert(v@ =~= border_line(self.columns as int, '\u{2554}', '\u{2557}'));
                assert(lines.take(1).len() == 1);
                assert(lines.take(1)[0] == lines[0]);
                assert(v@ =~= join_lines(lines.take(1)));
            }
            let mut r0: u32 = 0;
            while r0 < self.rows
                invariant
                    r0 <= self.rows,
                    self.wf(),
                    boxed,
                    lines == frame_lines(
                        self.buffer@,
                        self.columns as int,
                        self.rows as int,
                        boxed,
                    ),
                    v@ == join_lines(lines.take(r0 + 1)),
                decreases self.rows - r0,
            {
                v.push('\n');
                v.push('\u{2551}');
                self.push_row(&mut v, r0);
                v.push('\u{2551}');
                proof {
                    let row = row_of(self.buffer@, self.columns as int, r0 as int);
                    assert(lines[r0 + 1] =~= seq!['\u{2551}'] + row + seq!['\u{2551}']);
                    assert(lines.take(r0 + 2).drop_last() =~= lines.take(r0 + 1));
                    assert(lines.take(r0 + 2).last() == lines[r0 + 1]);
                    assert(v@ =~= join_lines(lines.take(r0 + 1)) + seq!['\n'] + lines[r0 + 1]);
                    assert(v@ =~= join_lines(lines.take(r0 + 2)));
                }
                r0 += 1;
            }
            v.push('\n');
            v.push('\u{255A}');
            let ghost before_rule = v@;
            let mut c2: u32 = 0;
            while c2 < self.columns
                invariant
                    c2 <= self.columns,
                    v@ =~= before_rule + Seq::new(c2 as nat, |i: int| '\u{2550}'),
                decreases self.columns - c2,
            {
                v.push('\u{2550}');
                proof {
                    assert(v@ =~= before_rule + Seq::new((c2 + 1) as nat, |i: int| '\u{2550}'));
                }
                c2 += 1;
            }
            v.push('\u{255D}');
            proof {
                assert(lines.take(self.rows + 2) =~= lines);
                assert(lines.last() =~= border_line(self.columns as int, '\u{255A}', '\u{255D}'));
                assert(lines.drop_last() =~= lines.take(self.rows + 1));
                assert(v@ =~= join_lines(lines.take(self.rows + 1)) + seq!['\n'] + lines.last());
                assert(v@ =~= join_lines(lines));
            }
        } else {
            self.push_row(&mut v, 0);
            proof {
                assert(lines.take(1).len() == 1);
                assert(lines.take(1)[0] == lines[0]);
                assert(lines[0] == row_of(self.buffer@, self.columns as int, 0));
                assert(v@ =~= join_lines(lines.take(1)));
            }
            let mut r0: u32 = 1;
            while r0 < self.rows
                invariant
                    1 <= r0 <= self.rows,
                    self.wf(),
                    !boxed,
                    lines == frame_lines(
                        self.buffer@,
                        self.columns as int,
                        self.rows as int,
                        boxed,
                    ),
                    v@ == join_lines(lines.take(r0 as int)),
                decreases self.rows - r0,
            {
                v.push('\n');
                self.push_row(&mut v, r0);
                proof {
                    assert(lines[r0 as int] == row_of(self.buffer@, self.columns as int, r0 as int));
                    assert(lines.take(r0 + 1).drop_last() =~= lines.take(r0 as int));
                    assert(lines.take(r0 + 1).last() == lines[r0 as int]);
                    assert(v@ =~= join_lines(lines.take(r0 as int)) + seq!['\n'] + lines[r0 as int]);
                    assert(v@ =~= join_lines(lines.take(r0 + 1)));
                }
                r0 += 1;
            }
            proof {
                assert(lines.take(self.rows as int) =~= lines);
            }
        }
        v
    }
}

/// Rendering a grid of all-blank cells boxed yields a frame of exactly
/// `rows + 2` lines of `cols + 2` columns each, whose interior cells are all
/// blank and whose border is the rectangular double-line box.
pub proof fn lemma_blank_boxed_frame(cells: Seq<char>, cols: int, rows: int)
    requires
        cols >= 1,
        rows >= 1,
        cells.len() == cols * rows,
        forall|i: int| 0 <= i < cells.len() ==> cells[i] == ' ',
    ensures
        frame_lines(cells, cols, rows, true).len() == rows + 2,
        forall|k: int|
            0 <= k < rows + 2 ==> (#[trigger] frame_lines(cells, cols, rows, true)[k]).len()
                == cols + 2,
        forall|r: int, c: int|
            1 <= r <= rows && 1 <= c <= cols ==> frame_lines(cells, cols, rows, true)[r][c] == ' ',
{
    let lines = frame_lines(cells, cols, rows, true);
    assert(lines.len() == rows + 2);
    assert forall|k: int| 0 <= k < rows + 2 implies (#[trigger] lines[k]).len() == cols + 2 by {
        if 1 <= k <= rows {
            lemma_row_of_len(cells, cols, rows, k - 1);
        }
    }
    assert forall|r: int, c: int| 1 <= r <= rows && 1 <= c <= cols implies lines[r][c] == ' ' by {
        lemma_row_of_len(cells, cols, rows, r - 1);
        lemma_cell_index(c - 1, r - 1, cols, rows);
        assert(rows * cols == cols * rows) by (nonlinear_arith);
        let row = row_of(cells, cols, r - 1);
        assert(lines[r] == seq!['\u{2551}'] + row + seq!['\u{2551}']);
        assert(lines[r][c] == row[c - 1]);
        assert(row[c - 1] == cells[(r - 1) * cols + (c - 1)]);
    }
}

/// Each grid row of a fully allocated cell sequence has exactly `cols`
/// cells, and they are the cells at the row's row-major indices.
proof fn lemma_row_of_len(cells: Seq<char>, cols: int, rows: int, r: int)
    requires
        cols >= 1,
        rows >= 1,
        0 <= r < rows,
        cells.len() == cols * rows,
    ensures
        row_of(cells, cols, r).len() == cols,
        forall|k: int| 0 <= k < cols ==> row_of(cells, cols, r)[k] == cells[r * cols + k],
{
    assert(0 <= r * cols && r * cols + cols == (r + 1) * cols && (r + 1) * cols <= rows * cols
        && rows * cols == cols * rows) by (nonlinear_arith)
        requires
            cols >= 1,
            0 <= r < rows,
    ;
}

} // verus!
