//! What a list of strokes leaves on a character grid, and the proof that a
//! frame paints the picture of its world.

use crate::frame::{frame_strokes, row_strokes, rows_strokes, wall, Stroke, PLAYER, WALL};
use crate::world::WorldView;
use vstd::prelude::*;

verus! {

/// A character grid with a cursor. A cell that holds no glyph is blank.
pub struct Canvas {
    /// The glyph of each cell that holds one, by column and row.
    pub cells: Map<(int, int), char>,
    /// The column and row of the cursor.
    pub cursor: (int, int),
}

impl Canvas {
    /// Printing `text` at the cursor writes over `cell`.
    pub open spec fn covers(self, text: Seq<char>, cell: (int, int)) -> bool {
        cell.1 == self.cursor.1 && self.cursor.0 <= cell.0 < self.cursor.0 + text.len()
    }

    /// The canvas after one stroke. Clearing blanks every cell; moving
    /// sets the cursor; printing writes the text over the cells from the
    /// cursor rightward and leaves the cursor behind the text.
    pub open spec fn stroked(self, stroke: Stroke) -> Canvas {
        match stroke {
            Stroke::Clear => Canvas { cells: Map::empty(), cursor: self.cursor },
            Stroke::MoveTo { column, row } => Canvas { cells: self.cells, cursor: (column, row) },
            Stroke::Print(text) => Canvas {
                cells: Map::new(
                    |cell: (int, int)| self.cells.dom().contains(cell) || self.covers(text, cell),
                    |cell: (int, int)|
                        if self.covers(text, cell) {
                            text[cell.0 - self.cursor.0]
                        } else {
                            self.cells[cell]
                        },
                ),
                cursor: (self.cursor.0 + text.len(), self.cursor.1),
            },
        }
    }

    /// The canvas after a list of strokes, first to last.
    pub open spec fn painted(self, strokes: Seq<Stroke>) -> Canvas
        decreases strokes.len(),
    {
        if strokes.len() == 0 {
            self
        } else {
            self.painted(strokes.drop_last()).stroked(strokes.last())
        }
    }
}

/// The cell is a wall cell of one of the first `count` rows: it lies in
/// the columns `[0, left)` or `[right, max_column)` of its row.
pub open spec fn is_wall(rows: Seq<(int, int)>, count: int, max_column: int, cell: (int, int)) -> bool {
    &&& 0 <= cell.1 < count
    &&& (0 <= cell.0 < rows[cell.1].0 || rows[cell.1].1 <= cell.0 < max_column)
}

/// The walls of the first `count` rows as a grid.
pub open spec fn walls_picture(rows: Seq<(int, int)>, count: int, max_column: int) -> Map<
    (int, int),
    char,
> {
    Map::new(|cell: (int, int)| is_wall(rows, count, max_column, cell), |cell: (int, int)| WALL)
}

/// The picture of a world on a playfield `max_column` wide: the player
/// glyph where the player stands, a wall glyph on every other cell outside
/// the gap of its row, and nothing anywhere else.
pub open spec fn picture(world: WorldView, max_column: int) -> Map<(int, int), char> {
    Map::new(
        |cell: (int, int)|
            cell == (world.player_column, world.player_line) || is_wall(
                world.rows,
                world.rows.len() as int,
                max_column,
                cell,
            ),
        |cell: (int, int)|
            if cell == (world.player_column, world.player_line) {
                PLAYER
            } else {
                WALL
            },
    )
}

/// Painting one list of strokes after another is painting their
/// concatenation.
pub proof fn lemma_painted_concat(canvas: Canvas, first: Seq<Stroke>, second: Seq<Stroke>)
    ensures
        canvas.painted(first + second) == canvas.painted(first).painted(second),
    decreases second.len(),
{
    if second.len() > 0 {
        lemma_painted_concat(canvas, first, second.drop_last());
        assert((first + second).drop_last() =~= first + second.drop_last());
    }
}

/// Painting a single stroke.
proof fn lemma_painted_one(canvas: Canvas, stroke: Stroke)
    ensures
        canvas.painted(seq![stroke]) == canvas.stroked(stroke),
{
    let strokes = seq![stroke];
    assert(canvas.painted(strokes.drop_last()) == canvas);
}

/// Painting the strokes of one row adds the wall cells of that row.
proof fn lemma_row_painted(canvas: Canvas, row: (int, int), line: int, max_column: int)
    ensures
        canvas.painted(row_strokes(row, line, max_column)).cells =~= Map::new(
            |cell: (int, int)|
                canvas.cells.dom().contains(cell) || (cell.1 == line && (0 <= cell.0 < row.0
                    || row.1 <= cell.0 < max_column)),
            |cell: (int, int)|
                if cell.1 == line && (0 <= cell.0 < row.0 || row.1 <= cell.0 < max_column) {
                    WALL
                } else {
                    canvas.cells[cell]
                },
        ),
{
    let to_left = Stroke::MoveTo { column: 0, row: line };
    let left = Stroke::Print(wall(row.0));
    let to_right = Stroke::MoveTo { column: row.1, row: line };
    let right = Stroke::Print(wall(max_column - row.1));
    let strokes = row_strokes(row, line, max_column);
    assert(strokes =~= seq![to_left] + seq![left] + seq![to_right] + seq![right]);
    lemma_painted_concat(canvas, seq![to_left] + seq![left] + seq![to_right], seq![right]);
    lemma_painted_concat(canvas, seq![to_left] + seq![left], seq![to_right]);
    lemma_painted_concat(canvas, seq![to_left], seq![left]);
    lemma_painted_one(canvas, to_left);
    let one = canvas.stroked(to_left);
    lemma_painted_one(one, left);
    let two = one.stroked(left);
    lemma_painted_one(two, to_right);
    let three = two.stroked(to_right);
    lemma_painted_one(three, right);
}

/// After the grid is cleared, painting the first `count` rows leaves
/// exactly their walls.
proof fn lemma_rows_painted(canvas: Canvas, rows: Seq<(int, int)>, count: int, max_column: int)
    requires
        0 <= count <= rows.len(),
        canvas.cells =~= Map::empty(),
    ensures
        canvas.painted(rows_strokes(rows, count, max_column)).cells =~= walls_picture(
            rows,
            count,
            max_column,
        ),
    decreases count,
{
    if count > 0 {
        let above = rows_strokes(rows, count - 1, max_column);
        let row = row_strokes(rows[count - 1], count - 1, max_column);
        lemma_rows_painted(canvas, rows, count - 1, max_column);
        lemma_painted_concat(canvas, above, row);
        lemma_row_painted(canvas.painted(above), rows[count - 1], count - 1, max_column);
    }
}

/// Whatever the grid held before, the strokes of a frame leave on it the
/// picture of the world and nothing else.
pub proof fn law_frame_paints_picture(canvas: Canvas, world: WorldView, max_column: int)
    ensures
        canvas.painted(frame_strokes(world, max_column)).cells =~= picture(world, max_column),
{
    let clear = seq![Stroke::Clear];
    let rows = rows_strokes(world.rows, world.rows.len() as int, max_column);
    let to_player = Stroke::MoveTo { column: world.player_column, row: world.player_line };
    let glyph = Stroke::Print(seq![PLAYER]);
    assert(frame_strokes(world, max_column) =~= clear + rows + seq![to_player] + seq![glyph]);
    lemma_painted_concat(canvas, clear + rows + seq![to_player], seq![glyph]);
    lemma_painted_concat(canvas, clear + rows, seq![to_player]);
    lemma_painted_concat(canvas, clear, rows);
    lemma_painted_one(canvas, Stroke::Clear);
    let blank = canvas.stroked(Stroke::Clear);
    lemma_rows_painted(blank, world.rows, world.rows.len() as int, max_column);
    let walls = blank.painted(rows);
    lemma_painted_one(walls, to_player);
    let ready = walls.stroked(to_player);
    lemma_painted_one(ready, glyph);
}

} // verus!
