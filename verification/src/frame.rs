//! Composing a frame: the drawing commands that repaint the whole grid
//! from a world.

use crate::canvas::{law_frame_paints_picture, picture, Canvas};
use crate::world::{World, WorldView};
use vstd::prelude::*;
use vstd::string::StringExecFns;

verus! {

/// The glyph a wall cell is drawn with.
pub const WALL: char = '+';

/// The glyph the player is drawn with.
pub const PLAYER: char = 'P';

/// One drawing command for a character grid with a cursor.
#[derive(Clone, Debug, PartialEq, Eq)]
pub enum Command {
    /// Blank the whole grid.
    Clear,
    /// Put the cursor at a column and a row.
    MoveTo { column: u16, row: u16 },
    /// Write text at the cursor, left to right.
    Print(String),
}

/// A drawing command as plain mathematics.
pub enum Stroke {
    Clear,
    MoveTo { column: int, row: int },
    Print(Seq<char>),
}

impl View for Command {
    type V = Stroke;

    open spec fn view(&self) -> Stroke {
        match *self {
            Command::Clear => Stroke::Clear,
            Command::MoveTo { column, row } => Stroke::MoveTo {
                column: column as int,
                row: row as int,
            },
            Command::Print(text) => Stroke::Print(text@),
        }
    }
}

/// The strokes of a list of commands.
pub open spec fn strokes(commands: Seq<Command>) -> Seq<Stroke> {
    Seq::new(commands.len(), |i: int| commands[i]@)
}

/// A run of `count` wall glyphs.
pub open spec fn wall(count: int) -> Seq<char> {
    Seq::new(
        if count > 0 {
            count as nat
        } else {
            0
        },
        |i: int| WALL,
    )
}

/// The strokes that paint one row: wall glyphs over the columns
/// `[0, left)`, then over the columns `[right, max_column)`.
pub open spec fn row_strokes(row: (int, int), line: int, max_column: int) -> Seq<Stroke> {
    seq![
        Stroke::MoveTo { column: 0, row: line },
        Stroke::Print(wall(row.0)),
        Stroke::MoveTo { column: row.1, row: line },
        Stroke::Print(wall(max_column - row.1)),
    ]
}

/// The strokes that paint the first `count` rows, top to bottom.
pub open spec fn rows_strokes(rows: Seq<(int, int)>, count: int, max_column: int) -> Seq<Stroke>
    decreases count,
{
    if count <= 0 {
        Seq::empty()
    } else {
        rows_strokes(rows, count - 1, max_column) + row_strokes(
            rows[count - 1],
            count - 1,
            max_column,
        )
    }
}

/// The strokes of a whole frame: clear the grid, paint every row, then
/// write the player glyph where the player stands.
pub open spec fn frame_strokes(world: WorldView, max_column: int) -> Seq<Stroke> {
    seq![Stroke::Clear] + rows_strokes(world.rows, world.rows.len() as int, max_column) + seq![
        Stroke::MoveTo { column: world.player_column, row: world.player_line },
        Stroke::Print(seq![PLAYER]),
    ]
}

/// A string of `count` wall glyphs.
pub fn wall_run(count: u16) -> (text: String)
    ensures
        text@ == wall(count as int),
{
    let mut text = String::new();
    let mut done: u16 = 0;
    proof {
        reveal_strlit("+");
    }
    while done < count
        invariant
            done <= count,
            text@ == wall(done as int),
            "+"@ == seq![WALL],
        decreases count - done,
    {
        text.append("+");
        done += 1;
    }
    text
}

/// Composes the frame for a world on a playfield `max_column` wide: the
/// commands clear the grid, fill every row with wall glyphs outside its
/// gap, and write the player glyph last. Painted on any grid, they leave
/// the picture of the world.
pub fn draw(world: &World, max_column: u16) -> (frame: Vec<Command>)
    requires
        world.wf(),
    ensures
        strokes(frame@) == frame_strokes(world@, max_column as int),
        forall|canvas: Canvas| #[trigger]
            canvas.painted(strokes(frame@)).cells == picture(world@, max_column as int),
{
    let mut frame: Vec<Command> = Vec::new();
    frame.push(Command::Clear);
    let mut line: usize = 0;
    while line < world.map.len()
        invariant
            world.wf(),
            line <= world.map.len(),
            strokes(frame@) == seq![Stroke::Clear] + rows_strokes(
                world@.rows,
                line as int,
                max_column as int,
            ),
        decreases world.map.len() - line,
    {
        let row: (u16, u16) = world.map[line];
        let beyond: u16 = if row.1 < max_column {
            max_column - row.1
        } else {
            0
        };
        let ghost before = strokes(frame@);
        frame.push(Command::MoveTo { column: 0, row: line as u16 });
        frame.push(Command::Print(wall_run(row.0)));
        frame.push(Command::MoveTo { column: row.1, row: line as u16 });
        frame.push(Command::Print(wall_run(beyond)));
        proof {
            assert(strokes(frame@) =~= before + row_strokes(
                world@.rows[line as int],
                line as int,
                max_column as int,
            ));
        }
        line += 1;
    }
    let glyph = String::from_str("P");
    proof {
        reveal_strlit("P");
        assert(glyph@ =~= seq![PLAYER]);
    }
    frame.push(Command::MoveTo { column: world.player_column, row: world.player_line });
    frame.push(Command::Print(glyph));
    proof {
        assert forall|canvas: Canvas| #[trigger]
            canvas.painted(frame_strokes(world@, max_column as int)).cells == picture(
                world@,
                max_column as int,
            ) by {
            law_frame_paints_picture(canvas, world@, max_column as int);
        }
    }
    frame
}

} // verus!
