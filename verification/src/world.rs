//! The world: the player, the tunnel rows on screen, and the two targets
//! that the newest row eases toward.

use vstd::prelude::*;

verus! {

/// How far the initial walls stand from the centre column.
pub const HALF_GAP: u16 = 5;

/// How far left of the centre the left target starts.
pub const LEFT_LEAD: u16 = 6;

/// How far right of the centre the right target starts.
pub const RIGHT_LEAD: u16 = 7;

/// The narrowest playfield in which the initial tunnel and targets fit.
pub const MIN_COLUMNS: u16 = 12;

/// The state of one run of the game.
#[derive(Clone, Debug, PartialEq, Eq)]
pub struct World {
    /// The column the player stands in.
    pub player_column: u16,
    /// The row the player stands in.
    pub player_line: u16,
    /// For each visible row, top to bottom, the columns of its left and
    /// right wall. The gap between them is `[left, right)`.
    pub map: Vec<(u16, u16)>,
    /// Set once the player has touched a wall.
    pub player_is_dead: bool,
    /// The column the top row's left wall is easing toward.
    pub next_left: u16,
    /// The column the top row's right wall is easing toward.
    pub next_right: u16,
}

/// The world as plain mathematics: every column and row is an `int`.
pub struct WorldView {
    pub player_column: int,
    pub player_line: int,
    pub rows: Seq<(int, int)>,
    pub dead: bool,
    pub target_left: int,
    pub target_right: int,
}

/// A wall pair as a pair of integers.
pub open spec fn row_view(row: (u16, u16)) -> (int, int) {
    (row.0 as int, row.1 as int)
}

/// The rows of a map as pairs of integers.
pub open spec fn rows_view(rows: Seq<(u16, u16)>) -> Seq<(int, int)> {
    Seq::new(rows.len(), |i: int| row_view(rows[i]))
}

impl WorldView {
    /// There is at least one row, and the player stands in one of them.
    pub open spec fn wf(self) -> bool {
        &&& self.rows.len() >= 1
        &&& 0 <= self.player_line < self.rows.len()
    }

    /// Every row has its left wall strictly left of its right wall.
    pub open spec fn open_rows(self) -> bool {
        forall|r: int| 0 <= r < self.rows.len() ==> (#[trigger] self.rows[r]).0 < self.rows[r].1
    }

    /// The wall pair of the row the player stands in.
    pub open spec fn player_row(self) -> (int, int)
        recommends
            self.wf(),
    {
        self.rows[self.player_line]
    }
}

/// The world a game starts with on a playfield of `max_column` by
/// `max_line` cells: the player in the centre of the bottom row, every row
/// with its walls `HALF_GAP` to either side of the centre, and the targets
/// just outside those walls.
pub open spec fn fresh(max_column: int, max_line: int) -> WorldView {
    let centre = max_column / 2;
    WorldView {
        player_column: centre,
        player_line: max_line - 1,
        rows: Seq::new(max_line as nat, |r: int| (centre - HALF_GAP, centre + HALF_GAP)),
        dead: false,
        target_left: centre - LEFT_LEAD,
        target_right: centre + RIGHT_LEAD,
    }
}

impl View for World {
    type V = WorldView;

    open spec fn view(&self) -> WorldView {
        WorldView {
            player_column: self.player_column as int,
            player_line: self.player_line as int,
            rows: rows_view(self.map@),
            dead: self.player_is_dead,
            target_left: self.next_left as int,
            target_right: self.next_right as int,
        }
    }
}

impl World {
    /// The world is well formed: its view is, and it has no more rows than
    /// a terminal has lines.
    pub open spec fn wf(&self) -> bool {
        &&& self@.wf()
        &&& self.map.len() <= u16::MAX
    }

    /// Tells whether the world is well formed.
    pub fn is_wf(&self) -> (ok: bool)
        ensures
            ok == self.wf(),
    {
        1 <= self.map.len() && self.map.len() <= u16::MAX as usize && (self.player_line as usize)
            < self.map.len()
    }

    /// A fresh world for a playfield of `max_column` by `max_line` cells.
    /// The playfield must be wide enough for the left target, which starts
    /// `LEFT_LEAD` columns left of the centre, and have a row for the
    /// player.
    pub fn new(max_column: u16, max_line: u16) -> (world: World)
        requires
            max_column >= MIN_COLUMNS,
            max_line >= 1,
        ensures
            world@ == fresh(max_column as int, max_line as int),
            world.wf(),
            world@.open_rows(),
    {
        let centre: u16 = max_column / 2;
        let row: (u16, u16) = (centre - HALF_GAP, centre + HALF_GAP);
        let mut map: Vec<(u16, u16)> = Vec::new();
        let mut line: u16 = 0;
        while line < max_line
            invariant
                line <= max_line,
                map.len() == line,
                forall|r: int| 0 <= r < line ==> map@[r] == row,
            decreases max_line - line,
        {
            map.push(row);
            line += 1;
        }
        let world = World {
            player_column: centre,
            player_line: max_line - 1,
            map,
            player_is_dead: false,
            next_left: centre - LEFT_LEAD,
            next_right: centre + RIGHT_LEAD,
        };
        assert(world@.rows =~= fresh(max_column as int, max_line as int).rows);
        world
    }
}

} // verus!
