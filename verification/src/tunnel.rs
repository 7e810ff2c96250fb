//! The rules by which the tunnel moves: collision, scrolling, easing of the
//! newest row toward its targets, redrift of the targets, and the floor
//! that keeps the targets apart.

use crate::random::{Draw, RandomSource};
use crate::world::{row_view, rows_view, World, WorldView};
use vstd::prelude::*;

verus! {

/// A redrift moves a target by at most this many columns to the left, and
/// by one column less to the right.
pub const DRIFT: u16 = 5;

/// The targets are pushed apart when they are closer than this.
pub const MIN_GAP: u16 = 3;

/// A redrift roll is a number below this.
pub const ROLL_SIDES: u16 = 10;

/// A roll of at least this much triggers a redrift.
pub const ROLL_NEEDED: u16 = 7;

/// The player touches a wall: the column lies outside the gap
/// `[left, right)` of the row.
pub open spec fn outside_gap(column: int, row: (int, int)) -> bool {
    column < row.0 || column >= row.1
}

/// Where a wall column stands after one tick of easing toward its target:
/// one column closer, or unchanged once it has arrived.
pub open spec fn eased(current: int, target: int) -> int {
    if target > current {
        current + 1
    } else if target < current {
        current - 1
    } else {
        current
    }
}

/// The rows after one tick: every row takes the pair of the row above it,
/// and the top row eases toward the targets.
pub open spec fn scrolled(rows: Seq<(int, int)>, target_left: int, target_right: int) -> Seq<
    (int, int),
> {
    Seq::new(
        rows.len(),
        |r: int|
            if r == 0 {
                (eased(rows[0].0, target_left), eased(rows[0].1, target_right))
            } else {
                rows[r - 1]
            },
    )
}

/// A redrift may move a target to any column from `DRIFT` to its left up
/// to, but not including, `DRIFT` to its right.
pub open spec fn in_window(target: int, choice: int) -> bool {
    target - DRIFT <= choice < target + DRIFT
}

/// The target after the redrift step: the chosen column if one was
/// chosen, the old target otherwise.
pub open spec fn redrifted(target: int, choice: Option<int>) -> int {
    match choice {
        Some(column) => column,
        None => target,
    }
}

/// The right target after the floor step: `MIN_GAP` further right when it
/// stood less than `MIN_GAP` to the right of the left target.
///
/// The step moves the right target only, and only once. It restores the
/// gap when the right target did not stand left of the left one; when it
/// did, the targets may stay closer than `MIN_GAP`, or inverted.
pub open spec fn floored(target_left: int, target_right: int) -> int {
    if target_right - target_left < MIN_GAP {
        target_right + MIN_GAP
    } else {
        target_right
    }
}

/// A choice of `u16` column as an integer.
pub open spec fn choice_view(choice: Option<u16>) -> Option<int> {
    match choice {
        Some(column) => Some(column as int),
        None => None,
    }
}

impl WorldView {
    /// The top row's left wall reaches its target in the coming tick.
    pub open spec fn left_arrives(self) -> bool {
        eased(self.rows[0].0, self.target_left) == self.target_left
    }

    /// The top row's right wall reaches its target in the coming tick.
    pub open spec fn right_arrives(self) -> bool {
        eased(self.rows[0].1, self.target_right) == self.target_right
    }

    /// The redrift choices that a tick may be given: a target is
    /// redrifted only when its wall arrives, and only within its window.
    pub open spec fn permits(self, left: Option<int>, right: Option<int>) -> bool {
        &&& left matches Some(column) ==> self.left_arrives() && in_window(
            self.target_left,
            column,
        )
        &&& right matches Some(column) ==> self.right_arrives() && in_window(
            self.target_right,
            column,
        )
    }

    /// The world one tick later, given the redrift choices.
    pub open spec fn advanced(self, left: Option<int>, right: Option<int>) -> WorldView {
        let target_left = redrifted(self.target_left, left);
        let target_right = redrifted(self.target_right, right);
        WorldView {
            player_column: self.player_column,
            player_line: self.player_line,
            rows: scrolled(self.rows, self.target_left, self.target_right),
            dead: self.dead || outside_gap(self.player_column, self.player_row()),
            target_left,
            target_right: floored(target_left, target_right),
        }
    }
}

/// Tells whether a player in `column` touches a wall of `row`.
pub fn collides(column: u16, row: (u16, u16)) -> (hit: bool)
    ensures
        hit == outside_gap(column as int, row_view(row)),
{
    column < row.0 || column >= row.1
}

/// Moves a wall column one step toward its target.
pub fn ease(current: u16, target: u16) -> (next: u16)
    ensures
        next == eased(current as int, target as int),
{
    if target > current {
        current + 1
    } else if target < current {
        current - 1
    } else {
        current
    }
}

/// Scrolls the tunnel down by one row and eases the top row toward the
/// targets. The bottom row's old pair leaves the screen.
pub fn scroll(map: &mut Vec<(u16, u16)>, target_left: u16, target_right: u16)
    requires
        old(map).len() >= 1,
    ensures
        rows_view(final(map)@) == scrolled(
            rows_view(old(map)@),
            target_left as int,
            target_right as int,
        ),
        final(map).len() == old(map).len(),
{
    let mut line: usize = map.len() - 1;
    while line > 0
        invariant
            line < map.len(),
            map.len() == old(map).len(),
            forall|r: int| 0 <= r <= line ==> map@[r] == old(map)@[r],
            forall|r: int| line < r < map.len() ==> map@[r] == old(map)@[r - 1],
        decreases line,
    {
        let above: (u16, u16) = map[line - 1];
        map.set(line, above);
        line -= 1;
    }
    let top: (u16, u16) = map[0];
    map.set(0, (ease(top.0, target_left), ease(top.1, target_right)));
}

/// Tells whether a roll triggers a redrift: three rolls in ten do.
pub fn redrift_due(roll: u16) -> (due: bool)
    ensures
        due == (roll >= ROLL_NEEDED),
{
    roll >= ROLL_NEEDED
}

/// Applies the floor step to the right target.
pub fn enforce_floor(target_left: u16, target_right: u16) -> (right: u16)
    requires
        floored(target_left as int, target_right as int) <= u16::MAX,
    ensures
        right == floored(target_left as int, target_right as int),
{
    if target_right < target_left || target_right - target_left < MIN_GAP {
        target_right + MIN_GAP
    } else {
        target_right
    }
}

/// Advances the world by one tick, with the redrift choices given: the
/// player is tested against the walls of the row they stand in, the
/// tunnel scrolls, the top row eases, a target whose wall has arrived
/// moves to the column chosen for it, and the floor step is applied.
pub fn advance_with(world: World, left: Option<u16>, right: Option<u16>) -> (next: World)
    requires
        world.wf(),
        world@.permits(choice_view(left), choice_view(right)),
        world@.advanced(choice_view(left), choice_view(right)).target_right <= u16::MAX,
    ensures
        next@ == world@.advanced(choice_view(left), choice_view(right)),
        next.wf(),
{
    let mut next = world;
    if collides(next.player_column, next.map[next.player_line as usize]) {
        next.player_is_dead = true;
    }
    scroll(&mut next.map, next.next_left, next.next_right);
    if let Some(column) = left {
        next.next_left = column;
    }
    if let Some(column) = right {
        next.next_right = column;
    }
    next.next_right = enforce_floor(next.next_left, next.next_right);
    next
}

/// The redrift window round `target` lies within the columns a `u16` can
/// hold.
pub open spec fn window_fits(target: int) -> bool {
    DRIFT <= target && target + DRIFT <= u16::MAX
}

impl WorldView {
    /// The world can be advanced with chance deciding the redrift: it is
    /// well formed, it has no more rows than a terminal has lines, the
    /// window of each target whose wall arrives fits, and the right target
    /// leaves room for the floor step after the farthest redrift to the
    /// right.
    pub open spec fn ready(self) -> bool {
        &&& self.wf()
        &&& self.rows.len() <= u16::MAX
        &&& self.left_arrives() ==> window_fits(self.target_left)
        &&& self.right_arrives() ==> window_fits(self.target_right)
        &&& self.right_arrives() ==> self.target_right + (DRIFT - 1) + MIN_GAP <= u16::MAX
        &&& !self.right_arrives() ==> self.target_right + MIN_GAP <= u16::MAX
    }
}

impl World {
    /// The world can be advanced with chance deciding the redrift: its
    /// view is ready.
    pub open spec fn ready(&self) -> bool {
        self@.ready()
    }

    /// Tells whether the world can be advanced with chance deciding the
    /// redrift.
    pub fn is_ready(&self) -> (ok: bool)
        ensures
            ok == self.ready(),
    {
        if !self.is_wf() {
            return false;
        }
        let top: (u16, u16) = self.map[0];
        let left_arrives: bool = ease(top.0, self.next_left) == self.next_left;
        let right_arrives: bool = ease(top.1, self.next_right) == self.next_right;
        if left_arrives && !fits_window(self.next_left) {
            return false;
        }
        if right_arrives {
            fits_window(self.next_right) && self.next_right <= u16::MAX - (DRIFT - 1) - MIN_GAP
        } else {
            self.next_right <= u16::MAX - MIN_GAP
        }
    }
}

/// Tells whether the redrift window round `target` fits in a `u16`.
pub fn fits_window(target: u16) -> (fits: bool)
    ensures
        fits == window_fits(target as int),
{
    DRIFT <= target && target <= u16::MAX - DRIFT
}

/// What a redrift draws for a target: first the roll, a number below
/// `ROLL_SIDES`; then, only if a column was chosen, that column, from the
/// target's window.
pub open spec fn redrift_draws(target: int, roll: int, choice: Option<int>) -> Seq<Draw> {
    let rolled = Draw { low: 0, high: ROLL_SIDES as int, value: roll };
    match choice {
        Some(column) => seq![
            rolled,
            Draw { low: target - DRIFT, high: target + DRIFT, value: column },
        ],
        None => seq![rolled],
    }
}

/// Decides by chance whether a target whose wall has arrived is
/// redrifted, and where to. One roll below `ROLL_SIDES` is drawn. If it is
/// at least `ROLL_NEEDED`, which three rolls in ten are, a column is drawn
/// from the target's window and returned; otherwise nothing more is drawn
/// and nothing is chosen.
pub fn redrift<R: RandomSource>(rng: &mut R, target: u16) -> (choice: Option<u16>)
    requires
        window_fits(target as int),
    ensures
        choice matches Some(column) ==> in_window(target as int, column as int),
        exists|roll: int|
            {
                &&& 0 <= roll < ROLL_SIDES
                &&& choice is Some <==> roll >= ROLL_NEEDED
                &&& final(rng).drawn() == old(rng).drawn() + #[trigger] redrift_draws(
                    target as int,
                    roll,
                    choice_view(choice),
                )
            },
{
    let roll: u16 = rng.pick(0, ROLL_SIDES);
    let choice: Option<u16> = if redrift_due(roll) {
        Some(rng.pick(target - DRIFT, target + DRIFT))
    } else {
        None
    };
    proof {
        assert(rng.drawn() =~= old(rng).drawn() + redrift_draws(
            target as int,
            roll as int,
            choice_view(choice),
        ));
    }
    choice
}

/// Advances the world by one tick, with chance deciding the redrift of
/// each target whose wall has arrived. The result is that of
/// `advance_with` for some choices that the world permits.
pub fn physics<R: RandomSource>(world: World, rng: &mut R) -> (next: World)
    requires
        world.ready(),
    ensures
        next.wf(),
        exists|left: Option<int>, right: Option<int>|
            world@.permits(left, right) && next@ == #[trigger] world@.advanced(left, right),
        next@.player_column == world@.player_column,
        next@.player_line == world@.player_line,
        next@.dead == (world@.dead || outside_gap(world@.player_column, world@.player_row())),
        next@.rows == scrolled(world@.rows, world@.target_left, world@.target_right),
        next@.rows.len() == world@.rows.len(),
        forall|r: int|
            0 <= r < world@.rows.len() - 1 ==> #[trigger] next@.rows[r + 1] == world@.rows[r],
        next@.rows[0] == (
            eased(world@.rows[0].0, world@.target_left),
            eased(world@.rows[0].1, world@.target_right),
        ),
        !world@.left_arrives() ==> next@.target_left == world@.target_left,
        in_window(world@.target_left, next@.target_left),
        !world@.right_arrives() ==> next@.target_right == floored(
            next@.target_left,
            world@.target_right,
        ),
        world@.target_right - DRIFT <= next@.target_right < world@.target_right + DRIFT + MIN_GAP,
{
    let top: (u16, u16) = world.map[0];
    let left: Option<u16> = if ease(top.0, world.next_left) == world.next_left {
        redrift(rng, world.next_left)
    } else {
        None
    };
    let right: Option<u16> = if ease(top.1, world.next_right) == world.next_right {
        redrift(rng, world.next_right)
    } else {
        None
    };
    advance_with(world, left, right)
}

} // verus!
