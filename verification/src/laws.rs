//! What holds of every tick, proved over the integer view of the world.

use crate::tunnel::{eased, floored, in_window, outside_gap, redrifted, scrolled, MIN_GAP};
use crate::world::WorldView;
use vstd::prelude::*;

verus! {

/// Easing moves a wall by at most one column, toward its target and never
/// past it, and leaves a wall that stands on its target where it is.
pub proof fn law_easing_bound(current: int, target: int)
    ensures
        -1 <= eased(current, target) - current <= 1,
        current < target ==> eased(current, target) == current + 1 && eased(current, target)
            <= target,
        current > target ==> eased(current, target) == current - 1 && eased(current, target)
            >= target,
        current == target ==> eased(current, target) == current,
{
}

/// In a tick each wall of the top row moves by at most one column: one
/// column toward its target while it stands off it, and not at all once
/// it stands on it.
pub proof fn law_top_row_eases(world: WorldView, left: Option<int>, right: Option<int>)
    requires
        world.wf(),
    ensures
        ({
            let before = world.rows[0];
            let after = world.advanced(left, right).rows[0];
            &&& -1 <= after.0 - before.0 <= 1
            &&& -1 <= after.1 - before.1 <= 1
            &&& before.0 < world.target_left ==> after.0 == before.0 + 1
            &&& before.0 > world.target_left ==> after.0 == before.0 - 1
            &&& before.0 == world.target_left ==> after.0 == before.0
            &&& before.1 < world.target_right ==> after.1 == before.1 + 1
            &&& before.1 > world.target_right ==> after.1 == before.1 - 1
            &&& before.1 == world.target_right ==> after.1 == before.1
        }),
{
}

/// After a tick every row but the top one holds the pair that the row
/// above it held before, and the top row holds its old pair eased toward
/// the targets. No row is added or lost.
pub proof fn law_scroll(world: WorldView, left: Option<int>, right: Option<int>)
    requires
        world.wf(),
    ensures
        world.advanced(left, right).rows.len() == world.rows.len(),
        forall|r: int|
            0 <= r < world.rows.len() - 1 ==> #[trigger] world.advanced(left, right).rows[r + 1]
                == world.rows[r],
        world.advanced(left, right).rows[0] == (
            eased(world.rows[0].0, world.target_left),
            eased(world.rows[0].1, world.target_right),
        ),
{
}

/// A tick on a living player sets the death flag exactly when the player's
/// column lies outside the gap of the row they stand in, as that row was
/// before the tick; a death flag once set stays set.
pub proof fn law_collision(world: WorldView, left: Option<int>, right: Option<int>)
    requires
        world.wf(),
    ensures
        !world.dead ==> (world.advanced(left, right).dead <==> (world.player_column
            < world.player_row().0 || world.player_column >= world.player_row().1)),
        world.dead ==> world.advanced(left, right).dead,
{
}

/// While the targets are ordered, easing keeps an open row open: the left
/// wall stays strictly left of the right wall.
pub proof fn law_ordered_targets_keep_row_open(
    row: (int, int),
    target_left: int,
    target_right: int,
)
    requires
        row.0 < row.1,
        target_left < target_right,
    ensures
        eased(row.0, target_left) < eased(row.1, target_right),
{
}

/// A tick keeps every row open exactly when the rows that stay on screen
/// were open and the top row is still open once eased.
pub proof fn law_open_rows(world: WorldView, left: Option<int>, right: Option<int>)
    requires
        world.wf(),
    ensures
        world.advanced(left, right).open_rows() <==> {
            &&& forall|r: int|
                0 <= r < world.rows.len() - 1 ==> (#[trigger] world.rows[r]).0 < world.rows[r].1
            &&& eased(world.rows[0].0, world.target_left) < eased(
                world.rows[0].1,
                world.target_right,
            )
        },
{
    let next = world.advanced(left, right);
    if next.open_rows() {
        assert(next.rows[0].0 < next.rows[0].1);
        assert forall|r: int| 0 <= r < world.rows.len() - 1 implies (#[trigger] world.rows[r]).0
            < world.rows[r].1 by {
            assert(next.rows[r + 1].0 < next.rows[r + 1].1);
        }
    }
}

/// A tick keeps every row open when every row was open before and the top
/// row is still open once eased toward the targets.
pub proof fn law_rows_stay_open(world: WorldView, left: Option<int>, right: Option<int>)
    requires
        world.wf(),
        world.open_rows(),
        eased(world.rows[0].0, world.target_left) < eased(world.rows[0].1, world.target_right),
    ensures
        world.advanced(left, right).open_rows(),
{
    law_open_rows(world, left, right);
}

/// A tick keeps every row open when every row was open before and the
/// targets were ordered.
pub proof fn law_rows_stay_open_between_ordered_targets(
    world: WorldView,
    left: Option<int>,
    right: Option<int>,
)
    requires
        world.wf(),
        world.open_rows(),
        world.target_left < world.target_right,
    ensures
        world.advanced(left, right).open_rows(),
{
    law_ordered_targets_keep_row_open(world.rows[0], world.target_left, world.target_right);
    law_rows_stay_open(world, left, right);
}

/// The floor step leaves the right target at least `MIN_GAP` to the right
/// of the left target, provided the right target did not stand left of it.
pub proof fn law_floor_restores_gap(target_left: int, target_right: int)
    requires
        target_left <= target_right,
    ensures
        floored(target_left, target_right) - target_left >= MIN_GAP,
{
}

/// When the right target stands left of the left target, the floor step
/// moves it but does not restore the gap.
pub proof fn law_floor_misses_inverted_targets(target_left: int, target_right: int)
    requires
        target_left > target_right,
    ensures
        floored(target_left, target_right) == target_right + MIN_GAP,
        floored(target_left, target_right) - target_left < MIN_GAP,
{
}

/// After a tick the targets stand at least `MIN_GAP` apart, provided the
/// redrift did not carry the right target to the left of the left one.
pub proof fn law_targets_apart(world: WorldView, left: Option<int>, right: Option<int>)
    requires
        redrifted(world.target_left, left) <= redrifted(world.target_right, right),
    ensures
        world.advanced(left, right).target_right - world.advanced(left, right).target_left
            >= MIN_GAP,
{
}

/// While the targets stand at least `MIN_GAP` apart, a top row whose gap
/// is at least `MIN_GAP` wide keeps such a gap through the tick.
pub proof fn law_top_gap_stays_wide(world: WorldView, left: Option<int>, right: Option<int>)
    requires
        world.wf(),
        world.rows[0].1 - world.rows[0].0 >= MIN_GAP,
        world.target_right - world.target_left >= MIN_GAP,
    ensures
        world.advanced(left, right).rows[0].1 - world.advanced(left, right).rows[0].0 >= MIN_GAP,
{
}

/// A permitted redrift moves a target by at most the reach of its window
/// in one tick, and the floor step adds at most `MIN_GAP` to the right
/// target.
pub proof fn law_redrift_within_window(world: WorldView, left: Option<int>, right: Option<int>)
    requires
        world.permits(left, right),
    ensures
        in_window(world.target_left, world.advanced(left, right).target_left),
        in_window(world.target_right, world.advanced(left, right).target_right) || in_window(
            world.target_right,
            world.advanced(left, right).target_right - MIN_GAP,
        ),
        left is None ==> world.advanced(left, right).target_left == world.target_left,
        !world.left_arrives() ==> world.advanced(left, right).target_left == world.target_left,
{
}

/// A tick does not move the player.
pub proof fn law_player_stays(world: WorldView, left: Option<int>, right: Option<int>)
    ensures
        world.advanced(left, right).player_column == world.player_column,
        world.advanced(left, right).player_line == world.player_line,
{
}

/// The world after a run of ticks, one pair of redrift choices per tick.
pub open spec fn advanced_through(
    world: WorldView,
    choices: Seq<(Option<int>, Option<int>)>,
) -> WorldView
    decreases choices.len(),
{
    if choices.len() == 0 {
        world
    } else {
        advanced_through(world, choices.drop_last()).advanced(
            choices.last().0,
            choices.last().1,
        )
    }
}

/// A run of ticks never changes the number of rows nor moves the player,
/// so a well-formed world stays well formed.
pub proof fn law_run_keeps_shape(world: WorldView, choices: Seq<(Option<int>, Option<int>)>)
    requires
        world.wf(),
    ensures
        advanced_through(world, choices).wf(),
        advanced_through(world, choices).rows.len() == world.rows.len(),
        advanced_through(world, choices).player_column == world.player_column,
        advanced_through(world, choices).player_line == world.player_line,
    decreases choices.len(),
{
    if choices.len() > 0 {
        law_run_keeps_shape(world, choices.drop_last());
    }
}

/// Through a run of ticks every row stays open at every tick, provided
/// every row was open at the start and the targets were ordered at the
/// start of each tick.
pub proof fn law_rows_open_through_run(world: WorldView, choices: Seq<(Option<int>, Option<int>)>)
    requires
        world.wf(),
        world.open_rows(),
        forall|k: int|
            0 <= k < choices.len() ==> (#[trigger] advanced_through(
                world,
                choices.take(k),
            )).target_left < advanced_through(world, choices.take(k)).target_right,
    ensures
        forall|k: int|
            0 <= k <= choices.len() ==> (#[trigger] advanced_through(
                world,
                choices.take(k),
            )).open_rows(),
        advanced_through(world, choices).open_rows(),
    decreases choices.len(),
{
    if choices.len() > 0 {
        let shorter = choices.drop_last();
        assert forall|k: int| 0 <= k < shorter.len() implies (#[trigger] advanced_through(
            world,
            shorter.take(k),
        )).target_left < advanced_through(world, shorter.take(k)).target_right by {
            assert(shorter.take(k) =~= choices.take(k));
        }
        law_rows_open_through_run(world, shorter);
        law_run_keeps_shape(world, shorter);
        let before = advanced_through(world, shorter);
        law_rows_stay_open_between_ordered_targets(before, choices.last().0, choices.last().1);
        assert forall|k: int| 0 <= k <= choices.len() implies (#[trigger] advanced_through(
            world,
            choices.take(k),
        )).open_rows() by {
            if k < choices.len() {
                assert(shorter.take(k) =~= choices.take(k));
            } else {
                assert(choices.take(k) =~= choices);
            }
        }
    }
}

/// Through a run of ticks in which no target is redrifted, starting with
/// every row open and the targets ordered, every row stays open, the left
/// target stays where it was, and from the first tick on the targets stand
/// at least `MIN_GAP` apart.
pub proof fn law_quiet_run_stays_open(world: WorldView, choices: Seq<(Option<int>, Option<int>)>)
    requires
        world.wf(),
        world.open_rows(),
        world.target_left < world.target_right,
        forall|k: int| 0 <= k < choices.len() ==> #[trigger] choices[k] == (None::<int>, None::<int>),
    ensures
        advanced_through(world, choices).open_rows(),
        advanced_through(world, choices).target_left == world.target_left,
        advanced_through(world, choices).target_right >= world.target_right,
        choices.len() >= 1 ==> advanced_through(world, choices).target_right - advanced_through(
            world,
            choices,
        ).target_left >= MIN_GAP,
    decreases choices.len(),
{
    if choices.len() > 0 {
        let shorter = choices.drop_last();
        law_quiet_run_stays_open(world, shorter);
        law_run_keeps_shape(world, shorter);
        let before = advanced_through(world, shorter);
        law_rows_stay_open_between_ordered_targets(before, None, None);
    }
}

} // verus!
