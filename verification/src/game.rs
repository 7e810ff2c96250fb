//! One turn of the game loop: what a key means, how the player is steered
//! within the playfield, and what a turn does to the world.

use crate::canvas::{picture, Canvas};
use crate::frame::{draw, frame_strokes, strokes, Command};
use crate::random::RandomSource;
use crate::tunnel::physics;
use crate::world::{fresh, World, WorldView, MIN_COLUMNS};
use vstd::prelude::*;

verus! {

/// What the player asks for.
#[derive(Clone, Copy, Debug, PartialEq, Eq, Structural)]
pub enum Intent {
    MoveUp,
    MoveDown,
    MoveLeft,
    MoveRight,
    Quit,
}

/// Whether the game goes on.
#[derive(Clone, Copy, Debug, PartialEq, Eq, Structural)]
pub enum Phase {
    Running,
    Ended,
}

/// The intent that a key stands for.
pub open spec fn key_intent(key: char) -> Option<Intent> {
    if key == 'q' {
        Some(Intent::Quit)
    } else if key == 'w' {
        Some(Intent::MoveUp)
    } else if key == 's' {
        Some(Intent::MoveDown)
    } else if key == 'a' {
        Some(Intent::MoveLeft)
    } else if key == 'd' {
        Some(Intent::MoveRight)
    } else {
        None
    }
}

/// Reads a pressed key as an intent: `q` quits, `w`, `s`, `a` and `d`
/// move up, down, left and right, and every other key means nothing.
pub fn intent_for_key(key: char) -> (intent: Option<Intent>)
    ensures
        intent == key_intent(key),
{
    if key == 'q' {
        Some(Intent::Quit)
    } else if key == 'w' {
        Some(Intent::MoveUp)
    } else if key == 's' {
        Some(Intent::MoveDown)
    } else if key == 'a' {
        Some(Intent::MoveLeft)
    } else if key == 'd' {
        Some(Intent::MoveRight)
    } else {
        None
    }
}

/// How a key event came about.
#[derive(Clone, Copy, Debug, PartialEq, Eq, Structural)]
pub enum KeyKind {
    Press,
    Repeat,
    Release,
}

/// The intent that a key event stands for: that of its key if the key was
/// pressed, none if it repeats or was released.
pub open spec fn event_intent(kind: KeyKind, key: char) -> Option<Intent> {
    if kind == KeyKind::Press {
        key_intent(key)
    } else {
        None
    }
}

/// Reads a key event as an intent. Only a press counts.
pub fn intent_for_event(kind: KeyKind, key: char) -> (intent: Option<Intent>)
    ensures
        intent == event_intent(kind, key),
{
    match kind {
        KeyKind::Press => intent_for_key(key),
        _ => None,
    }
}

impl WorldView {
    /// The world after the player has been steered: one cell in the
    /// direction asked for, unless that would leave the rows on screen or
    /// the columns `[0, max_column)`. Quitting moves nothing.
    pub open spec fn steered(self, intent: Intent, max_column: int) -> WorldView {
        match intent {
            Intent::MoveUp => WorldView {
                player_line: if self.player_line > 0 {
                    self.player_line - 1
                } else {
                    self.player_line
                },
                ..self
            },
            Intent::MoveDown => WorldView {
                player_line: if self.player_line < self.rows.len() - 1 {
                    self.player_line + 1
                } else {
                    self.player_line
                },
                ..self
            },
            Intent::MoveLeft => WorldView {
                player_column: if self.player_column > 0 {
                    self.player_column - 1
                } else {
                    self.player_column
                },
                ..self
            },
            Intent::MoveRight => WorldView {
                player_column: if self.player_column < max_column - 1 {
                    self.player_column + 1
                } else {
                    self.player_column
                },
                ..self
            },
            Intent::Quit => self,
        }
    }
}

impl World {
    /// Steers the player one cell within the playfield.
    pub fn steer(&mut self, intent: Intent, max_column: u16)
        requires
            old(self).wf(),
        ensures
            final(self)@ == old(self)@.steered(intent, max_column as int),
            final(self).wf(),
            final(self).map == old(self).map,
    {
        match intent {
            Intent::MoveUp => {
                if self.player_line > 0 {
                    self.player_line -= 1;
                }
            },
            Intent::MoveDown => {
                if (self.player_line as usize) < self.map.len() - 1 {
                    self.player_line += 1;
                }
            },
            Intent::MoveLeft => {
                if self.player_column > 0 {
                    self.player_column -= 1;
                }
            },
            Intent::MoveRight => {
                if max_column > 0 && self.player_column < max_column - 1 {
                    self.player_column += 1;
                }
            },
            Intent::Quit => {},
        }
    }
}

/// The world as a turn hands it to the tick: steered when the turn came
/// with an intent, untouched otherwise.
pub open spec fn after_input(world: WorldView, intent: Option<Intent>, max_column: int) -> WorldView {
    match intent {
        Some(intent) => world.steered(intent, max_column),
        None => world,
    }
}

/// A game: its world, the width of the playfield, and whether it goes on.
#[derive(Clone, Debug, PartialEq, Eq)]
pub struct Game {
    /// The world as the last turn left it.
    pub world: World,
    /// The number of columns of the playfield.
    pub max_column: u16,
    /// Whether another turn follows.
    pub phase: Phase,
}

/// A game as plain mathematics.
pub struct GameView {
    pub world: WorldView,
    pub max_column: int,
    pub phase: Phase,
}

impl View for Game {
    type V = GameView;

    open spec fn view(&self) -> GameView {
        GameView { world: self.world@, max_column: self.max_column as int, phase: self.phase }
    }
}

impl GameView {
    /// A turn with this intent advances the world and draws a frame: the
    /// game is running and is not asked to quit.
    pub open spec fn ticks(self, intent: Option<Intent>) -> bool {
        self.phase == Phase::Running && intent != Some(Intent::Quit)
    }

    /// The game one turn later, given the redrift choices. An ended game
    /// stays as it is. An intent to quit ends the game and leaves the
    /// world alone. Otherwise the player is steered if an intent came, and
    /// the world advances by one tick; the game ends if the player is dead
    /// after it.
    pub open spec fn played(
        self,
        intent: Option<Intent>,
        left: Option<int>,
        right: Option<int>,
    ) -> GameView {
        if self.phase == Phase::Ended {
            self
        } else if intent == Some(Intent::Quit) {
            GameView { phase: Phase::Ended, ..self }
        } else {
            let world = after_input(self.world, intent, self.max_column).advanced(left, right);
            GameView {
                world,
                max_column: self.max_column,
                phase: if world.dead {
                    Phase::Ended
                } else {
                    Phase::Running
                },
            }
        }
    }
}

impl Game {
    /// The game is well formed: its world is.
    pub open spec fn wf(&self) -> bool {
        self.world.wf()
    }

    /// A turn with this intent can be played: the game is well formed,
    /// and its world is ready to advance if the turn is to advance it.
    pub open spec fn can_play(&self, intent: Option<Intent>) -> bool {
        &&& self.wf()
        &&& self@.ticks(intent) ==> self.world.ready()
    }

    /// Tells whether a turn with this intent can be played.
    pub fn is_playable(&self, intent: Option<Intent>) -> (ok: bool)
        ensures
            ok == self.can_play(intent),
    {
        let quits: bool = match intent {
            Some(Intent::Quit) => true,
            _ => false,
        };
        match self.phase {
            Phase::Ended => self.world.is_wf(),
            Phase::Running => if quits {
                self.world.is_wf()
            } else {
                self.world.is_ready()
            },
        }
    }

    /// A running game with a fresh world for a playfield of `max_column`
    /// by `max_line` cells.
    pub fn new(max_column: u16, max_line: u16) -> (game: Game)
        requires
            max_column >= MIN_COLUMNS,
            max_line >= 1,
        ensures
            game.wf(),
            game.phase == Phase::Running,
            game.max_column == max_column,
            game.world@ == fresh(max_column as int, max_line as int),
    {
        Game { world: World::new(max_column, max_line), max_column, phase: Phase::Running }
    }

    /// Plays one turn and hands back the game after it, with the frame to
    /// show if the turn drew one. A turn of an ended game, and a turn
    /// that quits, draw nothing; every other turn advances the world by
    /// one tick, with chance deciding the redrift, and draws the world it
    /// leaves.
    pub fn turn<R: RandomSource>(self, intent: Option<Intent>, rng: &mut R) -> (done: (
        Game,
        Option<Vec<Command>>,
    ))
        requires
            self.can_play(intent),
        ensures
            done.0.wf(),
            exists|left: Option<int>, right: Option<int>|
                {
                    &&& self@.ticks(intent) ==> after_input(
                        self@.world,
                        intent,
                        self@.max_column,
                    ).permits(left, right)
                    &&& done.0@ == #[trigger] self@.played(intent, left, right)
                },
            !self@.ticks(intent) ==> done.0@ == self@.played(intent, None, None),
            !self@.ticks(intent) ==> done.1 is None,
            self@.ticks(intent) ==> (done.1 matches Some(frame) && strokes(frame@) == frame_strokes(
                done.0@.world,
                self@.max_column,
            )),
            self@.ticks(intent) ==> (done.1 matches Some(frame) && forall|canvas: Canvas| #[trigger]
                canvas.painted(strokes(frame@)).cells == picture(done.0@.world, self@.max_column)),
    {
        let max_column: u16 = self.max_column;
        let mut steered: World = self.world;
        match self.phase {
            Phase::Ended => {
                let rests = Game { world: steered, max_column, phase: Phase::Ended };
                assert(rests@ == self@.played(intent, None, None));
                return (rests, None);
            },
            Phase::Running => {},
        }
        match intent {
            Some(Intent::Quit) => {
                let quits = Game { world: steered, max_column, phase: Phase::Ended };
                assert(quits@ == self@.played(intent, None, None));
                return (quits, None);
            },
            Some(direction) => {
                steered.steer(direction, max_column);
            },
            None => {},
        }
        assert(steered@ == after_input(self@.world, intent, max_column as int));
        let world = physics(steered, rng);
        let frame = draw(&world, max_column);
        let phase = if world.player_is_dead {
            Phase::Ended
        } else {
            Phase::Running
        };
        let next = Game { world, max_column, phase };
        proof {
            let before = after_input(self@.world, intent, max_column as int);
            let (left, right) = choose|left: Option<int>, right: Option<int>|
                before.permits(left, right) && next.world@ == #[trigger] before.advanced(
                    left,
                    right,
                );
            assert(next@ == self@.played(intent, left, right));
        }
        (next, Some(frame))
    }
}

/// An ended game stays ended, whatever the turn brings: no turn changes
/// it.
pub proof fn law_ended_stays_ended(
    game: GameView,
    intent: Option<Intent>,
    left: Option<int>,
    right: Option<int>,
)
    requires
        game.phase == Phase::Ended,
    ensures
        game.played(intent, left, right) == game,
{
}

/// A running game ends in a turn exactly when that turn quits or leaves
/// the player dead.
pub proof fn law_game_ends_on_quit_or_death(
    game: GameView,
    intent: Option<Intent>,
    left: Option<int>,
    right: Option<int>,
)
    requires
        game.phase == Phase::Running,
    ensures
        game.played(intent, left, right).phase == Phase::Ended <==> intent == Some(Intent::Quit)
            || game.played(intent, left, right).world.dead,
        intent == Some(Intent::Quit) ==> game.played(intent, left, right).world == game.world,
{
}

/// Steering keeps the player within the rows on screen, and within the
/// columns of the playfield if the player stood within them.
pub proof fn law_steering_stays_in_bounds(world: WorldView, intent: Intent, max_column: int)
    requires
        world.wf(),
    ensures
        world.steered(intent, max_column).wf(),
        0 <= world.player_column < max_column ==> 0 <= world.steered(
            intent,
            max_column,
        ).player_column < max_column,
        world.steered(intent, max_column).rows == world.rows,
        world.steered(intent, max_column).dead == world.dead,
        world.steered(intent, max_column).target_left == world.target_left,
        world.steered(intent, max_column).target_right == world.target_right,
{
}

} // verus!
