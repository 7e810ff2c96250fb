use tunnel_game::frame::{draw, Command};
use tunnel_game::game::{intent_for_event, intent_for_key, Game, Intent, KeyKind, Phase};
use tunnel_game::random::Scripted;
use tunnel_game::world::World;

fn quiet() -> Scripted {
    Scripted::new(vec![0])
}

#[test]
fn new_world_is_centred() {
    let world = World::new(40, 20);
    assert_eq!(world.player_column, 20);
    assert_eq!(world.player_line, 19);
    assert_eq!(world.map.len(), 20);
    assert!(world.map.iter().all(|row| *row == (15, 25)));
    assert!(!world.player_is_dead);
    assert_eq!(world.next_left, 14);
    assert_eq!(world.next_right, 27);
}

#[test]
fn new_world_on_the_smallest_playfield() {
    let world = World::new(12, 1);
    assert_eq!(world.player_column, 6);
    assert_eq!(world.player_line, 0);
    assert_eq!(world.map, vec![(1, 11)]);
    assert_eq!(world.next_left, 0);
    assert_eq!(world.next_right, 13);
}

#[test]
fn new_world_on_an_odd_width() {
    let world = World::new(81, 3);
    assert_eq!(world.player_column, 40);
    assert_eq!(world.map, vec![(35, 45); 3]);
    assert_eq!((world.next_left, world.next_right), (34, 47));
}

#[test]
fn keys_map_to_intents() {
    assert_eq!(intent_for_key('q'), Some(Intent::Quit));
    assert_eq!(intent_for_key('w'), Some(Intent::MoveUp));
    assert_eq!(intent_for_key('s'), Some(Intent::MoveDown));
    assert_eq!(intent_for_key('a'), Some(Intent::MoveLeft));
    assert_eq!(intent_for_key('d'), Some(Intent::MoveRight));
}

#[test]
fn other_keys_mean_nothing() {
    assert_eq!(intent_for_key('x'), None);
    assert_eq!(intent_for_key('Q'), None);
    assert_eq!(intent_for_key('W'), None);
    assert_eq!(intent_for_key(' '), None);
}

#[test]
fn only_a_press_counts() {
    assert_eq!(intent_for_event(KeyKind::Press, 'a'), Some(Intent::MoveLeft));
    assert_eq!(intent_for_event(KeyKind::Press, 'q'), Some(Intent::Quit));
    assert_eq!(intent_for_event(KeyKind::Press, 'z'), None);
    assert_eq!(intent_for_event(KeyKind::Repeat, 'a'), None);
    assert_eq!(intent_for_event(KeyKind::Release, 'a'), None);
    assert_eq!(intent_for_event(KeyKind::Release, 'q'), None);
}

#[test]
fn steer_moves_one_cell() {
    let mut world = World::new(40, 20);
    world.player_line = 10;
    world.steer(Intent::MoveLeft, 40);
    assert_eq!((world.player_column, world.player_line), (19, 10));
    world.steer(Intent::MoveUp, 40);
    assert_eq!((world.player_column, world.player_line), (19, 9));
    world.steer(Intent::MoveRight, 40);
    assert_eq!((world.player_column, world.player_line), (20, 9));
    world.steer(Intent::MoveDown, 40);
    assert_eq!((world.player_column, world.player_line), (20, 10));
    world.steer(Intent::Quit, 40);
    assert_eq!((world.player_column, world.player_line), (20, 10));
}

#[test]
fn steer_stops_at_the_edges() {
    let mut world = World::new(40, 20);
    world.steer(Intent::MoveDown, 40);
    assert_eq!(world.player_line, 19);
    world.player_line = 0;
    world.steer(Intent::MoveUp, 40);
    assert_eq!(world.player_line, 0);
    world.player_column = 0;
    world.steer(Intent::MoveLeft, 40);
    assert_eq!(world.player_column, 0);
    world.player_column = 39;
    world.steer(Intent::MoveRight, 40);
    assert_eq!(world.player_column, 39);
    world.player_column = 38;
    world.steer(Intent::MoveRight, 40);
    assert_eq!(world.player_column, 39);
}

#[test]
fn steer_leaves_the_tunnel_alone() {
    let mut world = World::new(40, 20);
    let before = world.clone();
    world.steer(Intent::MoveLeft, 40);
    assert_eq!(world.map, before.map);
    assert_eq!(world.next_left, before.next_left);
    assert_eq!(world.next_right, before.next_right);
    assert_eq!(world.player_is_dead, before.player_is_dead);
}

#[test]
fn new_game_is_running() {
    let game = Game::new(40, 20);
    assert_eq!(game.phase, Phase::Running);
    assert_eq!(game.max_column, 40);
    assert_eq!(game.world, World::new(40, 20));
    assert!(game.is_playable(None));
    assert!(game.is_playable(Some(Intent::Quit)));
}

#[test]
fn quitting_ends_the_game_without_a_tick() {
    let game = Game::new(40, 20);
    let (done, frame) = game.clone().turn(Some(Intent::Quit), &mut quiet());
    assert_eq!(done.phase, Phase::Ended);
    assert_eq!(frame, None);
    assert_eq!(done.world, game.world);
    assert_eq!(done.max_column, 40);
}

#[test]
fn a_turn_without_input_ticks_and_draws() {
    let (done, frame) = Game::new(40, 20).turn(None, &mut quiet());
    assert_eq!(done.phase, Phase::Running);
    assert_eq!(done.world.map[0], (14, 26));
    assert_eq!(done.world.map[1], (15, 25));
    assert_eq!(frame, Some(draw(&done.world, 40)));
}

#[test]
fn a_turn_steers_before_it_ticks() {
    let mut game = Game::new(40, 20);
    game.world.player_column = 15;
    // One step left leaves the gap [15, 25): the player dies in this turn.
    let (done, frame) = game.clone().turn(Some(Intent::MoveLeft), &mut quiet());
    assert_eq!(done.world.player_column, 14);
    assert!(done.world.player_is_dead);
    assert_eq!(done.phase, Phase::Ended);
    // The last frame is still drawn.
    let frame = frame.unwrap();
    assert_eq!(frame.len(), 1 + 4 * 20 + 2);
    assert_eq!(frame[81], Command::MoveTo { column: 14, row: 19 });
    // One step right stays inside.
    let (done, _) = game.turn(Some(Intent::MoveRight), &mut quiet());
    assert_eq!(done.world.player_column, 16);
    assert!(!done.world.player_is_dead);
    assert_eq!(done.phase, Phase::Running);
}

#[test]
fn an_ended_game_stays_as_it_is() {
    let (ended, _) = Game::new(40, 20).turn(Some(Intent::Quit), &mut quiet());
    for intent in [None, Some(Intent::MoveLeft), Some(Intent::Quit)] {
        assert!(ended.is_playable(intent));
        let (after, frame) = ended.clone().turn(intent, &mut quiet());
        assert_eq!(after, ended);
        assert_eq!(frame, None);
    }
}

#[test]
fn a_run_ends_when_the_tunnel_leaves_the_player() {
    // The targets pull the tunnel to the right while the player stays put.
    let mut game = Game::new(40, 3);
    game.world.next_left = 30;
    game.world.next_right = 40;
    let mut source = quiet();
    let mut turns = 0;
    while game.phase == Phase::Running {
        assert!(game.is_playable(None));
        let (next, frame) = game.turn(None, &mut source);
        assert!(frame.is_some());
        game = next;
        turns += 1;
        assert!(turns < 100);
    }
    // The top row's left wall passes column 20 after six ticks, that row
    // reaches the player two ticks later, and the tick after that sees it.
    assert_eq!(turns, 9);
    assert!(game.world.player_is_dead);
}

#[test]
fn a_turn_cannot_be_played_once_a_window_leaves_the_columns() {
    let mut game = Game::new(40, 20);
    game.world.next_left = 3;
    game.world.map[0].0 = 4;
    assert!(!game.is_playable(None));
    assert!(!game.is_playable(Some(Intent::MoveUp)));
    // Quitting advances nothing, so it is always possible.
    assert!(game.is_playable(Some(Intent::Quit)));
    game.phase = Phase::Ended;
    assert!(game.is_playable(None));
}

#[test]
fn is_wf_needs_a_row_under_the_player() {
    let mut world = World::new(40, 20);
    assert!(world.is_wf());
    world.player_line = 19;
    assert!(world.is_wf());
    world.player_line = 20;
    assert!(!world.is_wf());
    world.map.clear();
    world.player_line = 0;
    assert!(!world.is_wf());
    world.map.push((1, 2));
    assert!(world.is_wf());
}
