use tunnel_game::random::{Entropy, RandomSource, Scripted};
use tunnel_game::tunnel::physics;
use tunnel_game::world::World;

#[test]
fn entropy_picks_within_the_range() {
    let mut source = Entropy::new();
    for _ in 0..2000 {
        let value = source.pick(10, 20);
        assert!((10..20).contains(&value));
    }
    for _ in 0..100 {
        assert_eq!(source.pick(3, 4), 3);
        assert_eq!(source.pick(65534, 65535), 65534);
    }
}

#[test]
fn entropy_picks_more_than_one_value() {
    let mut source = Entropy::new();
    let mut seen = [false; 10];
    for _ in 0..2000 {
        seen[source.pick(0, 10) as usize] = true;
    }
    assert!(seen.iter().all(|hit| *hit));
}

#[test]
fn entropy_drives_a_run() {
    let mut world = World::new(200, 30);
    let mut source = Entropy::new();
    for _ in 0..10 {
        assert!(world.is_ready());
        let before = world.clone();
        world = physics(world, &mut source);
        assert_eq!(world.map.len(), 30);
        for r in 0..29 {
            assert_eq!(world.map[r + 1], before.map[r]);
        }
        assert!(world.next_left + 5 >= before.next_left);
        assert!(world.next_left < before.next_left + 5);
        assert!(world.next_right + 5 >= before.next_right);
        assert!(world.next_right < before.next_right + 5 + 3);
    }
}

#[test]
fn scripted_replays_its_entries_in_order() {
    let mut source = Scripted::new(vec![9, 0, 4]);
    assert_eq!(source.pick(0, 10), 9);
    assert_eq!(source.pick(10, 20), 10);
    assert_eq!(source.pick(10, 20), 14);
    assert_eq!(source.pick(0, 10), 9);
    assert_eq!(source.entries, vec![9, 0, 4]);
}

#[test]
fn scripted_folds_entries_into_the_range() {
    let mut source = Scripted::new(vec![23]);
    assert_eq!(source.pick(5, 8), 7);
    assert_eq!(source.pick(0, 1), 0);
    assert_eq!(source.pick(100, 110), 103);
    let mut source = Scripted::new(vec![65535]);
    assert_eq!(source.pick(65530, 65535), 65530);
}

#[test]
fn scripted_without_entries_gives_the_low_end() {
    let mut source = Scripted::new(Vec::new());
    assert_eq!(source.pick(7, 9), 7);
    assert_eq!(source.pick(0, 10), 0);
    assert_eq!(source.cursor, 0);
}
