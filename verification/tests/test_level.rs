use celestial_havoc::test_level::{
    SpawnPoint, TestLevel, FULL_TURN, NEAR_RADIUS, SCATTERED_AT_START, SCATTER_SPAN,
};

#[test]
fn the_spawn_constants() {
    assert_eq!(FULL_TURN, 360);
    assert_eq!(NEAR_RADIUS, 200);
    assert_eq!(SCATTER_SPAN, 3000);
    assert_eq!(SCATTERED_AT_START, 10);
}

#[test]
fn a_near_point_is_two_hundred_away() {
    for draw in [0i64, 1, 359, 360, 725, -1, -360, -361, i64::MAX, i64::MIN] {
        let point = SpawnPoint::near(draw);
        assert_eq!(point.radius, 200);
        assert_eq!(point.angle, draw.rem_euclid(360));
        assert!(0 <= point.angle && point.angle < 360);
    }
}

#[test]
fn near_angles_wrap_into_one_turn() {
    assert_eq!(SpawnPoint::near(0), SpawnPoint { angle: 0, radius: 200 });
    assert_eq!(SpawnPoint::near(359), SpawnPoint { angle: 359, radius: 200 });
    assert_eq!(SpawnPoint::near(360), SpawnPoint { angle: 0, radius: 200 });
    assert_eq!(SpawnPoint::near(725), SpawnPoint { angle: 5, radius: 200 });
    assert_eq!(SpawnPoint::near(-1), SpawnPoint { angle: 359, radius: 200 });
    assert_eq!(SpawnPoint::near(i64::MIN), SpawnPoint { angle: 352, radius: 200 });
    assert_eq!(SpawnPoint::near(i64::MAX), SpawnPoint { angle: 7, radius: 200 });
}

#[test]
fn scattered_points_lie_in_the_ring() {
    assert_eq!(SpawnPoint::scattered(0, 0), SpawnPoint { angle: 0, radius: 200 });
    assert_eq!(SpawnPoint::scattered(725, 2999), SpawnPoint { angle: 5, radius: 3199 });
    assert_eq!(SpawnPoint::scattered(-1, 3000), SpawnPoint { angle: 359, radius: 200 });
    assert_eq!(SpawnPoint::scattered(90, -1), SpawnPoint { angle: 90, radius: 3199 });
    assert_eq!(SpawnPoint::scattered(i64::MIN, i64::MIN), SpawnPoint { angle: 352, radius: 1392 });
    assert_eq!(SpawnPoint::scattered(i64::MAX, i64::MAX), SpawnPoint { angle: 7, radius: 2007 });
}

#[test]
fn scatter_gives_one_point_per_pair_of_draws() {
    let draws = vec![(0i64, 0i64), (725, 2999), (-1, 3000), (180, 1500)];
    assert_eq!(
        SpawnPoint::scatter(&draws),
        vec![
            SpawnPoint { angle: 0, radius: 200 },
            SpawnPoint { angle: 5, radius: 3199 },
            SpawnPoint { angle: 359, radius: 200 },
            SpawnPoint { angle: 180, radius: 1700 },
        ]
    );
}

#[test]
fn scatter_of_no_draws_is_empty() {
    assert_eq!(SpawnPoint::scatter(&Vec::new()), Vec::new());
}

#[test]
fn scatter_at_level_start() {
    let mut draws = Vec::new();
    let mut seed: i64 = 7;
    for _ in 0..SCATTERED_AT_START {
        seed = seed.wrapping_mul(6_364_136_223_846_793_005).wrapping_add(1_442_695_040_888_963_407);
        let angle = seed;
        seed = seed.wrapping_mul(6_364_136_223_846_793_005).wrapping_add(1_442_695_040_888_963_407);
        draws.push((angle, seed));
    }
    let points = SpawnPoint::scatter(&draws);
    assert_eq!(points.len(), 10);
    for (point, draw) in points.iter().zip(draws.iter()) {
        assert_eq!(point.angle, draw.0.rem_euclid(360));
        assert_eq!(point.radius, draw.1.rem_euclid(3000) + 200);
        assert!(200 <= point.radius && point.radius < 3200);
    }
}

#[test]
fn a_new_level_tracks_nothing() {
    let level: TestLevel<&str> = TestLevel::init();
    assert_eq!(level.enemy_count(), 0);
    assert!(!level.is_tracked(1));
}

#[test]
fn a_spawned_enemy_is_tracked_until_it_despawns() {
    let mut level: TestLevel<&str> = TestLevel::init();
    level.spawn_enemy(41, "first");
    assert!(level.is_tracked(41));
    assert_eq!(level.enemy_count(), 1);
    assert_eq!(level.despawn_enemy(41), Some("first"));
    assert!(!level.is_tracked(41));
    assert_eq!(level.enemy_count(), 0);
}

#[test]
fn a_second_despawn_is_a_no_op() {
    let mut level: TestLevel<u32> = TestLevel::init();
    level.spawn_enemy(5, 500);
    level.spawn_enemy(6, 600);
    assert_eq!(level.despawn_enemy(5), Some(500));
    assert_eq!(level.despawn_enemy(5), None);
    assert_eq!(level.enemy_count(), 1);
    assert!(level.is_tracked(6));
}

#[test]
fn despawn_of_an_unknown_enemy_changes_nothing() {
    let mut level: TestLevel<u32> = TestLevel::init();
    level.spawn_enemy(5, 500);
    assert_eq!(level.despawn_enemy(-9), None);
    assert_eq!(level.enemy_count(), 1);
    assert!(level.is_tracked(5));
}

#[test]
fn the_timer_spawns_near_the_player() {
    let mut level: TestLevel<String> = TestLevel::init();
    let point = level.spawn_enemy_near(1085, 77, String::from("enemy"));
    assert_eq!(point, SpawnPoint { angle: 5, radius: 200 });
    assert!(level.is_tracked(77));
    assert_eq!(level.enemy_count(), 1);
    assert_eq!(level.despawn_enemy(77), Some(String::from("enemy")));
}

#[test]
fn a_handle_under_a_known_identity_is_replaced() {
    let mut level: TestLevel<u32> = TestLevel::init();
    level.spawn_enemy(5, 500);
    level.spawn_enemy(5, 501);
    assert_eq!(level.enemy_count(), 1);
    assert_eq!(level.despawn_enemy(5), Some(501));
}

#[test]
fn tracked_are_those_spawned_and_not_despawned_since() {
    let mut level: TestLevel<i64> = TestLevel::init();
    for id in 1..=10i64 {
        level.spawn_enemy(id, id * 10);
    }
    for id in [2i64, 4, 6, 8, 10, 4, 99] {
        level.despawn_enemy(id);
    }
    level.spawn_enemy(4, 44);
    for id in 1..=10i64 {
        assert_eq!(level.is_tracked(id), id % 2 == 1 || id == 4, "id {}", id);
    }
    assert_eq!(level.enemy_count(), 6);
    assert_eq!(level.despawn_enemy(4), Some(44));
}

#[test]
fn the_enemy_count_is_shown_on_every_sixtieth_frame() {
    let mut level: TestLevel<u32> = TestLevel::init();
    level.spawn_enemy(1, 1);
    level.spawn_enemy(2, 2);
    for frame in 1..=59u32 {
        assert_eq!(level.process(), None, "frame {}", frame);
    }
    assert_eq!(level.process(), Some(2));
    level.despawn_enemy(1);
    for _ in 61..=119u32 {
        assert_eq!(level.process(), None);
    }
    assert_eq!(level.process(), Some(1));
}
