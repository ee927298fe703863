use asteroids::entities::Asteroid;
use asteroids::entities::Bullet;
use asteroids::entities::Player;
use asteroids::game::Command;
use asteroids::game::Game;
use asteroids::game::SoundId;

fn marker_asteroid(x: i64, y: i64, vx: i64, vy: i64, size: i64) -> Asteroid {
    Asteroid { x, y, vx, vy, size, should_remove: false }
}

#[test]
fn fresh_game_state() {
    let g = Game::new(1);
    assert!(!g.is_over);
    assert_eq!(g.frame, 0);
    assert_eq!(g.score, 0);
    assert_eq!(g.asteroids.len(), 0);
    assert_eq!(g.bullets.len(), 0);
    assert_eq!(g.requested_sounds.len(), 0);
    assert_eq!(g.player.x, 310_000);
    assert_eq!(g.player.y, 200_000);
    assert_eq!(g.player.rot, 90_000);
    assert_eq!(g.player.velocity, 0);
    assert_eq!(g.player.vrot, 0);
}

#[test]
fn forward_one_frame_sets_decayed_thrust() {
    // One thrust impulse: the ship moves one impulse along its heading
    // (facing up, so y falls by 1000), and the speed ends decayed once.
    let mut g = Game::new(7);
    g.update(Command::Forward);
    assert_eq!(g.player.velocity, 970);
    assert_eq!(g.player.x, 310_000);
    assert_eq!(g.player.y, 199_000);
    assert_eq!(g.player.rot, 90_000);
    assert_eq!(g.frame, 1);
    assert_eq!(g.score, 0);
}

#[test]
fn left_turn_rotates_and_decays_turn_rate() {
    let mut g = Game::new(7);
    g.update(Command::Left);
    assert_eq!(g.player.rot, 95_000);
    assert_eq!(g.player.vrot, 4_850);
    let mut g2 = Game::new(7);
    g2.update(Command::Right);
    assert_eq!(g2.player.rot, 85_000);
    assert_eq!(g2.player.vrot, -4_850);
}

#[test]
fn shoot_creates_bullet_at_player_center() {
    let mut g = Game::new(7);
    g.shoot();
    assert_eq!(g.bullets.len(), 1);
    let b = &g.bullets[0];
    assert_eq!(b.x, 320_000);
    assert_eq!(b.y, 210_000);
    assert_eq!(b.vx, 0);
    assert_eq!(b.vy, -4_000);
    assert!(!b.should_remove);
}

#[test]
fn shoot_is_noop_at_cap() {
    let mut g = Game::new(7);
    g.shoot();
    g.shoot();
    g.shoot();
    assert_eq!(g.bullets.len(), 3);
    g.shoot();
    assert_eq!(g.bullets.len(), 3);
}

#[test]
fn shoot_command_with_three_live_bullets_adds_no_fourth() {
    let mut g = Game::new(7);
    g.update(Command::Shoot);
    g.update(Command::Shoot);
    g.update(Command::Shoot);
    assert_eq!(g.bullets.len(), 3);
    g.update(Command::Shoot);
    assert_eq!(g.bullets.len(), 3);
}

#[test]
fn bullet_asteroid_collision_scores_and_removes_pair() {
    let mut g = Game::new(7);
    g.asteroids.push(marker_asteroid(100_000, 100_000, 0, 0, 7_000));
    g.bullets.push(Bullet { x: 100_000, y: 100_000, vx: 0, vy: 0, should_remove: false });
    g.update(Command::Idle);
    assert_eq!(g.score, 100);
    assert_eq!(g.bullets.len(), 0);
    assert!(g.asteroids.iter().all(|a| a.size != 7_000));
    assert!(!g.is_over);
    assert_eq!(g.requested_sounds.len(), 0);
}

#[test]
fn one_bullet_overlapping_two_asteroids_scores_both() {
    let mut g = Game::new(7);
    g.asteroids.push(marker_asteroid(100_000, 100_000, 0, 0, 7_000));
    g.asteroids.push(marker_asteroid(104_000, 104_000, 0, 0, 7_000));
    g.bullets.push(Bullet { x: 101_000, y: 101_000, vx: 0, vy: 0, should_remove: false });
    g.update(Command::Idle);
    assert_eq!(g.score, 200);
    assert_eq!(g.bullets.len(), 0);
    assert!(g.asteroids.iter().all(|a| a.size != 7_000));
}

#[test]
fn hazard_overlapping_player_ends_game_with_one_crash_sound() {
    let mut g = Game::new(7);
    g.asteroids.push(marker_asteroid(310_000, 200_000, 0, 0, 20_000));
    g.update(Command::Idle);
    assert!(g.is_over);
    assert_eq!(g.requested_sounds.len(), 1);
    assert_eq!(g.requested_sounds[0], SoundId::Crash);
}

#[test]
fn game_over_freezes_everything() {
    let mut g = Game::new(7);
    g.asteroids.push(marker_asteroid(310_000, 200_000, 0, 0, 20_000));
    g.update(Command::Idle);
    assert!(g.is_over);
    let frame = g.frame;
    let score = g.score;
    let player: Player = g.player;
    let asteroids = g.asteroids.clone();
    let bullets = g.bullets.clone();
    let sounds = g.requested_sounds.len();
    for _ in 0..3 {
        g.update(Command::Idle);
        g.update(Command::Left);
        g.update(Command::Right);
        g.update(Command::Forward);
        g.update(Command::Shoot);
    }
    assert!(g.is_over);
    assert_eq!(g.frame, frame);
    assert_eq!(g.score, score);
    assert_eq!(g.player, player);
    assert_eq!(g.asteroids, asteroids);
    assert_eq!(g.bullets, bullets);
    assert_eq!(g.requested_sounds.len(), sounds);
}

#[test]
fn destroyed_hazard_still_crashes_player_same_frame() {
    // Accepted edge case: a hazard that dies to a bullet this frame can
    // still simultaneously register as colliding with the player.
    let mut g = Game::new(7);
    g.asteroids.push(marker_asteroid(310_000, 200_000, 0, 0, 20_000));
    g.bullets.push(Bullet { x: 312_000, y: 202_000, vx: 0, vy: 0, should_remove: false });
    g.update(Command::Idle);
    assert_eq!(g.score, 100);
    assert_eq!(g.bullets.len(), 0);
    assert!(g.is_over);
    assert_eq!(g.requested_sounds.len(), 1);
}

#[test]
fn idle_frame_only_advances_the_counter() {
    let mut g = Game::new(7);
    g.update(Command::Idle);
    assert_eq!(g.frame, 1);
    assert_eq!(g.score, 0);
    assert_eq!(g.player.x, 310_000);
    assert_eq!(g.player.y, 200_000);
    assert_eq!(g.player.velocity, 0);
    assert_eq!(g.player.rot, 90_000);
    assert!(!g.is_over);
    assert_eq!(g.bullets.len(), 0);
}

#[test]
fn asteroid_leaving_field_is_flagged_then_absent() {
    let mut a = marker_asteroid(639_000, 200_000, 5_000, 0, 7_000);
    a.do_move();
    assert!(a.should_remove);
    assert_eq!(a.x, 644_000);

    let mut g = Game::new(7);
    g.asteroids.push(marker_asteroid(639_000, 200_000, 5_000, 0, 7_000));
    g.update(Command::Idle);
    assert!(g.asteroids.iter().all(|h| h.size != 7_000));
    assert!(g.asteroids.iter().all(|h| !h.should_remove));
}

#[test]
fn bullet_leaving_field_is_flagged_then_absent() {
    let mut b = Bullet { x: 1_000, y: 1_000, vx: -4_000, vy: 0, should_remove: false };
    b.do_move();
    assert!(b.should_remove);
    assert_eq!(b.x, -3_000);

    let mut g = Game::new(7);
    g.bullets.push(Bullet { x: 1_000, y: 1_000, vx: -4_000, vy: 0, should_remove: false });
    g.update(Command::Idle);
    assert_eq!(g.bullets.len(), 0);
}

#[test]
fn population_cap_holds_over_many_frames() {
    let mut g = Game::new(3);
    for _ in 0..400 {
        g.update(Command::Idle);
        assert!(g.asteroids.len() <= 30);
        assert!(g.bullets.len() <= 3);
    }
}

#[test]
fn population_cap_holds_at_the_limit() {
    let mut g = Game::new(5);
    while g.asteroids.len() < 30 {
        g.spawn_asteroid();
    }
    assert_eq!(g.asteroids.len(), 30);
    for _ in 0..50 {
        g.update(Command::Idle);
        assert!(g.asteroids.len() <= 30);
    }
}

#[test]
fn spawned_asteroids_stay_in_range_and_move_inward() {
    let mut g = Game::new(11);
    for _ in 0..25 {
        g.spawn_asteroid();
        let a = g.asteroids.last().unwrap();
        assert!(8_000 <= a.size && a.size < 23_000);
        assert!(-5_000 <= a.vx && a.vx <= 5_000);
        assert!(-5_000 <= a.vy && a.vy <= 5_000);
        assert!(0 <= a.x && a.x <= 640_000);
        assert!(0 <= a.y && a.y <= 420_000);
        assert!(!a.should_remove);
        let inward = (a.x == 0 && a.vx > 0)
            || (a.x == 639_000 && a.vx <= 0)
            || (a.y == 0 && a.vy > 0)
            || (a.y == 419_000 && a.vy <= 0);
        assert!(inward);
    }
    let mut g2 = Game::new(12);
    for _ in 0..25 {
        g2.spawn_asteroid();
    }
    assert_eq!(g2.asteroids.len(), 25);
}

#[test]
fn same_seed_gives_same_run() {
    let script = [
        Command::Forward,
        Command::Left,
        Command::Shoot,
        Command::Idle,
        Command::Right,
        Command::Shoot,
        Command::Idle,
        Command::Forward,
    ];
    let mut g1 = Game::new(42);
    let mut g2 = Game::new(42);
    for k in 0..120 {
        let c = script[k % script.len()];
        g1.update(c);
        g2.update(c);
    }
    assert_eq!(g1.frame, g2.frame);
    assert_eq!(g1.score, g2.score);
    assert_eq!(g1.is_over, g2.is_over);
    assert_eq!(g1.player, g2.player);
    assert_eq!(g1.asteroids, g2.asteroids);
    assert_eq!(g1.bullets, g2.bullets);
}

#[test]
fn player_wraps_around_the_field() {
    // Drive the ship upward long enough to cross the top edge: with the
    // toroidal policy it must re-enter from the bottom, never leave
    // [0, height].
    let mut g = Game::new(9);
    for _ in 0..600 {
        g.update(Command::Forward);
        if g.is_over {
            return;
        }
        assert!(0 <= g.player.x && g.player.x <= 640_000);
        assert!(0 <= g.player.y && g.player.y <= 420_000);
        assert!(0 <= g.player.rot && g.player.rot < 360_000);
    }
}
