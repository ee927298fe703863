use asteroids::collision::is_collide;
use asteroids::kinematics::advance_angle;
use asteroids::kinematics::cos_mdeg;
use asteroids::kinematics::deg2rad;
use asteroids::kinematics::min_max_loop;
use asteroids::kinematics::sin_mdeg;

#[test]
fn advance_angle_stays_normalized() {
    let cases: Vec<(i64, i64)> = vec![
        (0, 0),
        (90_000, 5_000),
        (350_000, 20_000),
        (10_000, -20_000),
        (0, -360_000),
        (0, 725_000),
        (-10_000, 0),
        (359_999, 1),
        (123_456, -999_999),
    ];
    for (c, d) in cases {
        let r = advance_angle(c, d);
        assert!(0 <= r && r < 360_000);
    }
}

#[test]
fn advance_angle_exact_values() {
    assert_eq!(advance_angle(90_000, 5_000), 95_000);
    assert_eq!(advance_angle(350_000, 20_000), 10_000);
    assert_eq!(advance_angle(10_000, -20_000), 350_000);
    assert_eq!(advance_angle(0, -360_000), 0);
    assert_eq!(advance_angle(0, 725_000), 5_000);
    assert_eq!(advance_angle(-10_000, 0), 350_000);
}

#[test]
fn sin_exact_values() {
    assert_eq!(sin_mdeg(0), 0);
    assert_eq!(sin_mdeg(30_000), 500);
    assert_eq!(sin_mdeg(90_000), 1000);
    assert_eq!(sin_mdeg(150_000), 500);
    assert_eq!(sin_mdeg(180_000), 0);
    assert_eq!(sin_mdeg(270_000), -1000);
}

#[test]
fn cos_exact_values() {
    assert_eq!(cos_mdeg(0), 1000);
    assert_eq!(cos_mdeg(90_000), 0);
    assert_eq!(cos_mdeg(180_000), -1000);
    assert_eq!(cos_mdeg(270_000), 0);
}

#[test]
fn sin_is_close_to_the_real_sine() {
    // sin 45 = 0.7071...; the approximation gives 0.705
    assert_eq!(sin_mdeg(45_000), 705);
    for a in 0..360 {
        let r = sin_mdeg(a * 1000);
        assert!(-1000 <= r && r <= 1000);
        let f = (a as f64).to_radians().sin();
        assert!((r as f64 / 1000.0 - f).abs() < 0.005);
    }
}

#[test]
fn deg2rad_exact_values() {
    assert_eq!(deg2rad(0), 0);
    assert_eq!(deg2rad(90_000), 1570);
    assert_eq!(deg2rad(360_000), 6283);
    assert_eq!(deg2rad(-90_000), -1570);
}

#[test]
fn wrap_exact_values() {
    assert_eq!(min_max_loop(0, -500, 640_000), 639_500);
    assert_eq!(min_max_loop(0, 640_500, 640_000), 500);
    assert_eq!(min_max_loop(0, 300, 640_000), 300);
    assert_eq!(min_max_loop(0, 0, 640_000), 0);
    assert_eq!(min_max_loop(0, 640_000, 640_000), 640_000);
}

#[test]
fn collide_touching_edges_count() {
    assert!(is_collide(0, 0, 10, 10, 10, 10, 5, 5));
    assert!(!is_collide(0, 0, 10, 10, 11, 0, 5, 5));
    assert!(is_collide(100, 100, 20, 20, 95, 95, 10, 10));
}

#[test]
fn collide_is_symmetric() {
    let rects: Vec<(i64, i64, i64, i64)> = vec![
        (0, 0, 10, 10),
        (10, 10, 5, 5),
        (11, 0, 5, 5),
        (-3, 7, 2, 9),
        (100, 100, 20, 20),
    ];
    for &(x1, y1, w1, h1) in &rects {
        for &(x2, y2, w2, h2) in &rects {
            assert_eq!(
                is_collide(x1, y1, w1, h1, x2, y2, w2, h2),
                is_collide(x2, y2, w2, h2, x1, y1, w1, h1),
            );
        }
    }
}
