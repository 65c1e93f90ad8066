use keep_inside::ball::{Ball, Hit, BASE_VELOCITY, VELOCITY_STEP};

#[test]
fn spawned_ball_has_tier_zero_and_base_speed() {
    let ball = Ball::spawn((0.5f32, -0.5f32));
    assert_eq!(ball.velocity_indicator, 0);
    assert_eq!(ball.mvt_dir, (0.5, -0.5));
    assert_eq!(ball.velocity(), 410);
}

#[test]
fn speed_constants() {
    assert_eq!(BASE_VELOCITY, 410);
    assert_eq!(VELOCITY_STEP, 10);
}

#[test]
fn velocity_grows_by_ten_per_tier() {
    let ball = Ball { mvt_dir: 'n', velocity_indicator: 1 };
    assert_eq!(ball.velocity(), 420);
    let ball = Ball { mvt_dir: 'n', velocity_indicator: 7 };
    assert_eq!(ball.velocity(), 480);
    let ball = Ball { mvt_dir: 'n', velocity_indicator: 100 };
    assert_eq!(ball.velocity(), 1410);
}

#[test]
fn velocity_of_the_highest_tier_fits() {
    let ball = Ball { mvt_dir: (), velocity_indicator: i32::MAX };
    assert_eq!(ball.velocity(), 21_474_836_880);
}

#[test]
fn bounce_raises_tier_by_exactly_one() {
    let mut ball = Ball::spawn("south-east");
    for expected in 1..=25 {
        ball.bounce("anywhere");
        assert_eq!(ball.velocity_indicator, expected);
        assert_eq!(ball.velocity(), 410 + 10 * expected as i64);
    }
}

#[test]
fn bounce_swaps_direction_and_reports_the_old_one() {
    let mut ball = Ball::spawn((1, 0));
    let hit = ball.bounce((-1, 0));
    assert_eq!(hit, Hit { direction: (1, 0) });
    assert_eq!(ball.mvt_dir, (-1, 0));
    let hit = ball.bounce((0, 1));
    assert_eq!(hit.direction, (-1, 0));
    assert_eq!(ball, Ball { mvt_dir: (0, 1), velocity_indicator: 2 });
}

#[test]
fn bounce_reaches_the_highest_tier() {
    let mut ball = Ball { mvt_dir: 0u8, velocity_indicator: i32::MAX - 1 };
    ball.bounce(1);
    assert_eq!(ball.velocity_indicator, i32::MAX);
}

#[test]
fn speed_never_falls_over_a_rally() {
    let mut ball = Ball::spawn(0u8);
    let mut last = ball.velocity();
    for _ in 0..50 {
        ball.bounce(0);
        let now = ball.velocity();
        assert_eq!(now, last + 10);
        last = now;
    }
}
