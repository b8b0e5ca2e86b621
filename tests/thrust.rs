use thrust2d::movement::{Direction, Movement};
use thrust2d::thrust::{BodyHandle, SpaceshipForceGenerator, Thrust, ACCELERATION_MAGNITUDE};

#[test]
fn new_keeps_body_and_intent() {
    let g = SpaceshipForceGenerator::new(BodyHandle { index: 3 }, Movement::Left);
    assert_eq!(g.body_handle(), BodyHandle { index: 3 });
    assert_eq!(g.movement(), Movement::Left);
}

#[test]
fn set_movement_keeps_body() {
    let mut g = SpaceshipForceGenerator::new(BodyHandle { index: 1 }, Movement::Right);
    g.set_movement(Movement::DownLeft);
    assert_eq!(g.movement(), Movement::DownLeft);
    assert_eq!(g.body_handle(), BodyHandle { index: 1 });
}

#[test]
fn stop_thrust_is_zero() {
    let g = SpaceshipForceGenerator::new(BodyHandle { index: 0 }, Movement::Stop);
    let t = g.thrust();
    assert_eq!(t.direction, Direction { x: 0, y: 0, norm_squared: 0 });
    assert!(t.keep_active);
}

#[test]
fn right_thrust_is_along_x() {
    let g = SpaceshipForceGenerator::new(BodyHandle { index: 0 }, Movement::Right);
    assert_eq!(
        g.thrust(),
        Thrust {
            body: BodyHandle { index: 0 },
            direction: Direction { x: 1, y: 0, norm_squared: 1 },
            magnitude: 250,
            keep_active: true,
        }
    );
}

#[test]
fn right_thrust_accumulates_velocity_along_x() {
    // Integrate the commanded acceleration as a body of any mass would feel it.
    let g = SpaceshipForceGenerator::new(BodyHandle { index: 0 }, Movement::Right);
    let dt = 1.0f64 / 60.0;
    let (mut vx, mut vy) = (0.0f64, 0.0f64);
    for _ in 0..10 {
        let t = g.thrust();
        let n = (t.direction.norm_squared as f64).sqrt();
        let before = vx;
        vx += t.magnitude as f64 * t.direction.x as f64 / n * dt;
        vy += t.magnitude as f64 * t.direction.y as f64 / n * dt;
        assert!(vx > before);
        assert_eq!(vy, 0.0);
    }
}

#[test]
fn acceleration_is_independent_of_body() {
    let light = SpaceshipForceGenerator::new(BodyHandle { index: 0 }, Movement::UpLeft).thrust();
    let heavy = SpaceshipForceGenerator::new(BodyHandle { index: 7 }, Movement::UpLeft).thrust();
    assert_eq!(light.direction, heavy.direction);
    assert_eq!(light.magnitude, heavy.magnitude);
    assert_ne!(light.body, heavy.body);
}

#[test]
fn magnitude_is_the_constant() {
    assert_eq!(ACCELERATION_MAGNITUDE, 250);
    let t = SpaceshipForceGenerator::new(BodyHandle { index: 0 }, Movement::Down).thrust();
    assert_eq!(t.magnitude, ACCELERATION_MAGNITUDE);
    assert_eq!(t.direction, Direction { x: 0, y: 1, norm_squared: 1 });
}
