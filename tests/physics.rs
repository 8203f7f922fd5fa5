use game_core::physics::{PhysicsBody, PhysicsState};

const GRAVITY: f32 = -9.8;

#[test]
fn new_body_rests_on_ground() {
    let body = PhysicsBody::new(true);
    assert!(body.physics_enabled());
    assert_eq!(body.state, PhysicsState::Grounded);
    assert!(!body.is_airborne());
    assert!(!PhysicsBody::new(false).physics_enabled());
}

#[test]
fn jump_is_honoured_once_while_airborne() {
    let mut body = PhysicsBody::new(true);
    let mut y: f32 = 0.0;
    let (dt, impulse) = (0.5f32, 4.0f32);
    if body.jump() {
        y += impulse * dt;
    }
    if body.jump() {
        y += impulse * dt;
    }
    assert_eq!(y, 2.0);
    assert!(body.is_airborne());
}

#[test]
fn jump_is_honoured_again_after_landing() {
    let mut body = PhysicsBody::new(true);
    assert!(body.jump());
    assert!(!body.jump());
    assert!(!body.land(false));
    assert!(body.is_airborne());
    assert!(body.land(true));
    assert_eq!(body.state, PhysicsState::Grounded);
    assert!(body.jump());
}

#[test]
fn land_keeps_physics_flag() {
    let mut body = PhysicsBody::new(false);
    assert!(body.jump());
    assert!(body.land(true));
    assert!(!body.physics_enabled());
    assert!(!body.is_airborne());
}

#[test]
fn gravity_falls_until_clamped_at_ground() {
    let mut body = PhysicsBody::new(true);
    let mut y: f32 = 0.0;
    let dt: f32 = 0.1;
    if body.jump() {
        y += 50.0 * dt;
    }
    assert_eq!(y, 5.0);
    let mut ticks = 0;
    loop {
        let before = y;
        if body.physics_enabled() {
            y += GRAVITY * dt;
            if body.land(y <= 0.0) {
                y = 0.0;
            }
        }
        ticks += 1;
        if y == 0.0 {
            break;
        }
        assert!(y < before);
        assert!(body.is_airborne());
        assert!(ticks < 100);
    }
    assert_eq!(y, 0.0);
    assert_eq!(body.state, PhysicsState::Grounded);
    assert_eq!(ticks, 6);
}

#[test]
fn body_without_physics_is_not_integrated() {
    let body = PhysicsBody::new(false);
    let mut y: f32 = 5.0;
    for _ in 0..10 {
        if body.physics_enabled() {
            y += GRAVITY * 0.1;
        }
    }
    assert_eq!(y, 5.0);
}
