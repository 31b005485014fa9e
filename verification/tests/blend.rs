use avian_smooth::interpolate_position;
use avian_smooth::interpolate_rotation;
use avian_smooth::Body;
use avian_smooth::PositionInterpolation;
use avian_smooth::Quat;
use avian_smooth::RotationInterpolation;
use avian_smooth::TimestepMode;
use avian_smooth::Transform;
use avian_smooth::Vec3;

// One sixtieth of a second, in nanoseconds.
const DELTA: u64 = 16_666_666;
// One hundred-twentieth of a second: exactly half the tick period above.
const OVERSTEP_HALF: u64 = 8_333_333;

fn body_for_blend() -> Body {
    Body {
        rigid_body: true,
        position: Vec3 { x: 0, y: 0, z: 0 },
        rotation: Quat { x: 0, y: 0, z: 0, w: 1000 },
        transform: Transform {
            translation: Vec3 { x: 7, y: 8, z: 9 },
            rotation: Quat { x: 0, y: 0, z: 0, w: 1000 },
        },
        position_interpolation: None,
        rotation_interpolation: None,
    }
}

fn fixed_clock(overstep: u64) -> TimestepMode {
    TimestepMode::Fixed { delta: DELTA, overstep }
}

#[test]
fn numeric_example_half_tick() {
    let mut b = body_for_blend();
    b.position_interpolation = Some(PositionInterpolation {
        disabled: false,
        last_position: Some(Vec3 { x: 0, y: 0, z: 0 }),
        current_position: Some(Vec3 { x: 2, y: 0, z: 0 }),
    });
    let mut objects = vec![b];
    let blended = interpolate_position(&mut objects, &fixed_clock(OVERSTEP_HALF));
    assert!(blended);
    assert_eq!(objects[0].transform.translation, Vec3 { x: 1, y: 0, z: 0 });
}

#[test]
fn position_blend_at_zero_overstep_equals_last() {
    let mut b = body_for_blend();
    b.position_interpolation = Some(PositionInterpolation {
        disabled: false,
        last_position: Some(Vec3 { x: 10, y: -20, z: 30 }),
        current_position: Some(Vec3 { x: 110, y: -120, z: 130 }),
    });
    let mut objects = vec![b];
    let blended = interpolate_position(&mut objects, &fixed_clock(0));
    assert!(blended);
    assert_eq!(objects[0].transform.translation, Vec3 { x: 10, y: -20, z: 30 });
}

#[test]
fn position_blend_stays_on_segment() {
    let mut b = body_for_blend();
    b.position_interpolation = Some(PositionInterpolation {
        disabled: false,
        last_position: Some(Vec3 { x: 0, y: 1000, z: -1000 }),
        current_position: Some(Vec3 { x: 1000, y: 0, z: 1000 }),
    });
    let mut objects = vec![b];
    let blended = interpolate_position(&mut objects, &fixed_clock(5_000_000));
    assert!(blended);
    let t = objects[0].transform.translation;
    // 5_000_000 / 16_666_666 of the way: exactly 300 fixed-point units of 1000.
    assert_eq!(t, Vec3 { x: 300, y: 700, z: -400 });
    assert!(0 <= t.x && t.x <= 1000);
    assert!(0 <= t.y && t.y <= 1000);
    assert!(-1000 <= t.z && t.z <= 1000);
}

#[test]
fn blend_does_not_touch_authoritative_pose() {
    let mut b = body_for_blend();
    b.position = Vec3 { x: 55, y: 56, z: 57 };
    b.position_interpolation = Some(PositionInterpolation {
        disabled: false,
        last_position: Some(Vec3 { x: 0, y: 0, z: 0 }),
        current_position: Some(Vec3 { x: 2, y: 0, z: 0 }),
    });
    let mut objects = vec![b];
    interpolate_position(&mut objects, &fixed_clock(OVERSTEP_HALF));
    assert_eq!(objects[0].position, Vec3 { x: 55, y: 56, z: 57 });
}

#[test]
fn missing_snapshot_skips_blend() {
    let mut b = body_for_blend();
    b.position_interpolation = Some(PositionInterpolation {
        disabled: false,
        last_position: Some(Vec3 { x: 0, y: 0, z: 0 }),
        current_position: None,
    });
    let mut objects = vec![b];
    let blended = interpolate_position(&mut objects, &fixed_clock(OVERSTEP_HALF));
    assert!(blended);
    assert_eq!(objects[0].transform.translation, Vec3 { x: 7, y: 8, z: 9 });
}

#[test]
fn entity_without_half_skips_blend() {
    let b = body_for_blend();
    let mut objects = vec![b];
    let blended = interpolate_position(&mut objects, &fixed_clock(OVERSTEP_HALF));
    assert!(blended);
    assert_eq!(objects[0], body_for_blend());
}

#[test]
fn variable_clock_blends_nothing() {
    let mut b = body_for_blend();
    b.position_interpolation = Some(PositionInterpolation {
        disabled: false,
        last_position: Some(Vec3 { x: 0, y: 0, z: 0 }),
        current_position: Some(Vec3 { x: 2, y: 0, z: 0 }),
    });
    b.rotation_interpolation = Some(RotationInterpolation {
        disabled: false,
        last_rotation: Some(Quat { x: 0, y: 0, z: 0, w: 1000 }),
        current_rotation: Some(Quat { x: 1000, y: 0, z: 0, w: 0 }),
    });
    let before = vec![b];
    let mut objects = before.clone();
    let clock = TimestepMode::Variable { max_delta: DELTA };
    // Exactly one diagnostic per frame: each result is the single signal the
    // caller turns into it.
    let pos_blended = interpolate_position(&mut objects, &clock);
    let rot_blended = interpolate_rotation(&mut objects, &clock);
    assert!(!pos_blended);
    assert!(!rot_blended);
    assert_eq!(objects, before);
}

#[test]
fn rotation_blend_midpoint() {
    let mut b = body_for_blend();
    b.rotation_interpolation = Some(RotationInterpolation {
        disabled: false,
        last_rotation: Some(Quat { x: 0, y: 0, z: 0, w: 1000 }),
        current_rotation: Some(Quat { x: 1000, y: 0, z: 0, w: 0 }),
    });
    let mut objects = vec![b];
    let blended = interpolate_rotation(&mut objects, &fixed_clock(OVERSTEP_HALF));
    assert!(blended);
    assert_eq!(objects[0].transform.rotation, Quat { x: 500, y: 0, z: 0, w: 500 });
}

#[test]
fn rotation_blend_at_zero_overstep_equals_last() {
    let mut b = body_for_blend();
    b.rotation_interpolation = Some(RotationInterpolation {
        disabled: false,
        last_rotation: Some(Quat { x: 0, y: 600, z: 0, w: 800 }),
        current_rotation: Some(Quat { x: 0, y: -600, z: 0, w: -800 }),
    });
    let mut objects = vec![b];
    let blended = interpolate_rotation(&mut objects, &fixed_clock(0));
    assert!(blended);
    assert_eq!(objects[0].transform.rotation, Quat { x: 0, y: 600, z: 0, w: 800 });
}

#[test]
fn rotation_blend_takes_shorter_arc() {
    // The current snapshot is the negation of the last one: the same
    // rotation, written the long way around. The sign correction makes the
    // blend stay put instead of sweeping through intermediate rotations.
    let mut b = body_for_blend();
    b.rotation_interpolation = Some(RotationInterpolation {
        disabled: false,
        last_rotation: Some(Quat { x: 0, y: 0, z: 0, w: 1000 }),
        current_rotation: Some(Quat { x: 0, y: 0, z: 0, w: -1000 }),
    });
    let mut objects = vec![b];
    let blended = interpolate_rotation(&mut objects, &fixed_clock(OVERSTEP_HALF));
    assert!(blended);
    assert_eq!(objects[0].transform.rotation, Quat { x: 0, y: 0, z: 0, w: 1000 });
}

#[test]
fn disabled_axis_scenario() {
    // Position half disabled, rotation half enabled, both fully populated:
    // translation keeps the prior frame's value while rotation is blended.
    let mut b = body_for_blend();
    b.position_interpolation = Some(PositionInterpolation {
        disabled: true,
        last_position: Some(Vec3 { x: 0, y: 0, z: 0 }),
        current_position: Some(Vec3 { x: 2, y: 0, z: 0 }),
    });
    b.rotation_interpolation = Some(RotationInterpolation {
        disabled: false,
        last_rotation: Some(Quat { x: 0, y: 0, z: 0, w: 1000 }),
        current_rotation: Some(Quat { x: 1000, y: 0, z: 0, w: 0 }),
    });
    let mut objects = vec![b];
    let clock = fixed_clock(OVERSTEP_HALF);
    assert!(interpolate_position(&mut objects, &clock));
    assert!(interpolate_rotation(&mut objects, &clock));
    assert_eq!(objects[0].transform.translation, Vec3 { x: 7, y: 8, z: 9 });
    assert_eq!(objects[0].transform.rotation, Quat { x: 500, y: 0, z: 0, w: 500 });
}

#[test]
fn halves_blend_independently() {
    let mut b = body_for_blend();
    b.position_interpolation = Some(PositionInterpolation {
        disabled: false,
        last_position: Some(Vec3 { x: 0, y: 0, z: 0 }),
        current_position: Some(Vec3 { x: 2, y: 0, z: 0 }),
    });
    let mut objects = vec![b];
    let clock = fixed_clock(OVERSTEP_HALF);
    assert!(interpolate_position(&mut objects, &clock));
    assert!(interpolate_rotation(&mut objects, &clock));
    assert_eq!(objects[0].transform.translation, Vec3 { x: 1, y: 0, z: 0 });
    // No rotation half: the presentation rotation keeps its previous value.
    assert_eq!(objects[0].transform.rotation, Quat { x: 0, y: 0, z: 0, w: 1000 });
}
