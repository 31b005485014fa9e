use avian_smooth::interpolate_position;
use avian_smooth::pre_phys_position_reset;
use avian_smooth::pre_phys_rotation_reset;
use avian_smooth::save_current_position;
use avian_smooth::save_current_rotation;
use avian_smooth::save_last_position;
use avian_smooth::save_last_rotation;
use avian_smooth::Body;
use avian_smooth::PositionInterpolation;
use avian_smooth::Quat;
use avian_smooth::RotationInterpolation;
use avian_smooth::TimestepMode;
use avian_smooth::Transform;
use avian_smooth::Vec3;

fn body_for_capture() -> Body {
    Body {
        rigid_body: true,
        position: Vec3 { x: 100, y: 200, z: 300 },
        rotation: Quat { x: 0, y: 600, z: 0, w: 800 },
        transform: Transform {
            translation: Vec3 { x: 1, y: 2, z: 3 },
            rotation: Quat { x: 0, y: 0, z: 0, w: 1000 },
        },
        position_interpolation: Some(PositionInterpolation {
            disabled: false,
            last_position: None,
            current_position: None,
        }),
        rotation_interpolation: Some(RotationInterpolation {
            disabled: false,
            last_rotation: None,
            current_rotation: None,
        }),
    }
}

#[test]
fn capture_start_saves_last_pose() {
    let mut objects = vec![body_for_capture()];
    save_last_position(&mut objects);
    save_last_rotation(&mut objects);
    let pi = objects[0].position_interpolation.unwrap();
    let ri = objects[0].rotation_interpolation.unwrap();
    assert_eq!(pi.last_position, Some(Vec3 { x: 100, y: 200, z: 300 }));
    assert_eq!(pi.current_position, None);
    assert_eq!(ri.last_rotation, Some(Quat { x: 0, y: 600, z: 0, w: 800 }));
    assert_eq!(ri.current_rotation, None);
}

#[test]
fn capture_end_saves_current_pose() {
    let mut objects = vec![body_for_capture()];
    save_current_position(&mut objects);
    save_current_rotation(&mut objects);
    let pi = objects[0].position_interpolation.unwrap();
    let ri = objects[0].rotation_interpolation.unwrap();
    assert_eq!(pi.current_position, Some(Vec3 { x: 100, y: 200, z: 300 }));
    assert_eq!(pi.last_position, None);
    assert_eq!(ri.current_rotation, Some(Quat { x: 0, y: 600, z: 0, w: 800 }));
    assert_eq!(ri.last_rotation, None);
}

#[test]
fn capture_skips_entities_without_state() {
    let mut b = body_for_capture();
    b.position_interpolation = None;
    b.rotation_interpolation = None;
    let before = vec![b];
    let mut objects = before.clone();
    save_last_position(&mut objects);
    save_last_rotation(&mut objects);
    save_current_position(&mut objects);
    save_current_rotation(&mut objects);
    assert_eq!(objects, before);
}

#[test]
fn reset_restores_position_round_trip() {
    // A blended value leaked into the authoritative position during the
    // previous frame; the pre-tick reset rolls both it and the presentation
    // translation back to the settled snapshot.
    let mut b = body_for_capture();
    b.position = Vec3 { x: 41, y: 42, z: 43 };
    b.position_interpolation = Some(PositionInterpolation {
        disabled: false,
        last_position: Some(Vec3 { x: 0, y: 0, z: 0 }),
        current_position: Some(Vec3 { x: 50, y: 60, z: 70 }),
    });
    let mut objects = vec![b];
    pre_phys_position_reset(&mut objects);
    assert_eq!(objects[0].position, Vec3 { x: 50, y: 60, z: 70 });
    assert_eq!(objects[0].transform.translation, Vec3 { x: 50, y: 60, z: 70 });
}

#[test]
fn reset_restores_rotation_round_trip() {
    let mut b = body_for_capture();
    b.rotation_interpolation = Some(RotationInterpolation {
        disabled: false,
        last_rotation: Some(Quat { x: 0, y: 0, z: 0, w: 1000 }),
        current_rotation: Some(Quat { x: 0, y: 600, z: 0, w: 800 }),
    });
    let mut objects = vec![b];
    pre_phys_rotation_reset(&mut objects);
    assert_eq!(objects[0].rotation, Quat { x: 0, y: 600, z: 0, w: 800 });
    assert_eq!(objects[0].transform.rotation, Quat { x: 0, y: 600, z: 0, w: 800 });
}

#[test]
fn reset_skips_entities_without_current_snapshot() {
    let before = vec![body_for_capture()];
    let mut objects = before.clone();
    pre_phys_position_reset(&mut objects);
    pre_phys_rotation_reset(&mut objects);
    assert_eq!(objects, before);
}

#[test]
fn full_frame_cycle() {
    // One frame as the host schedules it: pre-tick reset, one simulation
    // tick with its two captures around the integration step, then the
    // frame-time blend half-way into the pending tick.
    let mut objects = vec![body_for_capture()];

    pre_phys_position_reset(&mut objects);
    // No snapshots yet: the fresh entity is untouched.
    assert_eq!(objects[0].position, Vec3 { x: 100, y: 200, z: 300 });

    save_last_position(&mut objects);
    // The integration step advances the authoritative position.
    objects[0].position = Vec3 { x: 300, y: 200, z: 300 };
    save_current_position(&mut objects);

    let clock = TimestepMode::Fixed { delta: 16_666_666, overstep: 8_333_333 };
    assert!(interpolate_position(&mut objects, &clock));
    assert_eq!(objects[0].transform.translation, Vec3 { x: 200, y: 200, z: 300 });

    // Next frame: the reset undoes any leaked blend before the next tick.
    pre_phys_position_reset(&mut objects);
    assert_eq!(objects[0].position, Vec3 { x: 300, y: 200, z: 300 });
}
