use body_sleep::body::{Body, RigidBody, SleepConfig};
use body_sleep::pose::{
    to_transform, Dimension, Point, PresentationRotation, Quaternion, Rotation, Transform,
};
use body_sleep::systems::{sync_transforms, SyncPlugin};

fn blank() -> Transform {
    Transform {
        translation: Point { x: 0, y: 0, z: 0 },
        rotation: PresentationRotation::AboutZ(0),
    }
}

#[test]
fn planar_pose_maps_to_depth_zero_and_z_rotation() {
    let mut body = Body::new(RigidBody::Dynamic, Point { x: 3, y: 4, z: 0 }, Rotation::Planar(90_000));
    body.set_transform(Some(blank()));
    let mut bodies = vec![body];
    sync_transforms(&mut bodies, Dimension::Two);
    let t = bodies[0].transform().unwrap();
    assert_eq!(t.translation, Point { x: 3, y: 4, z: 0 });
    assert_eq!(t.rotation, PresentationRotation::AboutZ(90_000));
}

#[test]
fn spatial_pose_passes_unchanged() {
    let q = Quaternion { x: 1, y: 2, z: 3, w: 4 };
    let pos = Point { x: -7, y: 8, z: 9 };
    let t = to_transform(&pos, &Rotation::Spatial(q), Dimension::Three);
    assert_eq!(t.translation, pos);
    assert_eq!(t.rotation, PresentationRotation::Quat(q));
}

#[test]
fn planar_mapping_drops_depth() {
    let t = to_transform(&Point { x: 1, y: 2, z: 3 }, &Rotation::Planar(-45_000), Dimension::Two);
    assert_eq!(t.translation, Point { x: 1, y: 2, z: 0 });
    assert_eq!(t.rotation, PresentationRotation::AboutZ(-45_000));
}

#[test]
fn sync_twice_gives_same_transform() {
    let mut body = Body::new(
        RigidBody::Dynamic,
        Point { x: 10, y: 20, z: 30 },
        Rotation::Spatial(Quaternion { x: 0, y: 0, z: 0, w: 1000 }),
    );
    body.set_transform(Some(blank()));
    let mut bodies = vec![body];
    sync_transforms(&mut bodies, Dimension::Three);
    let first = bodies[0].transform();
    sync_transforms(&mut bodies, Dimension::Three);
    assert_eq!(bodies[0].transform(), first);
    assert_eq!(first.unwrap().translation, Point { x: 10, y: 20, z: 30 });
}

#[test]
fn body_without_target_gets_none() {
    let mut bodies = vec![Body::new(RigidBody::Static, Point { x: 1, y: 1, z: 0 }, Rotation::Planar(0))];
    sync_transforms(&mut bodies, Dimension::Two);
    assert_eq!(bodies[0].transform(), None);
}

#[test]
fn sleeping_body_is_still_synced() {
    let cfg = SleepConfig { deactivation_time: 0, linear_threshold: 1, angular_threshold: 1, delta_time: 1 };
    let plugin = SyncPlugin::new(Dimension::Two);
    let mut body = Body::new(RigidBody::Dynamic, Point { x: 0, y: 0, z: 0 }, Rotation::Planar(0));
    body.set_transform(Some(blank()));
    let mut bodies = vec![body];
    plugin.step(&mut bodies, &cfg, false);
    assert!(bodies[0].is_sleeping());
    bodies[0].set_pos(Point { x: 6, y: -2, z: 0 });
    bodies[0].set_rot(Rotation::Planar(180_000));
    plugin.step(&mut bodies, &cfg, false);
    assert!(bodies[0].is_sleeping());
    let t = bodies[0].transform().unwrap();
    assert_eq!(t.translation, Point { x: 6, y: -2, z: 0 });
    assert_eq!(t.rotation, PresentationRotation::AboutZ(180_000));
}
