use walk_scene::geometry::{MeshShape, Shape, Vec3};
use walk_scene::movement::{is_walker, FLOAT_HEIGHT};
use walk_scene::scene::{environment, setup, ColorHundredths};
use walk_scene::world::{BodyKind, Camera, Cascades, Controller, DirectionalLight, Rgb8, RotationLocks};

#[test]
fn setup_builds_one_entity_of_each_kind() {
    let world = setup();
    assert_eq!(world.len(), 4);
    let floors = world
        .iter()
        .filter(|e| e.body == Some(BodyKind::Fixed) && e.collider.is_some() && e.controller.is_none())
        .count();
    let characters = world
        .iter()
        .filter(|e| e.body == Some(BodyKind::Dynamic) && e.controller.is_some())
        .count();
    let lights = world.iter().filter(|e| e.light.is_some()).count();
    let cameras = world.iter().filter(|e| e.camera.is_some()).count();
    assert_eq!((floors, characters, lights, cameras), (1, 1, 1, 1));
}

#[test]
fn floor_collider_is_half_the_mesh() {
    let floor = setup()[0];
    assert_eq!(floor.translation, Vec3 { x: 0, y: -50, z: 0 });
    assert_eq!(floor.mesh, Some(MeshShape::Cuboid { size: Vec3 { x: 5000, y: 100, z: 5000 } }));
    assert_eq!(floor.collider, Some(Shape::Cuboid { half_extents: Vec3 { x: 2500, y: 50, z: 2500 } }));
    match (floor.collider, floor.mesh) {
        (Some(Shape::Cuboid { half_extents: h }), Some(MeshShape::Cuboid { size: s })) => {
            assert_eq!((2 * h.x, 2 * h.y, 2 * h.z), (s.x, s.y, s.z));
        }
        _ => panic!("floor is not a box"),
    }
    assert_eq!(floor.color, Some(Rgb8 { r: 255, g: 255, b: 255 }));
}

#[test]
fn character_float_height_is_below_capsule_depth() {
    let character = setup()[1];
    assert!(is_walker(&character));
    assert_eq!(character.translation, Vec3 { x: 0, y: 500, z: 0 });
    assert_eq!(character.collider, Some(Shape::CapsuleY { half_height: 100, radius: 100 }));
    assert_eq!(character.ground_sensor, Some(Shape::CapsuleY { half_height: 0, radius: 99 }));
    assert_eq!(character.mesh, Some(MeshShape::Capsule { radius: 100, length: 200 }));
    assert_eq!(character.controller, Some(Controller { basis: None }));
    assert_eq!(character.rotation_locks, Some(RotationLocks { x: true, y: false, z: true }));
    assert_eq!(character.velocity, Some(Vec3 { x: 0, y: 0, z: 0 }));
    match character.collider {
        Some(Shape::CapsuleY { half_height, radius }) => assert!(FLOAT_HEIGHT < half_height + radius),
        _ => panic!("character is not a capsule"),
    }
}

#[test]
fn light_and_camera_settings() {
    let world = setup();
    assert_eq!(
        world[2].light,
        Some(DirectionalLight {
            shadows_enabled: true,
            illuminance: 10000,
            cascades: Cascades { first_cascade_far_bound: 2000, maximum_distance: 4000 },
        })
    );
    assert_eq!(world[3].translation, Vec3 { x: 0, y: 1300, z: 2000 });
    assert_eq!(world[3].camera, Some(Camera { target: Vec3 { x: 0, y: 400, z: 0 } }));
}

#[test]
fn environment_settings() {
    let env = environment();
    assert_eq!(env.ambient_color, ColorHundredths { r: 100, g: 95, b: 80, a: 100 });
    assert_eq!(env.ambient_brightness, 1500);
    assert_eq!(env.clear_color, ColorHundredths { r: 30, g: 30, b: 30, a: 100 });
}
