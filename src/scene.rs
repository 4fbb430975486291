use vstd::prelude::*;
use crate::geometry::{collider_matches_mesh, depth_below_center, MeshShape, Shape, Vec3};
use crate::movement::{walk_basis_spec, walks, FLOAT_HEIGHT};
use crate::world::{
    BodyKind, Camera, Cascades, Controller, DirectionalLight, Entity, Rgb8, RotationLocks, World,
};

verus! {

/// A colour with each channel, alpha included, in hundredths.
#[derive(Clone, Copy, Debug, PartialEq, Eq, Structural)]
pub struct ColorHundredths {
    pub r: u8,
    pub g: u8,
    pub b: u8,
    pub a: u8,
}

/// The global resources of the scene.
#[derive(Clone, Copy, Debug, PartialEq, Eq, Structural)]
pub struct Environment {
    pub ambient_color: ColorHundredths,
    pub ambient_brightness: u32,
    pub clear_color: ColorHundredths,
}

pub open spec fn environment_spec() -> Environment {
    Environment {
        ambient_color: ColorHundredths { r: 100, g: 95, b: 80, a: 100 },
        ambient_brightness: 1500,
        clear_color: ColorHundredths { r: 30, g: 30, b: 30, a: 100 },
    }
}

/// A warm ambient light of brightness 1500 and a grey background.
pub fn environment() -> (r: Environment)
    ensures
        r == environment_spec(),
{
    Environment {
        ambient_color: ColorHundredths { r: 100, g: 95, b: 80, a: 100 },
        ambient_brightness: 1500,
        clear_color: ColorHundredths { r: 30, g: 30, b: 30, a: 100 },
    }
}

/// A white slab of 500 by 10 by 500 units whose top face lies at height 0.
pub open spec fn floor_spec() -> Entity {
    Entity {
        translation: Vec3 { x: 0, y: -50i64, z: 0 },
        mesh: Some(MeshShape::Cuboid { size: Vec3 { x: 5000, y: 100, z: 5000 } }),
        color: Some(Rgb8 { r: 255, g: 255, b: 255 }),
        body: Some(BodyKind::Fixed),
        collider: Some(Shape::Cuboid { half_extents: Vec3 { x: 2500, y: 50, z: 2500 } }),
        controller: None,
        ground_sensor: None,
        rotation_locks: None,
        velocity: None,
        light: None,
        camera: None,
    }
}

/// A capsule of radius 10 and half-height 10 that starts 50 units up, free
/// to turn about the vertical axis only, with an idle controller and a
/// slightly narrower ground sensor.
pub open spec fn character_spec() -> Entity {
    Entity {
        translation: Vec3 { x: 0, y: 500, z: 0 },
        mesh: Some(MeshShape::Capsule { radius: 100, length: 200 }),
        color: Some(Rgb8 { r: 124, g: 144, b: 255 }),
        body: Some(BodyKind::Dynamic),
        collider: Some(Shape::CapsuleY { half_height: 100, radius: 100 }),
        controller: Some(Controller { basis: None }),
        ground_sensor: Some(Shape::CapsuleY { half_height: 0, radius: 99 }),
        rotation_locks: Some(RotationLocks { x: true, y: false, z: true }),
        velocity: Some(Vec3 { x: 0, y: 0, z: 0 }),
        light: None,
        camera: None,
    }
}

/// A shadow-casting directional light of 10000 lux, with its first shadow
/// cascade ending at 200 units and shadows reaching 400 units.
pub open spec fn light_spec() -> Entity {
    Entity {
        translation: Vec3 { x: 0, y: 0, z: 0 },
        mesh: None,
        color: None,
        body: None,
        collider: None,
        controller: None,
        ground_sensor: None,
        rotation_locks: None,
        velocity: None,
        light: Some(
            DirectionalLight {
                shadows_enabled: true,
                illuminance: 10000,
                cascades: Cascades { first_cascade_far_bound: 2000, maximum_distance: 4000 },
            },
        ),
        camera: None,
    }
}

/// A camera at (0, 130, 200) looking at (0, 40, 0).
pub open spec fn camera_spec() -> Entity {
    Entity {
        translation: Vec3 { x: 0, y: 1300, z: 2000 },
        mesh: None,
        color: None,
        body: None,
        collider: None,
        controller: None,
        ground_sensor: None,
        rotation_locks: None,
        velocity: None,
        light: None,
        camera: Some(Camera { target: Vec3 { x: 0, y: 400, z: 0 } }),
    }
}

/// The world that scene initialisation builds, in spawn order.
pub open spec fn scene_spec() -> Seq<Entity> {
    seq![floor_spec(), character_spec(), light_spec(), camera_spec()]
}

pub open spec fn is_static_floor(e: Entity) -> bool {
    e.body == Some(BodyKind::Fixed) && e.collider.is_some() && e.controller.is_none()
}

pub open spec fn is_dynamic_character(e: Entity) -> bool {
    e.body == Some(BodyKind::Dynamic) && e.controller.is_some()
}

pub open spec fn is_light(e: Entity) -> bool {
    e.light.is_some()
}

pub open spec fn is_camera(e: Entity) -> bool {
    e.camera.is_some()
}

/// The number of entities of `s` that satisfy `p`.
pub open spec fn count_where(s: Seq<Entity>, p: spec_fn(Entity) -> bool) -> nat
    decreases s.len(),
{
    if s.len() == 0 {
        0
    } else {
        count_where(s.drop_last(), p) + if p(s.last()) {
            1nat
        } else {
            0nat
        }
    }
}

/// Builds the scene: the floor, the character, the light and the camera,
/// in that order.
pub fn setup() -> (r: World)
    ensures
        r@ == scene_spec(),
{
    let mut r: World = Vec::new();
    let mut floor = Entity::at(Vec3::new(0, -50, 0));
    floor.mesh = Some(MeshShape::Cuboid { size: Vec3::new(5000, 100, 5000) });
    floor.color = Some(Rgb8 { r: 255, g: 255, b: 255 });
    floor.body = Some(BodyKind::Fixed);
    floor.collider = Some(Shape::Cuboid { half_extents: Vec3::new(2500, 50, 2500) });
    r.push(floor);

    let mut character = Entity::at(Vec3::new(0, 500, 0));
    character.mesh = Some(MeshShape::Capsule { radius: 100, length: 200 });
    character.color = Some(Rgb8 { r: 124, g: 144, b: 255 });
    character.body = Some(BodyKind::Dynamic);
    character.collider = Some(Shape::CapsuleY { half_height: 100, radius: 100 });
    character.controller = Some(Controller { basis: None });
    character.rotation_locks = Some(RotationLocks { x: true, y: false, z: true });
    character.ground_sensor = Some(Shape::CapsuleY { half_height: 0, radius: 99 });
    character.velocity = Some(Vec3::zero());
    r.push(character);

    let mut light = Entity::at(Vec3::zero());
    light.light = Some(
        DirectionalLight {
            shadows_enabled: true,
            illuminance: 10000,
            cascades: Cascades { first_cascade_far_bound: 2000, maximum_distance: 4000 },
        },
    );
    r.push(light);

    let mut camera = Entity::at(Vec3::new(0, 1300, 2000));
    camera.camera = Some(Camera { target: Vec3::new(0, 400, 0) });
    r.push(camera);

    assert(r@ =~= scene_spec());
    r
}

/// Scene initialisation builds exactly one static floor, one dynamic
/// character, one light and one camera, and nothing else.
pub proof fn lemma_scene_cardinality()
    ensures
        scene_spec().len() == 4,
        count_where(scene_spec(), |e: Entity| is_static_floor(e)) == 1,
        count_where(scene_spec(), |e: Entity| is_dynamic_character(e)) == 1,
        count_where(scene_spec(), |e: Entity| is_light(e)) == 1,
        count_where(scene_spec(), |e: Entity| is_camera(e)) == 1,
{
    let s = scene_spec();
    let s3 = s.drop_last();
    let s2 = s3.drop_last();
    let s1 = s2.drop_last();
    let s0 = s1.drop_last();
    assert(s3 =~= seq![floor_spec(), character_spec(), light_spec()]);
    assert(s2 =~= seq![floor_spec(), character_spec()]);
    assert(s1 =~= seq![floor_spec()]);
    assert(s0 =~= Seq::<Entity>::empty());
    reveal_with_fuel(count_where, 5);
}

/// The floor's collider is exactly as large as its visible mesh: its
/// half-extents (250, 5, 250) are half of the mesh's size (500, 10, 500).
/// The same holds of the character's capsule.
pub proof fn lemma_colliders_match_meshes()
    ensures
        collider_matches_mesh(floor_spec().collider.unwrap(), floor_spec().mesh.unwrap()),
        collider_matches_mesh(character_spec().collider.unwrap(), character_spec().mesh.unwrap()),
{
}

/// The walking character can be held up by its controller: the float
/// height it is handed lies below the depth of its capsule collider
/// (half-height plus radius), and its ground sensor is a capsule of radius
/// 9.9 units.
pub proof fn lemma_character_float_height_fits()
    ensures
        walks(character_spec()),
        walk_basis_spec().float_height == FLOAT_HEIGHT,
        FLOAT_HEIGHT < depth_below_center(character_spec().collider.unwrap()),
        character_spec().ground_sensor == Some(Shape::CapsuleY { half_height: 0, radius: 99 }),
{
}

} // verus!
