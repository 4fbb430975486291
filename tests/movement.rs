use walk_scene::geometry::{Shape, Vec3};
use walk_scene::movement::{is_walker, movement_system, walk_basis, walk_direction};
use walk_scene::scene::setup;
use walk_scene::world::{Controller, Entity, WalkBasis};

fn expected_basis() -> WalkBasis {
    WalkBasis { desired_velocity: Vec3 { x: 6000, y: 0, z: 0 }, float_height: 50 }
}

fn walker(x: i64) -> Entity {
    let mut e = Entity::at(Vec3::new(x, 0, 0));
    e.controller = Some(Controller { basis: None });
    e.ground_sensor = Some(Shape::CapsuleY { half_height: 0, radius: 99 });
    e
}

#[test]
fn walk_basis_is_600_units_per_second_along_x_floating_at_5() {
    assert_eq!(walk_direction(), Vec3 { x: 600, y: 0, z: 0 });
    assert_eq!(walk_basis(), expected_basis());
}

#[test]
fn scale_multiplies_each_coordinate() {
    assert_eq!(Vec3::new(1, -2, 3).scale(4), Vec3 { x: 4, y: -8, z: 12 });
    assert_eq!(Vec3::new(600, 0, 0).scale(10), Vec3 { x: 6000, y: 0, z: 0 });
}

#[test]
fn character_in_scene_receives_walk_basis() {
    let mut world = setup();
    let before = world.clone();
    let ids = movement_system(&mut world);
    assert_eq!(ids, vec![1]);
    assert_eq!(world[1].controller, Some(Controller { basis: Some(expected_basis()) }));
    assert_eq!(world[0], before[0]);
    assert_eq!(world[2], before[2]);
    assert_eq!(world[3], before[3]);
    let mut rest = world[1];
    rest.controller = before[1].controller;
    assert_eq!(rest, before[1]);
}

#[test]
fn prior_basis_is_overwritten() {
    let mut e = walker(0);
    e.controller = Some(Controller {
        basis: Some(WalkBasis { desired_velocity: Vec3::new(-7, 3, 9), float_height: 1234 }),
    });
    let mut world = vec![e];
    movement_system(&mut world);
    assert_eq!(world[0].controller, Some(Controller { basis: Some(expected_basis()) }));
}

#[test]
fn repeated_ticks_give_the_same_world() {
    let mut once = setup();
    movement_system(&mut once);
    let mut many = setup();
    for _ in 0..5 {
        movement_system(&mut many);
    }
    assert_eq!(once, many);
}

#[test]
fn entity_without_sensor_is_untouched() {
    let mut e = walker(0);
    e.ground_sensor = None;
    let mut world = vec![e];
    let ids = movement_system(&mut world);
    assert!(ids.is_empty());
    assert_eq!(world[0], e);
    assert!(!is_walker(&e));
}

#[test]
fn entity_without_controller_is_untouched() {
    let mut e = walker(0);
    e.controller = None;
    let mut world = vec![e];
    let ids = movement_system(&mut world);
    assert!(ids.is_empty());
    assert_eq!(world[0], e);
}

#[test]
fn empty_world_is_a_no_op() {
    let mut world: Vec<Entity> = Vec::new();
    let ids = movement_system(&mut world);
    assert!(ids.is_empty());
    assert!(world.is_empty());
}

#[test]
fn one_report_per_walker_per_tick() {
    let mut plain = walker(1);
    plain.controller = None;
    let mut world = vec![walker(0), plain, walker(2), plain, walker(4)];
    let ids = movement_system(&mut world);
    assert_eq!(ids, vec![0, 2, 4]);
    let ids = movement_system(&mut world);
    assert_eq!(ids, vec![0, 2, 4]);
    for i in [0usize, 2, 4] {
        assert!(is_walker(&world[i]));
        assert_eq!(world[i].controller, Some(Controller { basis: Some(expected_basis()) }));
    }
    assert_eq!(world[1], plain);
    assert_eq!(world[3], plain);
}
