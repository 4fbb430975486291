use vstd::prelude::*;
use crate::geometry::{MeshShape, Shape, Vec3};

verus! {

/// How the physics simulation moves a body.
#[derive(Clone, Copy, Debug, PartialEq, Eq, Structural)]
pub enum BodyKind {
    /// Never moved by the simulation.
    Fixed,
    /// Moved by forces and collisions.
    Dynamic,
}

/// An sRGB colour with eight bits per channel.
#[derive(Clone, Copy, Debug, PartialEq, Eq, Structural)]
pub struct Rgb8 {
    pub r: u8,
    pub g: u8,
    pub b: u8,
}

/// The walking intent handed to a character controller for one step:
/// the horizontal velocity it should reach, in tenths of a unit per second,
/// and the height at which it should float its body above the ground.
#[derive(Clone, Copy, Debug, PartialEq, Eq, Structural)]
pub struct WalkBasis {
    pub desired_velocity: Vec3,
    pub float_height: i64,
}

/// The state of a character controller that this library owns: the basis
/// most recently issued, if any.
#[derive(Clone, Copy, Debug, PartialEq, Eq, Structural)]
pub struct Controller {
    pub basis: Option<WalkBasis>,
}

/// Rotation locks of a dynamic body, one per axis.
#[derive(Clone, Copy, Debug, PartialEq, Eq, Structural)]
pub struct RotationLocks {
    pub x: bool,
    pub y: bool,
    pub z: bool,
}

/// Shadow cascades of a directional light: where the first cascade ends
/// and how far shadows reach, in tenths of a unit.
#[derive(Clone, Copy, Debug, PartialEq, Eq, Structural)]
pub struct Cascades {
    pub first_cascade_far_bound: i64,
    pub maximum_distance: i64,
}

/// A directional light.
#[derive(Clone, Copy, Debug, PartialEq, Eq, Structural)]
pub struct DirectionalLight {
    pub shadows_enabled: bool,
    /// In lux.
    pub illuminance: u32,
    pub cascades: Cascades,
}

/// A 3D camera, turned to face `target` with the vertical axis up.
#[derive(Clone, Copy, Debug, PartialEq, Eq, Structural)]
pub struct Camera {
    pub target: Vec3,
}

/// One entity: an optional field for each component it may carry.
/// An absent component is `None`.
#[derive(Clone, Copy, Debug, PartialEq, Eq, Structural)]
pub struct Entity {
    pub translation: Vec3,
    pub mesh: Option<MeshShape>,
    pub color: Option<Rgb8>,
    pub body: Option<BodyKind>,
    pub collider: Option<Shape>,
    pub controller: Option<Controller>,
    /// The auxiliary collider that a controller uses to detect the ground.
    pub ground_sensor: Option<Shape>,
    pub rotation_locks: Option<RotationLocks>,
    /// Linear velocity, in tenths of a unit per second.
    pub velocity: Option<Vec3>,
    pub light: Option<DirectionalLight>,
    pub camera: Option<Camera>,
}

/// The entities of a scene; an entity's identifier is its index.
pub type World = Vec<Entity>;

impl Entity {
    /// An entity at `translation` with no component.
    pub fn at(translation: Vec3) -> (r: Entity)
        ensures
            r == empty_entity(translation),
    {
        Entity {
            translation,
            mesh: None,
            color: None,
            body: None,
            collider: None,
            controller: None,
            ground_sensor: None,
            rotation_locks: None,
            velocity: None,
            light: None,
            camera: None,
        }
    }
}

pub open spec fn empty_entity(translation: Vec3) -> Entity {
    Entity {
        translation,
        mesh: None,
        color: None,
        body: None,
        collider: None,
        controller: None,
        ground_sensor: None,
        rotation_locks: None,
        velocity: None,
        light: None,
        camera: None,
    }
}

} // verus!
