//! The output data model: bodies, joints and sensor mounts.

use vstd::prelude::*;
use std::collections::HashMap;
use glam::Quat;
use glam::Vec3;
use crate::scalar::Scalar;
use bevy_heavy::ComputeMassProperties3d;

verus! {

broadcast use vstd::std_specs::hash::group_hash_axioms;

/// A unique identifier for a robot module (rigid body).
pub type ModuleId = u16;

/// A generic material identifier referencing an external palette.
pub type MaterialId = u8;

/// Types of mechanical joints.
#[derive(Clone, Copy, Debug, PartialEq, Eq, Structural)]
pub enum JointType {
    /// Fixed connection (welded).
    Fixed,
    /// Rotates around a single axis (e.g., knee, elbow).
    Hinge,
    /// Ball and socket (3 degrees of freedom).
    Ball,
    /// Slides along a single axis (linear actuator).
    Prismatic,
}

/// Types of sensors that can be mounted on a module.
#[derive(Clone, Copy, Debug, PartialEq, Eq, Structural)]
pub enum SensorType {
    Camera,
    Lidar,
    Touch,
    IMU,
    Ultrasonic,
}

/// Limits for a joint's motion. Construction sorts `min <= max`.
#[derive(Clone, Copy, Debug)]
pub struct JointLimit {
    /// Minimum angle (radians) or distance (meters).
    pub min: Scalar,
    /// Maximum angle (radians) or distance (meters).
    pub max: Scalar,
    /// Maximum torque (Nm) or force (N) the joint motor can apply.
    pub effort: Scalar,
    /// Maximum velocity (rad/s or m/s).
    pub velocity: Scalar,
}

/// Supported geometric primitives for robot segments.
#[derive(Clone, Copy, Debug)]
pub enum ShapePrimitive {
    /// A box defined by half-extents (x, y, z).
    Box(Vec3),
    /// A cylinder defined by radius and height (aligned along Y axis).
    Cylinder { radius: Scalar, height: Scalar },
    /// A sphere defined by radius.
    Sphere(Scalar),
    /// A capsule defined by radius and height (aligned along Y axis).
    Capsule { radius: Scalar, height: Scalar },
}

/// A sensor attachment point, relative to the owning module's rest pose.
#[derive(Clone, Copy, Debug)]
pub struct SensorMount {
    /// Type of sensor.
    pub sensor_type: SensorType,
    /// Position relative to the module's center.
    pub local_position: Vec3,
    /// Orientation relative to the module.
    pub local_rotation: Quat,
}

/// A single rigid body segment of the robot.
#[derive(Debug)]
pub struct RobotModule {
    /// The physical shape of this segment.
    pub shape: ShapePrimitive,
    /// Mass in kg, computed from shape volume and density.
    pub mass: Scalar,
    /// Density in kg/m^3 used to derive mass properties.
    pub density: Scalar,
    /// Material ID for visual rendering (links to an external palette).
    pub material_id: MaterialId,
    /// Sensors attached directly to this module.
    pub sensors: Vec<SensorMount>,
    /// Initial world transform (position, rotation) for the rest pose.
    pub transform: (Vec3, Quat),
}

/// The mathematical image of a [`RobotModule`].
#[verifier::ext_equal]
pub ghost struct ModuleModel {
    pub shape: ShapePrimitive,
    pub mass: Scalar,
    pub density: Scalar,
    pub material_id: MaterialId,
    pub sensors: Seq<SensorMount>,
    pub transform: (Vec3, Quat),
}

impl View for RobotModule {
    type V = ModuleModel;

    open spec fn view(&self) -> ModuleModel {
        ModuleModel {
            shape: self.shape,
            mass: self.mass,
            density: self.density,
            material_id: self.material_id,
            sensors: self.sensors@,
            transform: self.transform,
        }
    }
}

/// A kinematic connection between two modules.
#[derive(Clone, Copy, Debug)]
pub struct JointDefinition {
    /// The parent module (the one closer to the root).
    pub parent_id: ModuleId,
    /// The child module (the one attached to the parent).
    pub child_id: ModuleId,
    /// The anchor point on the parent module, in parent's local space.
    pub anchor_parent: Vec3,
    /// The anchor point on the child module, in child's local space.
    pub anchor_child: Vec3,
    /// The type of mechanical connection.
    pub joint_type: JointType,
    /// The axis of rotation/translation in the parent's local space.
    pub axis: Vec3,
    /// Physical limits of the joint.
    pub limits: Option<JointLimit>,
}

/// The complete, engine-agnostic definition of a robot's topology.
#[derive(Debug)]
pub struct RobotBlueprint {
    /// The ID of the root module (base of the robot).
    pub root_module: Option<ModuleId>,
    /// All rigid bodies in the robot, indexed by their unique ID.
    pub modules: HashMap<ModuleId, RobotModule>,
    /// All physical connections between modules.
    pub joints: Vec<JointDefinition>,
}

/// The mathematical image of a [`RobotBlueprint`].
#[verifier::ext_equal]
pub ghost struct BlueprintModel {
    pub root_module: Option<ModuleId>,
    pub modules: Map<ModuleId, ModuleModel>,
    pub joints: Seq<JointDefinition>,
}

impl BlueprintModel {
    /// The model of a blueprint with no modules.
    pub open spec fn empty() -> BlueprintModel {
        BlueprintModel {
            root_module: None,
            modules: Map::empty(),
            joints: Seq::empty(),
        }
    }
}

impl View for RobotBlueprint {
    type V = BlueprintModel;

    open spec fn view(&self) -> BlueprintModel {
        BlueprintModel {
            root_module: self.root_module,
            modules: self.modules@.map_values(|m: RobotModule| m@),
            joints: self.joints@,
        }
    }
}

impl Default for RobotBlueprint {
    /// An empty blueprint: no root, no modules, no joints.
    fn default() -> (r: Self)
        ensures
            r@ == BlueprintModel::empty(),
    {
        let r = RobotBlueprint {
            root_module: None,
            modules: HashMap::new(),
            joints: Vec::new(),
        };
        proof {
            assert(r@.modules =~= Map::<ModuleId, ModuleModel>::empty());
            assert(r@ =~= BlueprintModel::empty());
        }
        r
    }
}

impl RobotBlueprint {
    /// Creates an empty blueprint.
    pub fn new() -> (r: Self)
        ensures
            r@ == BlueprintModel::empty(),
    {
        Self::default()
    }

    /// Registers a module under `id`. The first module ever added becomes
    /// the root.
    pub fn add_module(&mut self, id: ModuleId, module: RobotModule)
        ensures
            final(self)@.modules == old(self)@.modules.insert(id, module@),
            final(self)@.root_module == (if old(self)@.modules.len() == 0 {
                Some(id)
            } else {
                old(self)@.root_module
            }),
            final(self)@.joints == old(self)@.joints,
    {
        proof {
            assert(self.modules@.map_values(|m: RobotModule| m@).dom() =~= self.modules@.dom());
        }
        if self.modules.is_empty() {
            self.root_module = Some(id);
        }
        self.modules.insert(id, module);
        proof {
            assert(final(self).modules@.map_values(|m: RobotModule| m@) =~= old(
                self,
            ).modules@.map_values(|m: RobotModule| m@).insert(id, module@));
        }
    }

    /// Appends a joint to the joint list.
    pub fn add_joint(&mut self, joint: JointDefinition)
        ensures
            final(self)@.joints == old(self)@.joints.push(joint),
            final(self)@.modules == old(self)@.modules,
            final(self)@.root_module == old(self)@.root_module,
    {
        self.joints.push(joint);
    }
}

/// The mass that `bevy_heavy` computes for a cuboid of the given
/// half-extents at the given density.
pub uninterp spec fn cuboid_mass_of(half_size: Vec3, density: Scalar) -> Scalar;

/// The mass that `bevy_heavy` computes for a cylinder.
pub uninterp spec fn cylinder_mass_of(radius: Scalar, height: Scalar, density: Scalar) -> Scalar;

/// The mass that `bevy_heavy` computes for a sphere.
pub uninterp spec fn sphere_mass_of(radius: Scalar, density: Scalar) -> Scalar;

/// The mass that `bevy_heavy` computes for a capsule.
pub uninterp spec fn capsule_mass_of(radius: Scalar, height: Scalar, density: Scalar) -> Scalar;

/// The mass of a shape at a given density, per primitive kind.
pub open spec fn shape_mass_of(shape: ShapePrimitive, density: Scalar) -> Scalar {
    match shape {
        ShapePrimitive::Box(half_size) => cuboid_mass_of(half_size, density),
        ShapePrimitive::Cylinder { radius, height } => cylinder_mass_of(radius, height, density),
        ShapePrimitive::Sphere(radius) => sphere_mass_of(radius, density),
        ShapePrimitive::Capsule { radius, height } => capsule_mass_of(radius, height, density),
    }
}

/// Relies on `bevy_heavy`'s mass for `bevy_math`'s `Cuboid`
/// (volume times density).
#[verifier::external_body]
fn cuboid_mass(half_size: Vec3, density: Scalar) -> (m: Scalar)
    ensures
        m == cuboid_mass_of(half_size, density),
{
    let shape = bevy_math::primitives::Cuboid { half_size };
    bevy_math::primitives::Circle::new(shape.mass(density.radius))
}

/// Relies on `bevy_heavy`'s mass for `bevy_math`'s `Cylinder`
/// (volume times density), built with `Cylinder::new(radius, height)`.
#[verifier::external_body]
fn cylinder_mass(radius: Scalar, height: Scalar, density: Scalar) -> (m: Scalar)
    ensures
        m == cylinder_mass_of(radius, height, density),
{
    let shape = bevy_math::primitives::Cylinder::new(radius.radius, height.radius);
    bevy_math::primitives::Circle::new(shape.mass(density.radius))
}

/// Relies on `bevy_heavy`'s mass for `bevy_math`'s `Sphere`
/// (volume times density).
#[verifier::external_body]
fn sphere_mass(radius: Scalar, density: Scalar) -> (m: Scalar)
    ensures
        m == sphere_mass_of(radius, density),
{
    let shape = bevy_math::primitives::Sphere::new(radius.radius);
    bevy_math::primitives::Circle::new(shape.mass(density.radius))
}

/// Relies on `bevy_heavy`'s mass for `bevy_math`'s `Capsule3d`
/// (volume times density), built with `Capsule3d::new(radius, height)`.
#[verifier::external_body]
fn capsule_mass(radius: Scalar, height: Scalar, density: Scalar) -> (m: Scalar)
    ensures
        m == capsule_mass_of(radius, height, density),
{
    let shape = bevy_math::primitives::Capsule3d::new(radius.radius, height.radius);
    bevy_math::primitives::Circle::new(shape.mass(density.radius))
}

impl ShapePrimitive {
    /// The analytic mass of this primitive at the given density, as the
    /// geometry-properties provider computes it.
    pub fn mass(&self, density: Scalar) -> (m: Scalar)
        ensures
            m == shape_mass_of(*self, density),
    {
        match *self {
            ShapePrimitive::Box(half_size) => cuboid_mass(half_size, density),
            ShapePrimitive::Cylinder { radius, height } => cylinder_mass(radius, height, density),
            ShapePrimitive::Sphere(radius) => sphere_mass(radius, density),
            ShapePrimitive::Capsule { radius, height } => capsule_mass(radius, height, density),
        }
    }
}

} // verus!
