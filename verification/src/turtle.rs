//! Turtle state and operations for robotic interpretation.

use vstd::prelude::*;
use glam::Quat;
use glam::Vec3;
use crate::blueprint::JointLimit;
use crate::blueprint::JointType;
use crate::blueprint::MaterialId;
use crate::blueprint::ModuleId;
use crate::blueprint::SensorType;
use crate::scalar::Scalar;
use crate::scalar::sc_int_of;
use crate::scalar::sc_div_of;
use crate::scalar::sc_from_int;
use crate::scalar::sc_div;
use crate::vecmath::axis_angle;
use crate::vecmath::axis_angle_of;
use crate::vecmath::identity_quat;
use crate::vecmath::quat_identity;
use crate::vecmath::quat_prod;
use crate::vecmath::quat_prod_of;
use crate::vecmath::rot_apply;
use crate::vecmath::rot_apply_of;
use crate::vecmath::unit_x;
use crate::vecmath::unit_x_vec;
use crate::vecmath::unit_y;
use crate::vecmath::unit_y_vec;
use crate::vecmath::unit_z;
use crate::vecmath::unit_z_vec;
use crate::vecmath::vec3_zero;
use crate::vecmath::zero_vec;

verus! {

/// Configuration for the next joint to be created.
///
/// This acts as a "pen style" for physics: when the turtle spawns a new
/// module attached to an existing one, it uses these settings to create the
/// connection.
#[derive(Clone, Copy, Debug)]
pub struct ActiveJointConfig {
    /// The mechanical type of the connection (hinge, fixed, ...).
    pub joint_type: JointType,
    /// The axis of rotation/translation relative to the parent's
    /// orientation.
    pub axis: Vec3,
    /// Physical limits (angle, velocity, effort).
    pub limits: Option<JointLimit>,
}

/// The joint configuration a fresh turtle starts with: a rigid weld about
/// the X axis, without limits.
pub open spec fn default_joint_config() -> ActiveJointConfig {
    ActiveJointConfig { joint_type: JointType::Fixed, axis: unit_x(), limits: None }
}

impl Default for ActiveJointConfig {
    /// A rigid weld about the X axis, without limits.
    fn default() -> (r: Self)
        ensures
            r == default_joint_config(),
    {
        ActiveJointConfig { joint_type: JointType::Fixed, axis: unit_x_vec(), limits: None }
    }
}

/// The state of the robot-builder turtle.
///
/// Tracks position, orientation, and the topological context (which module
/// the turtle is currently extending).
#[derive(Clone, Copy, Debug)]
pub struct RobotTurtleState {
    /// Current world-space position of the cursor.
    pub position: Vec3,
    /// Current world-space orientation.
    pub rotation: Quat,
    /// The ID of the module (rigid body) the turtle is currently standing
    /// on. If this is `Some(id)`, the next spawned module is jointed to it.
    pub current_module_id: Option<ModuleId>,
    /// Configuration for the next joint creation.
    pub joint_config: ActiveJointConfig,
    /// Current material ID for new modules.
    pub material_id: MaterialId,
    /// Current default width/radius for shapes.
    pub width: Scalar,
}

/// The state a fresh turtle starts in: at the origin, unrotated, standing
/// on no module, with a width of one tenth.
pub open spec fn default_turtle() -> RobotTurtleState {
    RobotTurtleState {
        position: vec3_zero(),
        rotation: quat_identity(),
        current_module_id: None,
        joint_config: default_joint_config(),
        material_id: 0,
        width: sc_div_of(sc_int_of(1), sc_int_of(10)),
    }
}

impl Default for RobotTurtleState {
    /// The origin pose with identity rotation and a width of one tenth.
    fn default() -> (r: Self)
        ensures
            r == default_turtle(),
    {
        RobotTurtleState {
            position: zero_vec(),
            rotation: identity_quat(),
            current_module_id: None,
            joint_config: ActiveJointConfig::default(),
            material_id: 0,
            width: sc_div(sc_from_int(1), sc_from_int(10)),
        }
    }
}

impl RobotTurtleState {
    /// Returns the turtle's local up direction (Y axis) in world space.
    pub fn up(&self) -> (r: Vec3)
        ensures
            r == rot_apply_of(self.rotation, unit_y()),
    {
        rot_apply(self.rotation, unit_y_vec())
    }

    /// Returns the turtle's local forward direction (Z axis) in world space.
    pub fn forward(&self) -> (r: Vec3)
        ensures
            r == rot_apply_of(self.rotation, unit_z()),
    {
        rot_apply(self.rotation, unit_z_vec())
    }

    /// Returns the turtle's local right direction (X axis) in world space.
    pub fn right(&self) -> (r: Vec3)
        ensures
            r == rot_apply_of(self.rotation, unit_x()),
    {
        rot_apply(self.rotation, unit_x_vec())
    }

    /// Rotates the turtle around its local X axis by `angle` radians
    /// (pitch).
    pub fn rotate_local_x(&mut self, angle: Scalar)
        ensures
            final(self).rotation == quat_prod_of(
                old(self).rotation,
                axis_angle_of(unit_x(), angle),
            ),
            *final(self) == (RobotTurtleState { rotation: final(self).rotation, ..*old(self) }),
    {
        let rot = axis_angle(unit_x_vec(), angle);
        self.rotation = quat_prod(self.rotation, rot);
    }

    /// Rotates the turtle around its local Y axis by `angle` radians
    /// (roll).
    pub fn rotate_local_y(&mut self, angle: Scalar)
        ensures
            final(self).rotation == quat_prod_of(
                old(self).rotation,
                axis_angle_of(unit_y(), angle),
            ),
            *final(self) == (RobotTurtleState { rotation: final(self).rotation, ..*old(self) }),
    {
        let rot = axis_angle(unit_y_vec(), angle);
        self.rotation = quat_prod(self.rotation, rot);
    }

    /// Rotates the turtle around its local Z axis by `angle` radians (yaw).
    pub fn rotate_local_z(&mut self, angle: Scalar)
        ensures
            final(self).rotation == quat_prod_of(
                old(self).rotation,
                axis_angle_of(unit_z(), angle),
            ),
            *final(self) == (RobotTurtleState { rotation: final(self).rotation, ..*old(self) }),
    {
        let rot = axis_angle(unit_z_vec(), angle);
        self.rotation = quat_prod(self.rotation, rot);
    }
}

/// Operations that can be performed by the robot turtle.
#[derive(Clone, Copy, Debug)]
pub enum RobotOp {
    /// Move forward without spawning geometry.
    Move,
    /// Rotate around the local Z axis; the payload is the sign factor that
    /// distinguishes the left and right turn symbols.
    Yaw(Scalar),
    /// Rotate around the local X axis.
    Pitch(Scalar),
    /// Rotate around the local Y axis.
    Roll(Scalar),
    /// Turn half a revolution around the local Z axis.
    TurnAround,
    /// Spawn a box shape. Params: `(length, width, height)`.
    SpawnBox,
    /// Spawn a cylinder shape. Params: `(length, radius)`.
    SpawnCylinder,
    /// Spawn a sphere shape. Params: `(radius)`.
    SpawnSphere,
    /// Spawn a capsule shape. Params: `(length, radius)`.
    SpawnCapsule,
    /// Set the type of the next joint to be created.
    SetJointType(JointType),
    /// Set joint limits. Params: `(min, max, effort, velocity)`.
    SetJointLimits,
    /// Set the material ID for visual rendering.
    SetMaterial,
    /// Set the default width/radius for subsequent shapes.
    SetWidth,
    /// Mount a sensor at the current location.
    MountSensor(SensorType),
    /// Save the full turtle state onto the stack.
    Push,
    /// Restore the most recently pushed turtle state.
    Pop,
    /// No-op: the symbol has no registered meaning.
    Ignore,
}

} // verus!
