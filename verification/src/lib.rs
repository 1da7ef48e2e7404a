//! Engine-agnostic robot interpretation layer for `symbios` L-systems.
//!
//! The crate translates an L-system symbol sequence (a genotype) into a
//! [`blueprint::RobotBlueprint`] (a phenotype): a graph of rigid bodies
//! connected by joints, with sensors attached at local frames. The
//! interpreter is a verified, single-pass state machine; every geometric
//! quantity is carried opaquely and every floating-point operation is pinned
//! to a named, deterministic function of its operands.

pub mod scalar;
pub mod vecmath;
pub mod blueprint;
pub mod turtle;
pub mod symstream;
pub mod interpreter;
pub mod laws;

pub use scalar::Scalar;
pub use blueprint::BlueprintModel;
pub use blueprint::JointDefinition;
pub use blueprint::JointLimit;
pub use blueprint::JointType;
pub use blueprint::MaterialId;
pub use blueprint::ModuleId;
pub use blueprint::ModuleModel;
pub use blueprint::RobotBlueprint;
pub use blueprint::RobotModule;
pub use blueprint::SensorMount;
pub use blueprint::SensorType;
pub use blueprint::ShapePrimitive;
pub use interpreter::InterpModel;
pub use interpreter::RobotConfig;
pub use interpreter::RobotInterpreter;
pub use interpreter::RunState;
pub use interpreter::interpretation;
pub use turtle::ActiveJointConfig;
pub use turtle::RobotOp;
pub use turtle::RobotTurtleState;
