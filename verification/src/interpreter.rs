//! The interpreter that converts an L-system symbol sequence into a
//! [`RobotBlueprint`], together with its mathematical model.
//!
//! The model is a deterministic fold: [`run`] walks the symbol stream once
//! and [`apply_op`] gives the exact effect of each operation on the running
//! state. [`RobotInterpreter::build_blueprint`] is verified to produce
//! exactly the blueprint of that fold.

use vstd::prelude::*;
use glam::Vec3;
use symbios::SymbiosState;
use symbios::SymbolTable;
use crate::blueprint::BlueprintModel;
use crate::blueprint::JointDefinition;
use crate::blueprint::JointLimit;
use crate::blueprint::ModuleModel;
use crate::blueprint::RobotBlueprint;
use crate::blueprint::RobotModule;
use crate::blueprint::SensorMount;
use crate::blueprint::ShapePrimitive;
use crate::blueprint::shape_mass_of;
use crate::scalar::Scalar;
use crate::scalar::sc_abs;
use crate::scalar::sc_abs_of;
use crate::scalar::sc_byte_of;
use crate::scalar::sc_div;
use crate::scalar::sc_degrees_of;
use crate::scalar::sc_from_int;
use crate::scalar::sc_half_of;
use crate::scalar::sc_int_of;
use crate::scalar::sc_le;
use crate::scalar::sc_le_of;
use crate::scalar::sc_mul;
use crate::scalar::sc_mul_of;
use crate::scalar::sc_neg;
use crate::scalar::sc_neg_of;
use crate::scalar::sc_pi;
use crate::scalar::sc_pi_exec;
use crate::scalar::sc_radians_of;
use crate::scalar::sc_to_byte;
use crate::scalar::sc_to_degrees;
use crate::scalar::sc_to_radians;
use crate::symstream::StreamEntry;
use crate::symstream::raw_len_of;
use crate::symstream::resolve_symbol;
use crate::symstream::state_len;
use crate::symstream::state_view;
use crate::symstream::sym_id_of;
use crate::symstream::views_of;
use crate::turtle::RobotOp;
use crate::turtle::RobotTurtleState;
use crate::turtle::default_turtle;
use crate::vecmath::quat_inv_of;
use crate::vecmath::quat_prod_of;
use crate::vecmath::rot_apply_of;
use crate::vecmath::unit_x;
use crate::vecmath::unit_y;
use crate::vecmath::unit_z;
use crate::vecmath::vec3_of;
use crate::vecmath::vec3_new;
use crate::vecmath::vec_diff;
use crate::vecmath::vec_diff_of;
use crate::vecmath::vec_scale;
use crate::vecmath::vec_scale_of;
use crate::vecmath::vec_sum;
use crate::vecmath::vec_sum_of;
use crate::vecmath::quat_inv;
use crate::vecmath::quat_prod;
use crate::vecmath::rot_apply;

verus! {

broadcast use vstd::std_specs::hash::group_hash_axioms;

/// Configuration for robot interpretation.
#[derive(Clone, Copy, Debug)]
pub struct RobotConfig {
    /// Default length/height for shapes if no parameter is provided.
    pub default_length: Scalar,
    /// Default width/radius for shapes.
    pub default_width: Scalar,
    /// Default density (kg/m^3) for calculating mass.
    pub default_density: Scalar,
    /// Default rotation angle (in radians) for yaw/pitch/roll.
    pub default_angle: Scalar,
    /// Maximum stack depth for push/pop operations.
    pub max_stack_depth: usize,
}

impl Default for RobotConfig {
    /// Unit length, a width of one fifth, a density of one hundred, an
    /// eighth of a revolution as the default angle, and a stack depth of
    /// 1024.
    fn default() -> (r: Self)
        ensures
            r.default_length == sc_int_of(1),
            r.default_width == crate::scalar::sc_div_of(sc_int_of(1), sc_int_of(5)),
            r.default_density == sc_int_of(100),
            r.default_angle == sc_radians_of(sc_int_of(45)),
            r.max_stack_depth == 1024,
    {
        RobotConfig {
            default_length: sc_from_int(1),
            default_width: sc_div(sc_from_int(1), sc_from_int(5)),
            default_density: sc_from_int(100),
            default_angle: sc_to_radians(sc_from_int(45)),
            max_stack_depth: 1024,
        }
    }
}

/// The full state of one interpretation pass: the turtle, the save stack,
/// the number of modules spawned so far, and the blueprint built so far.
#[verifier::ext_equal]
pub ghost struct RunState {
    pub turtle: RobotTurtleState,
    pub stack: Seq<RobotTurtleState>,
    pub spawned: nat,
    pub blueprint: BlueprintModel,
}

/// The parameter at position `i`, or the operation's default if absent.
pub open spec fn param_or(params: Seq<Scalar>, i: int, default: Scalar) -> Scalar {
    if 0 <= i < params.len() {
        params[i]
    } else {
        default
    }
}

/// The operation registered for a symbol; unmapped identifiers resolve to
/// a no-op.
pub open spec fn resolve_op(ops: Seq<RobotOp>, sym: u16) -> RobotOp {
    if (sym as int) < ops.len() {
        ops[sym as int]
    } else {
        RobotOp::Ignore
    }
}

/// The turtle's local up direction in world space.
pub open spec fn up_of(t: RobotTurtleState) -> Vec3 {
    rot_apply_of(t.rotation, unit_y())
}

/// The effect of spawning one module of the given shape: the module is
/// registered under the next identifier, a joint to the current module is
/// created when one exists, and the turtle advances by the growth length
/// along its up axis. Once the 16-bit identifier space is exhausted,
/// further spawns leave the state unchanged.
pub open spec fn apply_spawn(
    density: Scalar,
    turtle: RobotTurtleState,
    spawned: nat,
    bp: BlueprintModel,
    shape: ShapePrimitive,
    growth: Scalar,
) -> (RobotTurtleState, nat, BlueprintModel) {
    if spawned >= 0x10000 {
        (turtle, spawned, bp)
    } else {
        let id = spawned as u16;
        let up = up_of(turtle);
        let center = vec_sum_of(turtle.position, vec_scale_of(up, sc_half_of(growth)));
        let module = ModuleModel {
            shape,
            mass: shape_mass_of(shape, density),
            density,
            material_id: turtle.material_id,
            sensors: Seq::empty(),
            transform: (center, turtle.rotation),
        };
        let root = if bp.modules.len() == 0 {
            Some(id)
        } else {
            bp.root_module
        };
        let modules = bp.modules.insert(id, module);
        let joints = match turtle.current_module_id {
            Some(parent) => if modules.contains_key(parent) {
                let parent_pos = modules[parent].transform.0;
                let parent_rot = modules[parent].transform.1;
                let anchor_parent = rot_apply_of(
                    quat_inv_of(parent_rot),
                    vec_diff_of(turtle.position, parent_pos),
                );
                let anchor_child = vec3_of(sc_int_of(0), sc_neg_of(sc_half_of(growth)), sc_int_of(0));
                let axis = rot_apply_of(
                    quat_inv_of(parent_rot),
                    rot_apply_of(turtle.rotation, turtle.joint_config.axis),
                );
                bp.joints.push(
                    JointDefinition {
                        parent_id: parent,
                        child_id: id,
                        anchor_parent,
                        anchor_child,
                        joint_type: turtle.joint_config.joint_type,
                        axis,
                        limits: turtle.joint_config.limits,
                    },
                )
            } else {
                bp.joints
            },
            None => bp.joints,
        };
        (
            RobotTurtleState {
                position: vec_sum_of(turtle.position, vec_scale_of(up, growth)),
                current_module_id: Some(id),
                ..turtle
            },
            spawned + 1,
            BlueprintModel { root_module: root, modules, joints },
        )
    }
}

/// The exact effect of one operation on the running state.
pub open spec fn apply_op(
    cfg: RobotConfig,
    st: RunState,
    op: RobotOp,
    params: Seq<Scalar>,
) -> RunState {
    match op {
        RobotOp::Move => {
            let len = param_or(params, 0, cfg.default_length);
            RunState {
                turtle: RobotTurtleState {
                    position: vec_sum_of(st.turtle.position, vec_scale_of(up_of(st.turtle), len)),
                    ..st.turtle
                },
                ..st
            }
        },
        RobotOp::Yaw(s) => RunState { turtle: rotated(st.turtle, unit_z(), yaw_angle(cfg, params, s)), ..st },
        RobotOp::Pitch(s) => RunState { turtle: rotated(st.turtle, unit_x(), yaw_angle(cfg, params, s)), ..st },
        RobotOp::Roll(s) => RunState { turtle: rotated(st.turtle, unit_y(), yaw_angle(cfg, params, s)), ..st },
        RobotOp::TurnAround => RunState { turtle: rotated(st.turtle, unit_z(), sc_pi()), ..st },
        RobotOp::SpawnBox => {
            let len = sc_abs_of(param_or(params, 0, cfg.default_length));
            let wid = sc_abs_of(param_or(params, 1, st.turtle.width));
            let hgt = sc_abs_of(param_or(params, 2, st.turtle.width));
            let shape = ShapePrimitive::Box(
                vec3_of(sc_half_of(wid), sc_half_of(len), sc_half_of(hgt)),
            );
            spawned_state(cfg, st, shape, len)
        },
        RobotOp::SpawnCylinder => {
            let len = sc_abs_of(param_or(params, 0, cfg.default_length));
            let rad = sc_abs_of(param_or(params, 1, sc_half_of(st.turtle.width)));
            spawned_state(cfg, st, ShapePrimitive::Cylinder { radius: rad, height: len }, len)
        },
        RobotOp::SpawnCapsule => {
            let len = sc_abs_of(param_or(params, 0, cfg.default_length));
            let rad = sc_abs_of(param_or(params, 1, sc_half_of(st.turtle.width)));
            spawned_state(cfg, st, ShapePrimitive::Capsule { radius: rad, height: len }, len)
        },
        RobotOp::SpawnSphere => {
            let rad = sc_abs_of(param_or(params, 0, sc_half_of(st.turtle.width)));
            spawned_state(cfg, st, ShapePrimitive::Sphere(rad), sc_mul_of(rad, sc_int_of(2)))
        },
        RobotOp::SetJointType(t) => RunState {
            turtle: RobotTurtleState {
                joint_config: crate::turtle::ActiveJointConfig {
                    joint_type: t,
                    ..st.turtle.joint_config
                },
                ..st.turtle
            },
            ..st
        },
        RobotOp::SetJointLimits => RunState {
            turtle: RobotTurtleState {
                joint_config: crate::turtle::ActiveJointConfig {
                    limits: Some(sorted_limits(params)),
                    ..st.turtle.joint_config
                },
                ..st.turtle
            },
            ..st
        },
        RobotOp::SetMaterial => RunState {
            turtle: RobotTurtleState {
                material_id: sc_byte_of(param_or(params, 0, sc_int_of(0))),
                ..st.turtle
            },
            ..st
        },
        RobotOp::SetWidth => RunState {
            turtle: RobotTurtleState {
                width: param_or(params, 0, st.turtle.width),
                ..st.turtle
            },
            ..st
        },
        RobotOp::MountSensor(sensor_type) => mounted_state(st, sensor_type),
        RobotOp::Push => if st.stack.len() < cfg.max_stack_depth {
            RunState { stack: st.stack.push(st.turtle), ..st }
        } else {
            st
        },
        RobotOp::Pop => if st.stack.len() > 0 {
            RunState { turtle: st.stack.last(), stack: st.stack.drop_last(), ..st }
        } else {
            st
        },
        RobotOp::Ignore => st,
    }
}

/// The rotation angle of a yaw/pitch/roll step: the first parameter (in
/// degrees, defaulting to the configured angle) converted to radians and
/// multiplied by the symbol's sign factor.
pub open spec fn yaw_angle(cfg: RobotConfig, params: Seq<Scalar>, s: Scalar) -> Scalar {
    sc_mul_of(sc_radians_of(param_or(params, 0, sc_degrees_of(cfg.default_angle))), s)
}

/// The turtle after an intrinsic rotation about a local axis.
pub open spec fn rotated(
    t: RobotTurtleState,
    axis: Vec3,
    angle: Scalar,
) -> RobotTurtleState {
    RobotTurtleState {
        rotation: quat_prod_of(t.rotation, crate::vecmath::axis_angle_of(axis, angle)),
        ..t
    }
}

/// The joint limits that a set-limits operation stores: minimum and
/// maximum sorted, so a caller supplying them in either order yields a
/// valid range.
pub open spec fn sorted_limits(params: Seq<Scalar>) -> JointLimit {
    let a = param_or(params, 0, sc_neg_of(sc_pi()));
    let b = param_or(params, 1, sc_pi());
    let lo = if sc_le_of(a, b) {
        a
    } else {
        b
    };
    let hi = if sc_le_of(a, b) {
        b
    } else {
        a
    };
    JointLimit {
        min: lo,
        max: hi,
        effort: param_or(params, 2, sc_int_of(100)),
        velocity: param_or(params, 3, sc_int_of(10)),
    }
}

/// The state after a spawn, lifted to the full running state.
pub open spec fn spawned_state(
    cfg: RobotConfig,
    st: RunState,
    shape: ShapePrimitive,
    growth: Scalar,
) -> RunState {
    let r = apply_spawn(cfg.default_density, st.turtle, st.spawned, st.blueprint, shape, growth);
    RunState { turtle: r.0, spawned: r.1, blueprint: r.2, ..st }
}

/// The state after a sensor mount: a mount is appended to the current
/// module's list when a current module exists, and nothing happens
/// otherwise.
pub open spec fn mounted_state(st: RunState, sensor_type: crate::blueprint::SensorType) -> RunState {
    match st.turtle.current_module_id {
        Some(mid) => if st.blueprint.modules.contains_key(mid) {
            let module = st.blueprint.modules[mid];
            let mpos = module.transform.0;
            let mrot = module.transform.1;
            let mount = SensorMount {
                sensor_type,
                local_position: rot_apply_of(
                    quat_inv_of(mrot),
                    vec_diff_of(st.turtle.position, mpos),
                ),
                local_rotation: quat_prod_of(quat_inv_of(mrot), st.turtle.rotation),
            };
            RunState {
                blueprint: BlueprintModel {
                    modules: st.blueprint.modules.insert(
                        mid,
                        ModuleModel { sensors: module.sensors.push(mount), ..module },
                    ),
                    ..st.blueprint
                },
                ..st
            }
        } else {
            st
        },
        None => st,
    }
}

/// The state a pass starts in: a fresh turtle carrying the configured
/// default width, an empty stack and an empty blueprint.
pub open spec fn init_state(cfg: RobotConfig) -> RunState {
    RunState {
        turtle: RobotTurtleState { width: cfg.default_width, ..default_turtle() },
        stack: Seq::empty(),
        spawned: 0,
        blueprint: BlueprintModel::empty(),
    }
}

/// The state after the first `n` entries of the stream, each dispatched
/// through the operation table.
pub open spec fn run(
    cfg: RobotConfig,
    ops: Seq<RobotOp>,
    views: Seq<StreamEntry>,
    n: int,
) -> RunState
    decreases n,
{
    if n <= 0 {
        init_state(cfg)
    } else {
        let prev = run(cfg, ops, views, n - 1);
        apply_op(cfg, prev, resolve_op(ops, views[n - 1].0), views[n - 1].1)
    }
}

/// The blueprint that interpreting a whole stream produces.
pub open spec fn interpretation(
    cfg: RobotConfig,
    ops: Seq<RobotOp>,
    views: Seq<StreamEntry>,
) -> BlueprintModel {
    run(cfg, ops, views, views.len() as int).blueprint
}

/// The mathematical image of a [`RobotInterpreter`]: its operation table
/// and its configuration.
#[verifier::ext_equal]
pub ghost struct InterpModel {
    pub ops: Seq<RobotOp>,
    pub config: RobotConfig,
}

/// Interprets L-system output to build a [`RobotBlueprint`].
pub struct RobotInterpreter {
    op_map: Vec<RobotOp>,
    config: RobotConfig,
}

impl View for RobotInterpreter {
    type V = InterpModel;

    closed spec fn view(&self) -> InterpModel {
        InterpModel { ops: self.op_map@, config: self.config }
    }
}

/// The operation table after one assignment: the table is padded with
/// no-ops up to the assigned identifier, which is then overwritten.
pub open spec fn set_op_model(m: Seq<RobotOp>, sym_id: u16, op: RobotOp) -> Seq<RobotOp> {
    let padded = if (sym_id as int) < m.len() {
        m
    } else {
        m + Seq::new((sym_id as int + 1 - m.len()) as nat, |i: int| RobotOp::Ignore)
    };
    padded.update(sym_id as int, op)
}

impl RobotInterpreter {
    /// Creates a new interpreter with the given configuration and an empty
    /// symbol map.
    pub fn new(config: RobotConfig) -> (r: Self)
        ensures
            r@.ops == Seq::<RobotOp>::empty(),
            r@.config == config,
    {
        let r = RobotInterpreter { op_map: Vec::new(), config };
        proof {
            assert(r@.ops =~= Seq::<RobotOp>::empty());
        }
        r
    }

    /// Replaces the entire symbol-to-operation map in one step (builder
    /// pattern). The map is indexed by symbol ID; any ID that falls outside
    /// it is treated as a no-op.
    pub fn with_map(self, map: Vec<RobotOp>) -> (r: Self)
        ensures
            r@.ops == map@,
            r@.config == self@.config,
    {
        RobotInterpreter { op_map: map, config: self.config }
    }

    /// Assigns a single [`RobotOp`] to a symbol ID. The map is grown
    /// automatically when `sym_id` exceeds its current length; gaps are
    /// filled with no-ops.
    pub fn set_op(&mut self, sym_id: u16, op: RobotOp)
        ensures
            final(self)@.ops == set_op_model(old(self)@.ops, sym_id, op),
            final(self)@.config == old(self)@.config,
    {
        let idx = sym_id as usize;
        if idx >= self.op_map.len() {
            while self.op_map.len() < idx + 1
                invariant
                    idx == sym_id as usize,
                    old(self).op_map@.len() <= self.op_map@.len() <= idx + 1,
                    self.op_map@ == old(self).op_map@ + Seq::new(
                        (self.op_map@.len() - old(self).op_map@.len()) as nat,
                        |i: int| RobotOp::Ignore,
                    ),
                    self.config == old(self).config,
                decreases idx + 1 - self.op_map.len(),
            {
                self.op_map.push(RobotOp::Ignore);
                proof {
                    assert(self.op_map@ =~= old(self).op_map@ + Seq::new(
                        (self.op_map@.len() - old(self).op_map@.len()) as nat,
                        |i: int| RobotOp::Ignore,
                    ));
                }
            }
        }
        self.op_map[idx] = op;
        proof {
            assert(final(self)@.ops =~= set_op_model(old(self)@.ops, sym_id, op));
        }
    }
}


/// The parameter at `idx`, or `default` when the list is too short.
fn param_or_default(params: &Vec<Scalar>, idx: usize, default: Scalar) -> (r: Scalar)
    ensures
        r == param_or(params@, idx as int, default),
{
    if idx < params.len() {
        params[idx]
    } else {
        default
    }
}

impl RobotInterpreter {
    /// Spawns one module of the given shape and growth length: registers
    /// it, creates the joint to the current module when one exists, and
    /// advances the turtle.
    fn spawn_module(
        &self,
        blueprint: &mut RobotBlueprint,
        turtle: &mut RobotTurtleState,
        spawned: &mut usize,
        shape: ShapePrimitive,
        growth: Scalar,
    )
        ensures
            *final(turtle) == apply_spawn(
                self.config.default_density,
                *old(turtle),
                *old(spawned) as nat,
                old(blueprint)@,
                shape,
                growth,
            ).0,
            *final(spawned) as nat == apply_spawn(
                self.config.default_density,
                *old(turtle),
                *old(spawned) as nat,
                old(blueprint)@,
                shape,
                growth,
            ).1,
            final(blueprint)@ == apply_spawn(
                self.config.default_density,
                *old(turtle),
                *old(spawned) as nat,
                old(blueprint)@,
                shape,
                growth,
            ).2,
    {
        if *spawned < 0x10000 {
            let id = *spawned as u16;
            let two = sc_from_int(2);
            let up = turtle.up();
            let center = vec_sum(turtle.position, vec_scale(up, sc_div(growth, two)));
            let rotation = turtle.rotation;
            let density = self.config.default_density;
            let mass = shape.mass(density);
            let module = RobotModule {
                shape,
                mass,
                density,
                material_id: turtle.material_id,
                sensors: Vec::new(),
                transform: (center, rotation),
            };
            proof {
                assert(module@.sensors =~= Seq::<SensorMount>::empty());
            }
            blueprint.add_module(id, module);
            if let Some(parent) = turtle.current_module_id {
                let parent_transform = match blueprint.modules.get(&parent) {
                    Some(parent_module) => Some(parent_module.transform),
                    None => None,
                };
                match parent_transform {
                    Some(transform) => {
                        let parent_pos = transform.0;
                        let parent_rot = transform.1;
                        let inv = quat_inv(parent_rot);
                        let anchor_parent = rot_apply(inv, vec_diff(turtle.position, parent_pos));
                        let anchor_child = vec3_new(
                            sc_from_int(0),
                            sc_neg(sc_div(growth, two)),
                            sc_from_int(0),
                        );
                        let axis = rot_apply(inv, rot_apply(turtle.rotation, turtle.joint_config.axis));
                        blueprint.add_joint(
                            JointDefinition {
                                parent_id: parent,
                                child_id: id,
                                anchor_parent,
                                anchor_child,
                                joint_type: turtle.joint_config.joint_type,
                                axis,
                                limits: turtle.joint_config.limits,
                            },
                        );
                    },
                    None => {},
                }
            }
            turtle.position = vec_sum(turtle.position, vec_scale(up, growth));
            turtle.current_module_id = Some(id);
            *spawned = *spawned + 1;
            proof {
                let r = apply_spawn(
                    self.config.default_density,
                    *old(turtle),
                    *old(spawned) as nat,
                    old(blueprint)@,
                    shape,
                    growth,
                );
                assert(final(blueprint)@ =~= r.2);
            }
        }
    }

    /// Interprets the full L-system `state` and returns the resulting
    /// [`RobotBlueprint`].
    ///
    /// Walks every symbol in `state` in order, dispatching each to its
    /// registered [`RobotOp`]; the result is exactly the blueprint of the
    /// model fold [`interpretation`] over the stream's views. The turtle
    /// starts at the world origin facing up; symbols with no registered
    /// mapping are silently ignored.
    pub fn build_blueprint(&self, state: &SymbiosState) -> (bp: RobotBlueprint)
        ensures
            bp@ == interpretation(self@.config, self@.ops, views_of(*state)),
    {
        let mut blueprint = RobotBlueprint::default();
        let mut turtle = RobotTurtleState::default();
        turtle.width = self.config.default_width;
        let mut stack: Vec<RobotTurtleState> = Vec::new();
        let mut spawned: usize = 0;
        let n = state_len(state);
        let mut i: usize = 0;
        let mut halted = false;
        proof {
            assert((RunState {
                turtle,
                stack: stack@,
                spawned: spawned as nat,
                blueprint: blueprint@,
            }) =~= init_state(self@.config));
        }
        while i < n && !halted
            invariant
                i <= n,
                n == raw_len_of(*state),
                views_of(*state).len() <= n,
                !halted ==> i <= views_of(*state).len(),
                !halted ==> (RunState {
                    turtle,
                    stack: stack@,
                    spawned: spawned as nat,
                    blueprint: blueprint@,
                }) == run(self@.config, self@.ops, views_of(*state), i as int),
                halted ==> (RunState {
                    turtle,
                    stack: stack@,
                    spawned: spawned as nat,
                    blueprint: blueprint@,
                }) == run(
                    self@.config,
                    self@.ops,
                    views_of(*state),
                    views_of(*state).len() as int,
                ),
            decreases n - i + (if halted { 0int } else { 1int }),
        {
            let ghost views = views_of(*state);
            let ghost cfg = self@.config;
            let ghost ops = self@.ops;
            let ghost pre = RunState {
                turtle,
                stack: stack@,
                spawned: spawned as nat,
                blueprint: blueprint@,
            };
            match state_view(state, i) {
                None => {
                    proof {
                        assert(i == views.len());
                    }
                    halted = true;
                },
                Some(entry) => {
                    proof {
                        assert(i < views.len());
                    }
                    let sym = entry.0;
                    let params = entry.1;
                    let op = if (sym as usize) < self.op_map.len() {
                        self.op_map[sym as usize]
                    } else {
                        RobotOp::Ignore
                    };
                    proof {
                        assert(op == resolve_op(ops, sym));
                        assert(views[i as int].0 == sym);
                        assert(views[i as int].1 == params@);
                    }
                    match op {
                        RobotOp::Move => {
                            let len = param_or_default(&params, 0, self.config.default_length);
                            let up = turtle.up();
                            turtle.position = vec_sum(turtle.position, vec_scale(up, len));
                        },
                        RobotOp::Yaw(s) => {
                            let deg = param_or_default(
                                &params,
                                0,
                                sc_to_degrees(self.config.default_angle),
                            );
                            turtle.rotate_local_z(sc_mul(sc_to_radians(deg), s));
                        },
                        RobotOp::Pitch(s) => {
                            let deg = param_or_default(
                                &params,
                                0,
                                sc_to_degrees(self.config.default_angle),
                            );
                            turtle.rotate_local_x(sc_mul(sc_to_radians(deg), s));
                        },
                        RobotOp::Roll(s) => {
                            let deg = param_or_default(
                                &params,
                                0,
                                sc_to_degrees(self.config.default_angle),
                            );
                            turtle.rotate_local_y(sc_mul(sc_to_radians(deg), s));
                        },
                        RobotOp::TurnAround => {
                            turtle.rotate_local_z(sc_pi_exec());
                        },
                        RobotOp::SpawnBox => {
                            let two = sc_from_int(2);
                            let len = sc_abs(
                                param_or_default(&params, 0, self.config.default_length),
                            );
                            let wid = sc_abs(param_or_default(&params, 1, turtle.width));
                            let hgt = sc_abs(param_or_default(&params, 2, turtle.width));
                            let shape = ShapePrimitive::Box(
                                vec3_new(sc_div(wid, two), sc_div(len, two), sc_div(hgt, two)),
                            );
                            self.spawn_module(&mut blueprint, &mut turtle, &mut spawned, shape, len);
                        },
                        RobotOp::SpawnCylinder => {
                            let two = sc_from_int(2);
                            let len = sc_abs(
                                param_or_default(&params, 0, self.config.default_length),
                            );
                            let rad = sc_abs(
                                param_or_default(&params, 1, sc_div(turtle.width, two)),
                            );
                            let shape = ShapePrimitive::Cylinder { radius: rad, height: len };
                            self.spawn_module(&mut blueprint, &mut turtle, &mut spawned, shape, len);
                        },
                        RobotOp::SpawnCapsule => {
                            let two = sc_from_int(2);
                            let len = sc_abs(
                                param_or_default(&params, 0, self.config.default_length),
                            );
                            let rad = sc_abs(
                                param_or_default(&params, 1, sc_div(turtle.width, two)),
                            );
                            let shape = ShapePrimitive::Capsule { radius: rad, height: len };
                            self.spawn_module(&mut blueprint, &mut turtle, &mut spawned, shape, len);
                        },
                        RobotOp::SpawnSphere => {
                            let two = sc_from_int(2);
                            let rad = sc_abs(
                                param_or_default(&params, 0, sc_div(turtle.width, two)),
                            );
                            let shape = ShapePrimitive::Sphere(rad);
                            let growth = sc_mul(rad, two);
                            self.spawn_module(
                                &mut blueprint,
                                &mut turtle,
                                &mut spawned,
                                shape,
                                growth,
                            );
                        },
                        RobotOp::SetJointType(t) => {
                            turtle.joint_config.joint_type = t;
                        },
                        RobotOp::SetJointLimits => {
                            let pi = sc_pi_exec();
                            let a = param_or_default(&params, 0, sc_neg(pi));
                            let b = param_or_default(&params, 1, pi);
                            let lo_hi = if sc_le(a, b) {
                                (a, b)
                            } else {
                                (b, a)
                            };
                            let effort = param_or_default(&params, 2, sc_from_int(100));
                            let velocity = param_or_default(&params, 3, sc_from_int(10));
                            turtle.joint_config.limits = Some(
                                JointLimit { min: lo_hi.0, max: lo_hi.1, effort, velocity },
                            );
                        },
                        RobotOp::SetMaterial => {
                            turtle.material_id = sc_to_byte(
                                param_or_default(&params, 0, sc_from_int(0)),
                            );
                        },
                        RobotOp::SetWidth => {
                            turtle.width = param_or_default(&params, 0, turtle.width);
                        },
                        RobotOp::MountSensor(sensor_type) => {
                            if let Some(mid) = turtle.current_module_id {
                                match blueprint.modules.remove(&mid) {
                                    Some(module) => {
                                        let mut module = module;
                                        let module_pos = module.transform.0;
                                        let module_rot = module.transform.1;
                                        let inv = quat_inv(module_rot);
                                        let local_position = rot_apply(
                                            inv,
                                            vec_diff(turtle.position, module_pos),
                                        );
                                        let local_rotation = quat_prod(inv, turtle.rotation);
                                        let ghost before = module@;
                                        module.sensors.push(
                                            SensorMount { sensor_type, local_position, local_rotation },
                                        );
                                        blueprint.modules.insert(mid, module);
                                        proof {
                                            assert(blueprint@.modules =~= mounted_state(
                                                pre,
                                                sensor_type,
                                            ).blueprint.modules);
                                            assert(blueprint@ =~= mounted_state(
                                                pre,
                                                sensor_type,
                                            ).blueprint);
                                        }
                                    },
                                    None => {
                                        proof {
                                            assert(blueprint@.modules =~= pre.blueprint.modules);
                                            assert(blueprint@ =~= pre.blueprint);
                                        }
                                    },
                                }
                            }
                        },
                        RobotOp::Push => {
                            if stack.len() < self.config.max_stack_depth {
                                stack.push(turtle);
                            }
                        },
                        RobotOp::Pop => {
                            match stack.pop() {
                                Some(saved) => {
                                    turtle = saved;
                                },
                                None => {},
                            }
                        },
                        RobotOp::Ignore => {},
                    }
                    proof {
                        assert((RunState {
                            turtle,
                            stack: stack@,
                            spawned: spawned as nat,
                            blueprint: blueprint@,
                        }) =~= apply_op(cfg, pre, resolve_op(ops, views[i as int].0), views[i as int].1));
                    }
                    i = i + 1;
                },
            }
        }
        proof {
            assert(blueprint@ == interpretation(self@.config, self@.ops, views_of(*state)));
        }
        blueprint
    }
}


/// The operation table after registering one conventional symbol: if the
/// interner knows the name, its identifier is mapped to `op`; otherwise
/// the table is unchanged.
pub open spec fn registered(
    m: Seq<RobotOp>,
    t: SymbolTable,
    name: Seq<char>,
    op: RobotOp,
) -> Seq<RobotOp> {
    match sym_id_of(t, name) {
        Some(id) => set_op_model(m, id, op),
        None => m,
    }
}

/// The operation table after registering every conventional symbol, in
/// order.
pub open spec fn standard_symbols_model(m: Seq<RobotOp>, t: SymbolTable) -> Seq<RobotOp> {
    let m = registered(m, t, "f"@, RobotOp::Move);
    let m = registered(m, t, "+"@, RobotOp::Yaw(sc_int_of(1)));
    let m = registered(m, t, "-"@, RobotOp::Yaw(sc_int_of(-1i16)));
    let m = registered(m, t, "&"@, RobotOp::Pitch(sc_int_of(1)));
    let m = registered(m, t, "^"@, RobotOp::Pitch(sc_int_of(-1i16)));
    let m = registered(m, t, "\\"@, RobotOp::Roll(sc_int_of(1)));
    let m = registered(m, t, "/"@, RobotOp::Roll(sc_int_of(-1i16)));
    let m = registered(m, t, "|"@, RobotOp::TurnAround);
    let m = registered(m, t, "B"@, RobotOp::SpawnBox);
    let m = registered(m, t, "C"@, RobotOp::SpawnCylinder);
    let m = registered(m, t, "O"@, RobotOp::SpawnSphere);
    let m = registered(m, t, "K"@, RobotOp::SpawnCapsule);
    let m = registered(m, t, "!"@, RobotOp::SetWidth);
    let m = registered(m, t, "'"@, RobotOp::SetMaterial);
    let m = registered(m, t, "J"@, RobotOp::SetJointType(crate::blueprint::JointType::Hinge));
    let m = registered(m, t, "Jf"@, RobotOp::SetJointType(crate::blueprint::JointType::Fixed));
    let m = registered(m, t, "Jb"@, RobotOp::SetJointType(crate::blueprint::JointType::Ball));
    let m = registered(m, t, "Jl"@, RobotOp::SetJointLimits);
    let m = registered(m, t, "S"@, RobotOp::MountSensor(crate::blueprint::SensorType::Camera));
    let m = registered(m, t, "Si"@, RobotOp::MountSensor(crate::blueprint::SensorType::IMU));
    let m = registered(m, t, "St"@, RobotOp::MountSensor(crate::blueprint::SensorType::Touch));
    let m = registered(m, t, "Sl"@, RobotOp::MountSensor(crate::blueprint::SensorType::Lidar));
    let m = registered(m, t, "["@, RobotOp::Push);
    let m = registered(m, t, "]"@, RobotOp::Pop);
    m
}

impl RobotInterpreter {
    /// Registers one symbol name if the interner knows it.
    fn apply_symbol(&mut self, interner: &SymbolTable, name: &str, op: RobotOp)
        ensures
            final(self)@.ops == registered(old(self)@.ops, *interner, name@, op),
            final(self)@.config == old(self)@.config,
    {
        match resolve_symbol(interner, name) {
            Some(id) => self.set_op(id, op),
            None => {},
        }
    }

    /// Registers the conventional symbol-to-operation mappings for all
    /// standard symbols.
    ///
    /// Looks up each standard symbol string (e.g. `"B"`, `"+"`, `"["`) in
    /// `interner` and maps it to its corresponding [`RobotOp`]. Symbols
    /// that are not present in the interner are silently skipped.
    pub fn populate_standard_symbols(&mut self, interner: &SymbolTable)
        ensures
            final(self)@.ops == standard_symbols_model(old(self)@.ops, *interner),
            final(self)@.config == old(self)@.config,
    {
        self.apply_symbol(interner, "f", RobotOp::Move);
        self.apply_symbol(interner, "+", RobotOp::Yaw(sc_from_int(1)));
        self.apply_symbol(interner, "-", RobotOp::Yaw(sc_from_int(-1)));
        self.apply_symbol(interner, "&", RobotOp::Pitch(sc_from_int(1)));
        self.apply_symbol(interner, "^", RobotOp::Pitch(sc_from_int(-1)));
        self.apply_symbol(interner, "\\", RobotOp::Roll(sc_from_int(1)));
        self.apply_symbol(interner, "/", RobotOp::Roll(sc_from_int(-1)));
        self.apply_symbol(interner, "|", RobotOp::TurnAround);
        self.apply_symbol(interner, "B", RobotOp::SpawnBox);
        self.apply_symbol(interner, "C", RobotOp::SpawnCylinder);
        self.apply_symbol(interner, "O", RobotOp::SpawnSphere);
        self.apply_symbol(interner, "K", RobotOp::SpawnCapsule);
        self.apply_symbol(interner, "!", RobotOp::SetWidth);
        self.apply_symbol(interner, "'", RobotOp::SetMaterial);
        self.apply_symbol(interner, "J", RobotOp::SetJointType(crate::blueprint::JointType::Hinge));
        self.apply_symbol(interner, "Jf", RobotOp::SetJointType(crate::blueprint::JointType::Fixed));
        self.apply_symbol(interner, "Jb", RobotOp::SetJointType(crate::blueprint::JointType::Ball));
        self.apply_symbol(interner, "Jl", RobotOp::SetJointLimits);
        self.apply_symbol(interner, "S", RobotOp::MountSensor(crate::blueprint::SensorType::Camera));
        self.apply_symbol(interner, "Si", RobotOp::MountSensor(crate::blueprint::SensorType::IMU));
        self.apply_symbol(interner, "St", RobotOp::MountSensor(crate::blueprint::SensorType::Touch));
        self.apply_symbol(interner, "Sl", RobotOp::MountSensor(crate::blueprint::SensorType::Lidar));
        self.apply_symbol(interner, "[", RobotOp::Push);
        self.apply_symbol(interner, "]", RobotOp::Pop);
    }
}

} // verus!
