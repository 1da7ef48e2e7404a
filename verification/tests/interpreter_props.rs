use bevy_math::primitives::Circle;
use glam::{Quat, Vec3};
use std::f32::consts::PI;
use symbios::{SymbiosState, SymbolTable};
use symbios_robot::{JointType, RobotConfig, RobotInterpreter, RobotOp, SensorType};

fn interner_with(symbols: &[&str]) -> SymbolTable {
    let mut interner = SymbolTable::new();
    for s in symbols {
        interner.intern(s).unwrap();
    }
    interner
}

fn sc(v: f32) -> Circle {
    Circle::new(v)
}

#[test]
fn test_empty_stream_yields_empty_blueprint() {
    let interpreter = RobotInterpreter::new(RobotConfig::default());
    let state = SymbiosState::new();
    let blueprint = interpreter.build_blueprint(&state);
    assert_eq!(blueprint.modules.len(), 0);
    assert_eq!(blueprint.joints.len(), 0);
    assert_eq!(blueprint.root_module, None);
}

#[test]
fn test_single_box_mass() {
    let interner = interner_with(&["B"]);
    let b = interner.resolve_id("B").unwrap();
    let mut interpreter = RobotInterpreter::new(RobotConfig::default());
    interpreter.set_op(b, RobotOp::SpawnBox);

    let mut state = SymbiosState::new();
    state.push(b, 0.0, &[2.0, 0.5, 0.4]).unwrap();
    let blueprint = interpreter.build_blueprint(&state);

    assert_eq!(blueprint.modules.len(), 1);
    assert_eq!(blueprint.root_module, Some(0));
    let module = &blueprint.modules[&0];
    // Half-extents: (0.5/2, 2.0/2, 0.4/2); volume 8*hx*hy*hz; density 100.
    let hx = 0.5f32 / 2.0;
    let hy = 2.0f32 / 2.0;
    let hz = 0.4f32 / 2.0;
    let expected = 8.0f32 * hx * hy * hz * 100.0;
    assert_eq!(module.mass.radius, expected);
    assert_eq!(module.density.radius, 100.0);
    // The body's center sits half its length above the origin.
    assert_eq!(module.transform.0, Vec3::new(0.0, 1.0, 0.0));
    assert_eq!(module.transform.1, Quat::IDENTITY);
}

#[test]
fn test_body_ids_follow_spawn_order() {
    // Symbol identifiers are deliberately scattered; body ids must still be
    // 0, 1, 2 in spawn order.
    let interner = interner_with(&["x0", "x1", "x2", "x3", "x4", "O", "B"]);
    let o = interner.resolve_id("O").unwrap();
    let b = interner.resolve_id("B").unwrap();
    assert!(o > 1 && b > 1);

    let mut interpreter = RobotInterpreter::new(RobotConfig::default());
    interpreter.set_op(o, RobotOp::SpawnSphere);
    interpreter.set_op(b, RobotOp::SpawnBox);

    let mut state = SymbiosState::new();
    state.push(b, 0.0, &[1.0]).unwrap();
    state.push(o, 0.0, &[0.3]).unwrap();
    state.push(b, 0.0, &[1.0]).unwrap();
    let blueprint = interpreter.build_blueprint(&state);

    assert_eq!(blueprint.modules.len(), 3);
    assert!(blueprint.modules.contains_key(&0));
    assert!(blueprint.modules.contains_key(&1));
    assert!(blueprint.modules.contains_key(&2));
    assert_eq!(blueprint.root_module, Some(0));
    assert_eq!(blueprint.joints.len(), 2);
    assert_eq!((blueprint.joints[0].parent_id, blueprint.joints[0].child_id), (0, 1));
    assert_eq!((blueprint.joints[1].parent_id, blueprint.joints[1].child_id), (1, 2));
}

#[test]
fn test_push_pop_restores_cursor() {
    // B [ + f ] B : the branch rotates and moves, but after the pop the
    // second box grows straight up from the top of the first.
    let interner = interner_with(&["B", "[", "]", "+", "f"]);
    let b = interner.resolve_id("B").unwrap();
    let mut interpreter = RobotInterpreter::new(RobotConfig::default());
    interpreter.populate_standard_symbols(&interner);

    let mut state = SymbiosState::new();
    state.push(b, 0.0, &[1.0]).unwrap();
    state.push(interner.resolve_id("[").unwrap(), 0.0, &[]).unwrap();
    state.push(interner.resolve_id("+").unwrap(), 0.0, &[90.0]).unwrap();
    state.push(interner.resolve_id("f").unwrap(), 0.0, &[5.0]).unwrap();
    state.push(interner.resolve_id("]").unwrap(), 0.0, &[]).unwrap();
    state.push(b, 0.0, &[1.0]).unwrap();
    let blueprint = interpreter.build_blueprint(&state);

    assert_eq!(blueprint.modules.len(), 2);
    let second = &blueprint.modules[&1];
    assert_eq!(second.transform.0, Vec3::new(0.0, 1.5, 0.0));
    assert_eq!(second.transform.1, Quat::IDENTITY);
}

#[test]
fn test_push_beyond_depth_restores_last_kept() {
    // Depth 2; the third push is dropped, so the pop restores the state
    // saved by push number 2 (cursor height 2), not push number 3.
    let mut config = RobotConfig::default();
    config.max_stack_depth = 2;
    let interner = interner_with(&["B", "[", "]", "f"]);
    let b = interner.resolve_id("B").unwrap();
    let push = interner.resolve_id("[").unwrap();
    let pop = interner.resolve_id("]").unwrap();
    let f = interner.resolve_id("f").unwrap();
    let mut interpreter = RobotInterpreter::new(config);
    interpreter.populate_standard_symbols(&interner);

    let mut state = SymbiosState::new();
    state.push(f, 0.0, &[1.0]).unwrap(); // height 1
    state.push(push, 0.0, &[]).unwrap(); // kept (1st)
    state.push(f, 0.0, &[1.0]).unwrap(); // height 2
    state.push(push, 0.0, &[]).unwrap(); // kept (2nd)
    state.push(f, 0.0, &[1.0]).unwrap(); // height 3
    state.push(push, 0.0, &[]).unwrap(); // dropped (3rd)
    state.push(f, 0.0, &[1.0]).unwrap(); // height 4
    state.push(pop, 0.0, &[]).unwrap(); // back to height 2
    state.push(b, 0.0, &[1.0]).unwrap();
    let blueprint = interpreter.build_blueprint(&state);

    let module = &blueprint.modules[&0];
    assert_eq!(module.transform.0, Vec3::new(0.0, 2.5, 0.0));
}

#[test]
fn test_pop_on_empty_stack_is_noop() {
    let interner = interner_with(&["]", "B"]);
    let b = interner.resolve_id("B").unwrap();
    let mut interpreter = RobotInterpreter::new(RobotConfig::default());
    interpreter.populate_standard_symbols(&interner);

    let mut state = SymbiosState::new();
    state.push(interner.resolve_id("]").unwrap(), 0.0, &[]).unwrap();
    state.push(b, 0.0, &[1.0]).unwrap();
    let blueprint = interpreter.build_blueprint(&state);
    assert_eq!(blueprint.modules.len(), 1);
    assert_eq!(blueprint.modules[&0].transform.0, Vec3::new(0.0, 0.5, 0.0));
}

#[test]
fn test_joint_limits_are_sorted() {
    // Jl(5, -5, 50, 2) stores min = -5, max = 5, order-independent.
    let interner = interner_with(&["B", "Jl"]);
    let b = interner.resolve_id("B").unwrap();
    let jl = interner.resolve_id("Jl").unwrap();
    let mut interpreter = RobotInterpreter::new(RobotConfig::default());
    interpreter.populate_standard_symbols(&interner);

    let mut state = SymbiosState::new();
    state.push(b, 0.0, &[1.0]).unwrap();
    state.push(jl, 0.0, &[5.0, -5.0, 50.0, 2.0]).unwrap();
    state.push(b, 0.0, &[1.0]).unwrap();
    let blueprint = interpreter.build_blueprint(&state);

    let limits = blueprint.joints[0].limits.unwrap();
    assert_eq!(limits.min.radius, -5.0);
    assert_eq!(limits.max.radius, 5.0);
    assert_eq!(limits.effort.radius, 50.0);
    assert_eq!(limits.velocity.radius, 2.0);
}

#[test]
fn test_joint_limit_defaults() {
    let interner = interner_with(&["B", "Jl"]);
    let b = interner.resolve_id("B").unwrap();
    let jl = interner.resolve_id("Jl").unwrap();
    let mut interpreter = RobotInterpreter::new(RobotConfig::default());
    interpreter.populate_standard_symbols(&interner);

    let mut state = SymbiosState::new();
    state.push(b, 0.0, &[1.0]).unwrap();
    state.push(jl, 0.0, &[]).unwrap();
    state.push(b, 0.0, &[1.0]).unwrap();
    let blueprint = interpreter.build_blueprint(&state);

    let limits = blueprint.joints[0].limits.unwrap();
    assert_eq!(limits.min.radius, -PI);
    assert_eq!(limits.max.radius, PI);
    assert_eq!(limits.effort.radius, 100.0);
    assert_eq!(limits.velocity.radius, 10.0);
}

#[test]
fn test_sensor_before_any_spawn_is_dropped() {
    let interner = interner_with(&["S", "B"]);
    let b = interner.resolve_id("B").unwrap();
    let mut interpreter = RobotInterpreter::new(RobotConfig::default());
    interpreter.populate_standard_symbols(&interner);

    let mut state = SymbiosState::new();
    state.push(interner.resolve_id("S").unwrap(), 0.0, &[]).unwrap();
    state.push(b, 0.0, &[1.0]).unwrap();
    let blueprint = interpreter.build_blueprint(&state);

    for module in blueprint.modules.values() {
        assert!(module.sensors.is_empty());
    }
}

#[test]
fn test_sensor_mount_frame() {
    // After B(1) the turtle stands at the top of the box whose center is
    // at height 0.5; the sensor lands half a unit above the center.
    let interner = interner_with(&["B", "Si"]);
    let b = interner.resolve_id("B").unwrap();
    let mut interpreter = RobotInterpreter::new(RobotConfig::default());
    interpreter.populate_standard_symbols(&interner);

    let mut state = SymbiosState::new();
    state.push(b, 0.0, &[1.0]).unwrap();
    state.push(interner.resolve_id("Si").unwrap(), 0.0, &[]).unwrap();
    let blueprint = interpreter.build_blueprint(&state);

    let sensors = &blueprint.modules[&0].sensors;
    assert_eq!(sensors.len(), 1);
    assert_eq!(sensors[0].sensor_type, SensorType::IMU);
    assert_eq!(sensors[0].local_position, Vec3::new(0.0, 0.5, 0.0));
    assert_eq!(sensors[0].local_rotation, Quat::IDENTITY);
}

#[test]
fn test_capsule_mass_formula_and_reproducibility() {
    let interner = interner_with(&["K"]);
    let k = interner.resolve_id("K").unwrap();
    let build = || {
        let mut interpreter = RobotInterpreter::new(RobotConfig::default());
        interpreter.set_op(k, RobotOp::SpawnCapsule);
        let mut state = SymbiosState::new();
        state.push(k, 0.0, &[2.0, 0.3]).unwrap();
        interpreter.build_blueprint(&state)
    };
    let first = build();
    let second = build();

    let mass_a = first.modules[&0].mass.radius;
    let mass_b = second.modules[&0].mass.radius;
    // Bit-for-bit reproducible across runs with identical inputs.
    assert_eq!(mass_a.to_bits(), mass_b.to_bits());

    // Matches (pi r^2 h + 4/3 pi r^3) * density up to float rounding.
    let r = 0.3f32;
    let h = 2.0f32;
    let expected = (PI * r * r * h + 4.0 / 3.0 * PI * r * r * r) * 100.0;
    let rel = ((mass_a - expected) / expected).abs();
    assert!(rel < 1e-6, "mass {mass_a} vs formula {expected}");
}

#[test]
fn test_sphere_mass_and_growth() {
    let interner = interner_with(&["O"]);
    let o = interner.resolve_id("O").unwrap();
    let mut interpreter = RobotInterpreter::new(RobotConfig::default());
    interpreter.set_op(o, RobotOp::SpawnSphere);

    let mut state = SymbiosState::new();
    state.push(o, 0.0, &[0.5]).unwrap();
    state.push(o, 0.0, &[0.5]).unwrap();
    let blueprint = interpreter.build_blueprint(&state);

    // Growth length of a sphere is its diameter.
    assert_eq!(blueprint.modules[&0].transform.0, Vec3::new(0.0, 0.5, 0.0));
    assert_eq!(blueprint.modules[&1].transform.0, Vec3::new(0.0, 1.5, 0.0));
    let expected = 4.0f32 / 3.0 * PI * 0.5f32.powi(3) * 100.0;
    let rel = ((blueprint.modules[&0].mass.radius - expected) / expected).abs();
    assert!(rel < 1e-6);
}

#[test]
fn test_cylinder_mass() {
    let interner = interner_with(&["C"]);
    let c = interner.resolve_id("C").unwrap();
    let mut interpreter = RobotInterpreter::new(RobotConfig::default());
    interpreter.set_op(c, RobotOp::SpawnCylinder);

    let mut state = SymbiosState::new();
    state.push(c, 0.0, &[2.0, 0.25]).unwrap();
    let blueprint = interpreter.build_blueprint(&state);

    let expected = PI * 0.25f32 * 0.25 * 2.0 * 100.0;
    let rel = ((blueprint.modules[&0].mass.radius - expected) / expected).abs();
    assert!(rel < 1e-6);
}

#[test]
fn test_negative_dimensions_are_clamped() {
    let interner = interner_with(&["B"]);
    let b = interner.resolve_id("B").unwrap();
    let mut interpreter = RobotInterpreter::new(RobotConfig::default());
    interpreter.set_op(b, RobotOp::SpawnBox);

    let mut state = SymbiosState::new();
    state.push(b, 0.0, &[-2.0, -0.5, -0.4]).unwrap();
    let blueprint = interpreter.build_blueprint(&state);

    let module = &blueprint.modules[&0];
    match module.shape {
        symbios_robot::ShapePrimitive::Box(half) => {
            assert_eq!(half, Vec3::new(0.25, 1.0, 0.2));
        }
        _ => panic!("expected a box"),
    }
    // The turtle still advances along +up by the absolute length.
    assert_eq!(module.transform.0, Vec3::new(0.0, 1.0, 0.0));
}

#[test]
fn test_material_and_width() {
    let interner = interner_with(&["'", "!", "O"]);
    let mut interpreter = RobotInterpreter::new(RobotConfig::default());
    interpreter.populate_standard_symbols(&interner);

    let mut state = SymbiosState::new();
    state.push(interner.resolve_id("'").unwrap(), 0.0, &[3.7]).unwrap();
    state.push(interner.resolve_id("!").unwrap(), 0.0, &[0.6]).unwrap();
    state.push(interner.resolve_id("O").unwrap(), 0.0, &[]).unwrap();
    let blueprint = interpreter.build_blueprint(&state);

    let module = &blueprint.modules[&0];
    assert_eq!(module.material_id, 3);
    match module.shape {
        symbios_robot::ShapePrimitive::Sphere(radius) => {
            // Default sphere radius is half the current width.
            assert_eq!(radius.radius, 0.3);
        }
        _ => panic!("expected a sphere"),
    }
}

#[test]
fn test_turn_around_reverses_growth() {
    let interner = interner_with(&["f", "|", "B"]);
    let mut interpreter = RobotInterpreter::new(RobotConfig::default());
    interpreter.populate_standard_symbols(&interner);

    let mut state = SymbiosState::new();
    state.push(interner.resolve_id("f").unwrap(), 0.0, &[1.0]).unwrap();
    state.push(interner.resolve_id("|").unwrap(), 0.0, &[]).unwrap();
    state.push(interner.resolve_id("B").unwrap(), 0.0, &[1.0]).unwrap();
    let blueprint = interpreter.build_blueprint(&state);

    // Reproduce the same float math with glam directly.
    let rot = Quat::IDENTITY * Quat::from_axis_angle(Vec3::Z, PI);
    let expected_center = Vec3::new(0.0, 1.0, 0.0) + rot * Vec3::Y * 0.5;
    let module = &blueprint.modules[&0];
    assert_eq!(module.transform.0, expected_center);
    assert_eq!(module.transform.1, rot);
}

#[test]
fn test_default_config_values() {
    let config = RobotConfig::default();
    assert_eq!(config.default_length.radius, 1.0);
    assert_eq!(config.default_width.radius, 0.2);
    assert_eq!(config.default_density.radius, 100.0);
    assert_eq!(config.default_angle.radius, 45.0f32.to_radians());
    assert_eq!(config.max_stack_depth, 1024);
    let turtle = symbios_robot::RobotTurtleState::default();
    assert_eq!(turtle.width.radius, 0.1);
    assert_eq!(turtle.position, Vec3::ZERO);
    assert_eq!(turtle.rotation, Quat::IDENTITY);
    assert_eq!(turtle.current_module_id, None);
    assert_eq!(turtle.joint_config.joint_type, JointType::Fixed);
    assert_eq!(turtle.joint_config.axis, Vec3::X);
    assert!(turtle.joint_config.limits.is_none());
}

#[test]
fn test_turtle_directions_and_rotation() {
    let mut turtle = symbios_robot::RobotTurtleState::default();
    assert_eq!(turtle.up(), Vec3::Y);
    assert_eq!(turtle.forward(), Vec3::Z);
    assert_eq!(turtle.right(), Vec3::X);

    let angle = 30.0f32.to_radians();
    turtle.rotate_local_x(sc(angle));
    let expected = Quat::IDENTITY * Quat::from_axis_angle(Vec3::X, angle);
    assert_eq!(turtle.rotation, expected);
    assert_eq!(turtle.up(), expected * Vec3::Y);

    turtle.rotate_local_y(sc(angle));
    let expected = expected * Quat::from_axis_angle(Vec3::Y, angle);
    assert_eq!(turtle.rotation, expected);

    turtle.rotate_local_z(sc(angle));
    let expected = expected * Quat::from_axis_angle(Vec3::Z, angle);
    assert_eq!(turtle.rotation, expected);
    assert_eq!(turtle.forward(), expected * Vec3::Z);
    assert_eq!(turtle.right(), expected * Vec3::X);
}

#[test]
fn test_move_uses_default_length() {
    let interner = interner_with(&["f", "B"]);
    let mut interpreter = RobotInterpreter::new(RobotConfig::default());
    interpreter.populate_standard_symbols(&interner);

    let mut state = SymbiosState::new();
    state.push(interner.resolve_id("f").unwrap(), 0.0, &[]).unwrap();
    state.push(interner.resolve_id("B").unwrap(), 0.0, &[1.0]).unwrap();
    let blueprint = interpreter.build_blueprint(&state);
    assert_eq!(blueprint.modules[&0].transform.0, Vec3::new(0.0, 1.5, 0.0));
}

#[test]
fn test_unmapped_symbol_is_ignored() {
    let interner = interner_with(&["B", "zz"]);
    let b = interner.resolve_id("B").unwrap();
    let zz = interner.resolve_id("zz").unwrap();
    let mut interpreter = RobotInterpreter::new(RobotConfig::default());
    interpreter.set_op(b, RobotOp::SpawnBox);

    let mut state = SymbiosState::new();
    state.push(zz, 0.0, &[9.0]).unwrap();
    state.push(b, 0.0, &[1.0]).unwrap();
    state.push(zz, 0.0, &[]).unwrap();
    let blueprint = interpreter.build_blueprint(&state);
    assert_eq!(blueprint.modules.len(), 1);
    assert_eq!(blueprint.joints.len(), 0);
}

#[test]
fn test_set_op_grows_map_with_gaps() {
    let mut interpreter = RobotInterpreter::new(RobotConfig::default());
    interpreter.set_op(5, RobotOp::SpawnBox);

    let mut state = SymbiosState::new();
    state.push(3, 0.0, &[1.0]).unwrap(); // gap entry: ignored
    state.push(5, 0.0, &[1.0]).unwrap();
    let blueprint = interpreter.build_blueprint(&state);
    assert_eq!(blueprint.modules.len(), 1);
}

#[test]
fn test_with_map_builder() {
    let interpreter = RobotInterpreter::new(RobotConfig::default())
        .with_map(vec![RobotOp::SpawnBox, RobotOp::Ignore]);

    let mut state = SymbiosState::new();
    state.push(0, 0.0, &[1.0]).unwrap();
    state.push(1, 0.0, &[1.0]).unwrap();
    state.push(7, 0.0, &[1.0]).unwrap();
    let blueprint = interpreter.build_blueprint(&state);
    assert_eq!(blueprint.modules.len(), 1);
}

#[test]
fn test_yaw_default_angle() {
    // "+" with no parameter rotates by the configured default angle.
    let interner = interner_with(&["+", "B"]);
    let mut interpreter = RobotInterpreter::new(RobotConfig::default());
    interpreter.populate_standard_symbols(&interner);

    let mut state = SymbiosState::new();
    state.push(interner.resolve_id("+").unwrap(), 0.0, &[]).unwrap();
    state.push(interner.resolve_id("B").unwrap(), 0.0, &[1.0]).unwrap();
    let blueprint = interpreter.build_blueprint(&state);

    let default_angle = 45.0f32.to_radians();
    let rot = Quat::IDENTITY
        * Quat::from_axis_angle(Vec3::Z, default_angle.to_degrees().to_radians() * 1.0);
    let expected_center = Vec3::ZERO + rot * Vec3::Y * 0.5;
    let module = &blueprint.modules[&0];
    assert_eq!(module.transform.1, rot);
    assert_eq!(module.transform.0, expected_center);
}

#[test]
fn test_rotated_parent_frame() {
    // Rotate first, then spawn: the parent's rest rotation is no longer
    // the identity, so anchors, axes and sensor frames must be expressed
    // through the inverse of that rotation.
    let interner = interner_with(&["+", "B", "Si"]);
    let mut interpreter = RobotInterpreter::new(RobotConfig::default());
    interpreter.populate_standard_symbols(&interner);

    let mut state = SymbiosState::new();
    state.push(interner.resolve_id("+").unwrap(), 0.0, &[90.0]).unwrap();
    state.push(interner.resolve_id("B").unwrap(), 0.0, &[1.0]).unwrap();
    state.push(interner.resolve_id("Si").unwrap(), 0.0, &[]).unwrap();
    state.push(interner.resolve_id("B").unwrap(), 0.0, &[1.0]).unwrap();
    let blueprint = interpreter.build_blueprint(&state);

    // Reproduce the same float math with glam directly.
    let rot = Quat::IDENTITY * Quat::from_axis_angle(Vec3::Z, 90.0f32.to_radians() * 1.0);
    let up = rot * Vec3::Y;
    let center0 = Vec3::ZERO + up * (1.0f32 / 2.0);
    let top0 = Vec3::ZERO + up * 1.0;

    let module0 = &blueprint.modules[&0];
    assert_eq!(module0.transform.0, center0);
    assert_eq!(module0.transform.1, rot);

    let sensor = &module0.sensors[0];
    assert_eq!(sensor.local_position, rot.inverse() * (top0 - center0));
    assert_eq!(sensor.local_rotation, rot.inverse() * rot);

    let joint = &blueprint.joints[0];
    assert_eq!(joint.anchor_parent, rot.inverse() * (top0 - center0));
    assert_eq!(joint.axis, rot.inverse() * (rot * Vec3::X));
    assert_eq!(joint.anchor_child, Vec3::new(0.0, -(1.0f32 / 2.0), 0.0));

    let module1 = &blueprint.modules[&1];
    assert_eq!(module1.transform.0, top0 + up * (1.0f32 / 2.0));
    assert_eq!(module1.transform.1, rot);
}
