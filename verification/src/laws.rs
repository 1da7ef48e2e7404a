//! General laws of the interpreter, proved over its model.

use vstd::prelude::*;
use crate::blueprint::BlueprintModel;
use crate::interpreter::RobotConfig;
use crate::interpreter::RunState;
use crate::interpreter::apply_op;
use crate::interpreter::init_state;
use crate::interpreter::interpretation;
use crate::interpreter::param_or;
use crate::interpreter::resolve_op;
use crate::interpreter::run;
use crate::interpreter::sorted_limits;
use crate::scalar::Scalar;
use crate::scalar::sc_le_of;
use crate::symstream::StreamEntry;
use crate::turtle::RobotOp;

verus! {

/// The structural well-formedness that every reachable interpreter state
/// enjoys: module identifiers are exactly `0, 1, 2, ...` up to the number
/// of spawns; the root is the first module ever spawned; the turtle and
/// every saved snapshot stand on an existing module if any; and every
/// joint connects a parent to a strictly later child.
pub open spec fn run_wf(st: RunState) -> bool {
    &&& st.spawned <= 0x10000
    &&& st.blueprint.modules.dom().finite()
    &&& st.blueprint.modules.dom() == Set::new(|k: u16| (k as nat) < st.spawned)
    &&& st.blueprint.root_module == (if st.spawned == 0 {
        None
    } else {
        Some(0u16)
    })
    &&& (match st.turtle.current_module_id {
        Some(p) => (p as nat) < st.spawned,
        None => true,
    })
    &&& (forall|k: int|
        0 <= k < st.stack.len() ==> (match (#[trigger] st.stack[k]).current_module_id {
            Some(p) => (p as nat) < st.spawned,
            None => true,
        }))
    &&& (forall|j: int|
        0 <= j < st.blueprint.joints.len() ==> {
            &&& (#[trigger] st.blueprint.joints[j]).parent_id < st.blueprint.joints[j].child_id
            &&& (st.blueprint.joints[j].child_id as nat) < st.spawned
        })
}

/// One step preserves well-formedness.
pub proof fn lemma_apply_op_wf(cfg: RobotConfig, st: RunState, op: RobotOp, params: Seq<Scalar>)
    requires
        run_wf(st),
    ensures
        run_wf(apply_op(cfg, st, op, params)),
{
    let post = apply_op(cfg, st, op, params);
    match op {
        RobotOp::SpawnBox | RobotOp::SpawnCylinder | RobotOp::SpawnSphere
            | RobotOp::SpawnCapsule => {
            if st.spawned < 0x10000 {
                let id = st.spawned as u16;
                assert(!st.blueprint.modules.dom().contains(id));
                if st.spawned == 0 {
                    assert(st.blueprint.modules.dom() =~= Set::<u16>::empty());
                    assert(st.blueprint.modules.len() == 0);
                } else {
                    assert(st.blueprint.modules.dom().contains(0u16));
                    if st.blueprint.modules.len() == 0 {
                        st.blueprint.modules.dom().lemma_len0_is_empty();
                    }
                    assert(st.blueprint.modules.len() != 0);
                }
                assert(post.blueprint.modules.dom() =~= Set::new(
                    |k: u16| (k as nat) < st.spawned + 1,
                ));
            }
        },
        RobotOp::Pop => {
            if st.stack.len() > 0 {
                assert(match st.stack[st.stack.len() - 1].current_module_id {
                    Some(p) => (p as nat) < st.spawned,
                    None => true,
                });
                assert forall|k: int| 0 <= k < post.stack.len() implies (match (
                #[trigger] post.stack[k]).current_module_id {
                    Some(p) => (p as nat) < post.spawned,
                    None => true,
                }) by {
                    assert(post.stack[k] == st.stack[k]);
                }
            }
        },
        RobotOp::Push => {
            if st.stack.len() < cfg.max_stack_depth {
                assert forall|k: int| 0 <= k < post.stack.len() implies (match (
                #[trigger] post.stack[k]).current_module_id {
                    Some(p) => (p as nat) < post.spawned,
                    None => true,
                }) by {
                    if k < st.stack.len() {
                        assert(post.stack[k] == st.stack[k]);
                    } else {
                        assert(post.stack[k] == st.turtle);
                    }
                }
            }
        },
        RobotOp::MountSensor(_) => {
            match st.turtle.current_module_id {
                Some(mid) => {
                    if st.blueprint.modules.contains_key(mid) {
                        assert(post.blueprint.modules.dom() =~= st.blueprint.modules.dom());
                    }
                },
                None => {},
            }
        },
        _ => {},
    }
}

/// Every state the interpreter reaches is well-formed. In particular,
/// module identifiers are assigned `0, 1, 2, ...` strictly in spawn order
/// regardless of the numeric value of the symbol identifiers used, the
/// root module is the first one spawned, and every joint's parent has a
/// strictly smaller identifier than its child.
pub proof fn lemma_run_wf(cfg: RobotConfig, ops: Seq<RobotOp>, views: Seq<StreamEntry>, n: int)
    ensures
        run_wf(run(cfg, ops, views, n)),
    decreases n,
{
    if n <= 0 {
        let st = init_state(cfg);
        assert(st.blueprint.modules.dom() =~= Set::new(|k: u16| (k as nat) < st.spawned));
    } else {
        lemma_run_wf(cfg, ops, views, n - 1);
        lemma_apply_op_wf(
            cfg,
            run(cfg, ops, views, n - 1),
            resolve_op(ops, views[n - 1].0),
            views[n - 1].1,
        );
    }
}

/// An empty symbol stream yields the empty blueprint: no modules, no
/// joints, no root.
pub proof fn lemma_empty_stream(cfg: RobotConfig, ops: Seq<RobotOp>)
    ensures
        interpretation(cfg, ops, Seq::<StreamEntry>::empty()) == BlueprintModel::empty(),
{
}

/// A push immediately followed by a pop, with no intervening mutation,
/// restores the whole interpreter state: the turtle (position,
/// orientation, current module, joint configuration, material and width),
/// the stack, and the blueprint.
pub proof fn lemma_push_then_pop(
    cfg: RobotConfig,
    st: RunState,
    params_push: Seq<Scalar>,
    params_pop: Seq<Scalar>,
)
    requires
        st.stack.len() < cfg.max_stack_depth,
    ensures
        apply_op(cfg, apply_op(cfg, st, RobotOp::Push, params_push), RobotOp::Pop, params_pop)
            == st,
{
    let pushed = apply_op(cfg, st, RobotOp::Push, params_push);
    let popped = apply_op(cfg, pushed, RobotOp::Pop, params_pop);
    assert(pushed.stack.last() == st.turtle);
    assert(pushed.stack.drop_last() =~= st.stack);
    assert(popped =~= st);
}

/// A push onto a full stack is silently dropped: the state is unchanged.
pub proof fn lemma_push_beyond_depth(cfg: RobotConfig, st: RunState, params: Seq<Scalar>)
    requires
        st.stack.len() >= cfg.max_stack_depth,
    ensures
        apply_op(cfg, st, RobotOp::Push, params) == st,
{
}

/// A pop on a non-empty stack restores the most recent snapshot that was
/// actually kept, and only removes that snapshot.
pub proof fn lemma_pop_restores_last(cfg: RobotConfig, st: RunState, params: Seq<Scalar>)
    requires
        st.stack.len() > 0,
    ensures
        apply_op(cfg, st, RobotOp::Pop, params) == (RunState {
            turtle: st.stack.last(),
            stack: st.stack.drop_last(),
            ..st
        }),
{
}

/// A pop on an empty stack is a no-op.
pub proof fn lemma_pop_empty(cfg: RobotConfig, st: RunState, params: Seq<Scalar>)
    requires
        st.stack.len() == 0,
    ensures
        apply_op(cfg, st, RobotOp::Pop, params) == st,
{
}

/// The state after `k` consecutive pushes.
pub open spec fn pushed_times(cfg: RobotConfig, st: RunState, k: nat) -> RunState
    decreases k,
{
    if k == 0 {
        st
    } else {
        apply_op(cfg, pushed_times(cfg, st, (k - 1) as nat), RobotOp::Push, Seq::empty())
    }
}

/// Consecutive pushes only grow the stack, with copies of the unchanged
/// turtle, and never beyond the configured depth.
pub proof fn lemma_pushed_times(cfg: RobotConfig, st: RunState, k: nat)
    requires
        st.stack.len() == 0,
    ensures
        pushed_times(cfg, st, k) == (RunState {
            stack: Seq::new(
                if k <= cfg.max_stack_depth {
                    k
                } else {
                    cfg.max_stack_depth as nat
                },
                |i: int| st.turtle,
            ),
            ..st
        }),
    decreases k,
{
    if k == 0 {
        assert(pushed_times(cfg, st, 0).stack =~= Seq::new(0, |i: int| st.turtle));
        assert(pushed_times(cfg, st, k) =~= (RunState {
            stack: Seq::new(
                if k <= cfg.max_stack_depth {
                    k
                } else {
                    cfg.max_stack_depth as nat
                },
                |i: int| st.turtle,
            ),
            ..st
        }));
    } else {
        lemma_pushed_times(cfg, st, (k - 1) as nat);
        let prev = pushed_times(cfg, st, (k - 1) as nat);
        let cur = pushed_times(cfg, st, k);
        if prev.stack.len() < cfg.max_stack_depth {
            assert(cur.stack =~= prev.stack.push(st.turtle));
        }
        assert(cur =~= (RunState {
            stack: Seq::new(
                if k <= cfg.max_stack_depth {
                    k
                } else {
                    cfg.max_stack_depth as nat
                },
                |i: int| st.turtle,
            ),
            ..st
        }));
    }
}

/// With maximum stack depth `d`, performing `d + 1` pushes and then one
/// pop restores the snapshot saved by push number `d` (the last one that
/// was kept, which equals the turtle throughout), and leaves `d - 1`
/// snapshots on the stack: the final push was dropped, not the final pop.
pub proof fn lemma_deep_branch_restores(cfg: RobotConfig, st: RunState, params: Seq<Scalar>)
    requires
        st.stack.len() == 0,
        cfg.max_stack_depth >= 1,
    ensures
        apply_op(
            cfg,
            pushed_times(cfg, st, (cfg.max_stack_depth + 1) as nat),
            RobotOp::Pop,
            params,
        ).turtle == st.turtle,
        apply_op(
            cfg,
            pushed_times(cfg, st, (cfg.max_stack_depth + 1) as nat),
            RobotOp::Pop,
            params,
        ).stack.len() == cfg.max_stack_depth - 1,
{
    lemma_pushed_times(cfg, st, (cfg.max_stack_depth + 1) as nat);
}

/// Storing joint limits is order-independent: as long as the two
/// parameters are comparable and not two distinct representations of the
/// same value, supplying them in either order stores the same sorted
/// range.
pub proof fn lemma_limits_order_independent(a: Scalar, b: Scalar, e: Scalar, v: Scalar)
    requires
        sc_le_of(a, b) || sc_le_of(b, a),
        sc_le_of(a, b) && sc_le_of(b, a) ==> a == b,
    ensures
        sorted_limits(seq![a, b, e, v]) == sorted_limits(seq![b, a, e, v]),
{
    let first = sorted_limits(seq![a, b, e, v]);
    let second = sorted_limits(seq![b, a, e, v]);
    assert(first == second);
}

/// The stored limits always satisfy `min <= max` when the two parameters
/// are comparable.
pub proof fn lemma_limits_sorted(a: Scalar, b: Scalar, e: Scalar, v: Scalar)
    requires
        sc_le_of(a, b) || sc_le_of(b, a),
    ensures
        sc_le_of(sorted_limits(seq![a, b, e, v]).min, sorted_limits(seq![a, b, e, v]).max),
{
}

/// A sensor mount issued while the turtle stands on no module is a silent
/// no-op: nothing is appended anywhere. Together with [`lemma_run_wf`]
/// (which shows the turtle stands on no module until the first spawn),
/// a mount before any spawn leaves the blueprint without sensor mounts.
pub proof fn lemma_sensor_without_module(
    cfg: RobotConfig,
    st: RunState,
    ty: crate::blueprint::SensorType,
    params: Seq<Scalar>,
)
    requires
        st.turtle.current_module_id is None,
    ensures
        apply_op(cfg, st, RobotOp::MountSensor(ty), params) == st,
{
}


/// Whether an operation spawns a module.
pub open spec fn is_spawn(op: RobotOp) -> bool {
    match op {
        RobotOp::SpawnBox | RobotOp::SpawnCylinder | RobotOp::SpawnSphere
            | RobotOp::SpawnCapsule => true,
        _ => false,
    }
}

/// Before the first spawn nothing is emitted: a prefix free of spawn
/// operations leaves the blueprint empty, however many sensor mounts,
/// moves, rotations, configuration changes, pushes or pops it contains.
/// In particular a sensor mount issued before any spawn produces no
/// sensor mount anywhere.
pub proof fn lemma_no_spawn_prefix(
    cfg: RobotConfig,
    ops: Seq<RobotOp>,
    views: Seq<StreamEntry>,
    n: int,
)
    requires
        forall|j: int| 0 <= j < n ==> !is_spawn(#[trigger] resolve_op(ops, views[j].0)),
    ensures
        run(cfg, ops, views, n).spawned == 0,
        run(cfg, ops, views, n).blueprint == BlueprintModel::empty(),
    decreases n,
{
    if n <= 0 {
    } else {
        lemma_no_spawn_prefix(cfg, ops, views, n - 1);
        lemma_run_wf(cfg, ops, views, n - 1);
        let prev = run(cfg, ops, views, n - 1);
        assert(prev.turtle.current_module_id is None);
    }
}

/// A push directly followed by a pop anywhere in a stream leaves no trace
/// on the run, provided the stack had room for the snapshot.
pub proof fn lemma_adjacent_push_pop(
    cfg: RobotConfig,
    ops: Seq<RobotOp>,
    views: Seq<StreamEntry>,
    i: int,
)
    requires
        0 <= i,
        i + 2 <= views.len(),
        resolve_op(ops, views[i].0) is Push,
        resolve_op(ops, views[i + 1].0) is Pop,
        run(cfg, ops, views, i).stack.len() < cfg.max_stack_depth,
    ensures
        run(cfg, ops, views, i + 2) == run(cfg, ops, views, i),
{
    let st = run(cfg, ops, views, i);
    lemma_push_then_pop(cfg, st, views[i].1, views[i + 1].1);
    assert(run(cfg, ops, views, i + 1) == apply_op(
        cfg,
        st,
        resolve_op(ops, views[i].0),
        views[i].1,
    ));
}


/// The number of 16-bit identifiers below `n`.
proof fn lemma_id_range_card(n: nat)
    requires
        n <= 0x10000,
    ensures
        Set::new(|k: u16| (k as nat) < n).finite(),
        Set::new(|k: u16| (k as nat) < n).len() == n,
    decreases n,
{
    let ids = Set::new(|k: u16| (k as nat) < n);
    if n == 0 {
        assert(ids =~= Set::<u16>::empty());
    } else {
        lemma_id_range_card((n - 1) as nat);
        let prev = Set::new(|k: u16| (k as nat) < n - 1);
        assert(ids =~= prev.insert((n - 1) as u16));
    }
}

/// The module mapping holds exactly one entry per spawn operation
/// executed, and every joint's parent and child are keys of it.
pub proof fn lemma_blueprint_invariant(
    cfg: RobotConfig,
    ops: Seq<RobotOp>,
    views: Seq<StreamEntry>,
    n: int,
)
    ensures
        run(cfg, ops, views, n).blueprint.modules.len() == run(cfg, ops, views, n).spawned,
        forall|j: int|
            0 <= j < run(cfg, ops, views, n).blueprint.joints.len() ==> {
                let joint = #[trigger] run(cfg, ops, views, n).blueprint.joints[j];
                run(cfg, ops, views, n).blueprint.modules.contains_key(joint.parent_id)
                    && run(cfg, ops, views, n).blueprint.modules.contains_key(joint.child_id)
            },
{
    lemma_run_wf(cfg, ops, views, n);
    let st = run(cfg, ops, views, n);
    lemma_id_range_card(st.spawned);
}

} // verus!
