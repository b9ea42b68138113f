//! The compile/decompile round trip: decompiling a compiled program always
//! succeeds, and recompiling the rebuilt graph reproduces the program byte
//! for byte, opcodes and constants alike.

use vstd::prelude::*;

use crate::compiler::{
    init_run_state, lemma_compile_stable_append, spec_compile_multi, spec_compile_node,
    spec_decompile, spec_run, spec_step, stack_ids_in_bounds, Emit, RunOut, RunState, Transform,
};
use crate::fbits::{lemma_clamp_smoothing_idempotent, lemma_neg_involution};
use crate::graph::{
    graph_multis_nonempty, graph_wf, lemma_graph_wf_push, lemma_nested_graph_multis_nonempty,
    lemma_nested_graph_wf, node_children_lt, node_multi_nonempty, Graph, Node, NodeId,
};
use crate::opcode::Opcode;

verus! {

broadcast use vstd::seq::axiom_seq_index_decreases, crate::graph::lemma_graph_view_decreases, vstd::array::group_array_axioms;

/// One element of a sequence, read off a known subrange.
proof fn lemma_subrange_index<T>(s: Seq<T>, p: int, sub: Seq<T>, i: int)
    requires
        0 <= p,
        p + sub.len() <= s.len(),
        s.subrange(p, p + sub.len() as int) == sub,
        0 <= i < sub.len(),
    ensures
        s[p + i] == sub[i],
{
    assert(s.subrange(p, p + sub.len() as int)[i] == s[p + i]);
}

/// A subrange known to be a concatenation splits into the two subranges.
proof fn lemma_subrange_split<T>(s: Seq<T>, p: int, a: Seq<T>, b: Seq<T>)
    requires
        0 <= p,
        p + a.len() + b.len() <= s.len(),
        s.subrange(p, p + a.len() + b.len()) == a + b,
    ensures
        s.subrange(p, p + a.len() as int) == a,
        s.subrange(p + a.len(), p + a.len() + b.len()) == b,
{
    assert forall|i: int| 0 <= i < a.len() implies s[p + i] == a[i] by {
        assert(s.subrange(p, p + a.len() + b.len())[i] == s[p + i]);
        assert((a + b)[i] == a[i]);
    }
    assert forall|i: int| 0 <= i < b.len() implies s[p + a.len() + i] == b[i] by {
        assert(s.subrange(p, p + a.len() + b.len())[a.len() + i] == s[p + a.len() + i]);
        assert((a + b)[a.len() + i] == b[i]);
    }
    assert(s.subrange(p, p + a.len() as int) =~= a);
    assert(s.subrange(p + a.len(), p + a.len() + b.len()) =~= b);
}

/// Running the decompiler over `emit`'s opcodes from state `st` appends the
/// nodes `delta` to the rebuilt graph, pushes the id of the last of them,
/// consumes exactly `emit`'s constants, and the node it leaves on top
/// compiles back to `emit` itself.
pub open spec fn emits_to(
    ops: Seq<Opcode>,
    consts: Seq<u32>,
    pc: int,
    st: RunState,
    emit: Emit,
    delta: Seq<Node>,
) -> bool {
    let nn = st.nodes + delta;
    let root = NodeId((nn.len() - 1) as u32);
    &&& 1 <= delta.len() <= emit.ops.len()
    &&& graph_wf(nn)
    &&& stack_ids_in_bounds(st.stack.push(root), nn.len() as int)
    &&& spec_run(ops, consts, pc, st) == spec_run(
        ops,
        consts,
        pc + emit.ops.len(),
        (RunState {
            nodes: nn,
            stack: st.stack.push(root),
            tstack: st.tstack,
            ci: st.ci + emit.consts.len(),
        }),
    )
    &&& spec_compile_node(nn, nn.len() - 1) == emit
}

/// Pulls the witness out of an [`emits_to`] existential.
proof fn extract_delta(ops: Seq<Opcode>, consts: Seq<u32>, pc: int, st: RunState, emit: Emit) -> (delta: Seq<Node>)
    requires
        exists|d: Seq<Node>| #[trigger] emits_to(ops, consts, pc, st, emit, d),
    ensures
        emits_to(ops, consts, pc, st, emit, delta),
{
    choose|d: Seq<Node>| emits_to(ops, consts, pc, st, emit, d)
}

/// The common shape of every primitive case: one opcode, one new node.
proof fn lemma_leaf_case(
    ops: Seq<Opcode>,
    consts: Seq<u32>,
    pc: int,
    st: RunState,
    node: Node,
    emit: Emit,
)
    requires
        emit.ops.len() == 1,
        emit.ops[0] != Opcode::End,
        0 <= pc,
        pc + 1 <= ops.len(),
        ops[pc] == emit.ops[0],
        0 <= st.ci,
        spec_step(emit.ops[0], consts, st) == Ok::<RunState, crate::compiler::Error>(
            (RunState {
                nodes: st.nodes.push(node),
                stack: st.stack.push(NodeId(st.nodes.len() as u32)),
                tstack: st.tstack,
                ci: st.ci + emit.consts.len(),
            }),
        ),
        graph_wf(st.nodes),
        node_children_lt(node, st.nodes.len() as int),
        !(node is Graph),
        stack_ids_in_bounds(st.stack, st.nodes.len() as int),
        st.nodes.len() + 1 < u32::MAX,
        spec_compile_node(st.nodes.push(node), st.nodes.len() as int) == emit,
    ensures
        exists|delta: Seq<Node>| #[trigger] emits_to(ops, consts, pc, st, emit, delta),
{
    let delta = seq![node];
    let nn = st.nodes + delta;
    assert(st.nodes.push(node) =~= nn);
    lemma_graph_wf_push(st.nodes, node);
    let root = NodeId((nn.len() - 1) as u32);
    let st2 = RunState {
        nodes: nn,
        stack: st.stack.push(root),
        tstack: st.tstack,
        ci: st.ci + emit.consts.len(),
    };
    assert(spec_run(ops, consts, pc, st) == spec_run(ops, consts, pc + 1, st2));
    assert(emits_to(ops, consts, pc, st, emit, delta));
}

/// Running the decompiler over what the node at `id` emits: it succeeds,
/// builds the rebuilt subtree, and the rebuilt root compiles back to the
/// same emission.
#[verifier::rlimit(100)]
pub proof fn lemma_run_emit(
    nodes: Seq<Node>,
    id: int,
    ops: Seq<Opcode>,
    consts: Seq<u32>,
    pc: int,
    st: RunState,
)
    requires
        graph_wf(nodes),
        graph_multis_nonempty(nodes),
        0 <= id < nodes.len(),
        0 <= pc,
        pc + spec_compile_node(nodes, id).ops.len() <= ops.len(),
        ops.subrange(pc, pc + spec_compile_node(nodes, id).ops.len() as int) == spec_compile_node(
            nodes,
            id,
        ).ops,
        0 <= st.ci,
        st.ci + spec_compile_node(nodes, id).consts.len() <= consts.len(),
        consts.subrange(st.ci, st.ci + spec_compile_node(nodes, id).consts.len() as int)
            == spec_compile_node(nodes, id).consts,
        graph_wf(st.nodes),
        stack_ids_in_bounds(st.stack, st.nodes.len() as int),
        st.nodes.len() + spec_compile_node(nodes, id).ops.len() < u32::MAX,
    ensures
        exists|delta: Seq<Node>|
            #[trigger] emits_to(ops, consts, pc, st, spec_compile_node(nodes, id), delta),
    decreases nodes, id, 1int, 0int,
{
    let emit = spec_compile_node(nodes, id);
    assert(node_children_lt(nodes[id], id));
    assert(node_multi_nonempty(nodes[id]));
    assert forall|i: int| 0 <= i < emit.consts.len() implies #[trigger] consts[st.ci + i]
        == emit.consts[i] by {
        lemma_subrange_index(consts, st.ci, emit.consts, i);
    }
    assert forall|i: int| 0 <= i < emit.ops.len() implies #[trigger] ops[pc + i]
        == emit.ops[i] by {
        lemma_subrange_index(ops, pc, emit.ops, i);
    }
    match nodes[id] {
        Node::Plane(p) => {
            let node = Node::Plane(p);
            lemma_graph_wf_push(st.nodes, node);
            lemma_leaf_case(ops, consts, pc, st, node, emit);
        },
        Node::Sphere { center, radius } => {
            let node = Node::Sphere { center, radius };
            lemma_graph_wf_push(st.nodes, node);
            lemma_leaf_case(ops, consts, pc, st, node, emit);
        },
        Node::Capsule { points, radius } => {
            if crate::compiler::vec3_eq_bits(points[0], points[1]) {
                let node = Node::Sphere { center: points[0], radius };
                lemma_graph_wf_push(st.nodes, node);
                lemma_leaf_case(ops, consts, pc, st, node, emit);
            } else {
                let node = Node::Capsule { points: [points[0], points[1]], radius };
                assert([points[0], points[1]] =~= points);
                lemma_graph_wf_push(st.nodes, node);
                lemma_leaf_case(ops, consts, pc, st, node, emit);
            }
        },
        Node::RoundedCylinder { cylinder_radius, half_height, rounding_radius } => {
            let node = Node::RoundedCylinder { cylinder_radius, half_height, rounding_radius };
            lemma_graph_wf_push(st.nodes, node);
            lemma_leaf_case(ops, consts, pc, st, node, emit);
        },
        Node::TaperedCapsule { points, radii } => {
            let node = Node::TaperedCapsule {
                points: [points[0], points[1]],
                radii: [radii[0], radii[1]],
            };
            assert([points[0], points[1]] =~= points);
            assert([radii[0], radii[1]] =~= radii);
            lemma_graph_wf_push(st.nodes, node);
            lemma_leaf_case(ops, consts, pc, st, node, emit);
        },
        Node::Cone { radius, height } => {
            let node = Node::Cone { radius, height };
            lemma_graph_wf_push(st.nodes, node);
            lemma_leaf_case(ops, consts, pc, st, node, emit);
        },
        Node::RoundedBox { half_size, rounding_radius } => {
            let node = Node::RoundedBox { half_size, rounding_radius };
            lemma_graph_wf_push(st.nodes, node);
            lemma_leaf_case(ops, consts, pc, st, node, emit);
        },
        Node::Torus { big_r, small_r } => {
            let node = Node::Torus { big_r, small_r };
            lemma_graph_wf_push(st.nodes, node);
            lemma_leaf_case(ops, consts, pc, st, node, emit);
        },
        Node::TorusSector { big_r, small_r, sin_half_angle, cos_half_angle } => {
            let node = Node::TorusSector { big_r, small_r, sin_half_angle, cos_half_angle };
            lemma_graph_wf_push(st.nodes, node);
            lemma_leaf_case(ops, consts, pc, st, node, emit);
        },
        Node::BiconvexLens { lower_sagitta, upper_sagitta, chord } => {
            let node = Node::BiconvexLens { lower_sagitta, upper_sagitta, chord };
            lemma_graph_wf_push(st.nodes, node);
            lemma_leaf_case(ops, consts, pc, st, node, emit);
        },
        Node::Material { child, material } => {
            lemma_material_case(nodes, id, ops, consts, pc, st, child, material);
        },
        Node::Union { lhs, rhs } => {
            lemma_binary_case(nodes, id, ops, consts, pc, st, lhs, rhs, Opcode::Union, None);
        },
        Node::UnionSmooth { lhs, rhs, size } => {
            lemma_binary_case(
                nodes,
                id,
                ops,
                consts,
                pc,
                st,
                lhs,
                rhs,
                Opcode::UnionSmooth,
                Some(size),
            );
        },
        Node::Subtract { lhs, rhs } => {
            lemma_binary_case(nodes, id, ops, consts, pc, st, lhs, rhs, Opcode::Subtract, None);
        },
        Node::SubtractSmooth { lhs, rhs, size } => {
            lemma_binary_case(
                nodes,
                id,
                ops,
                consts,
                pc,
                st,
                lhs,
                rhs,
                Opcode::SubtractSmooth,
                Some(size),
            );
        },
        Node::Intersect { lhs, rhs } => {
            lemma_binary_case(nodes, id, ops, consts, pc, st, lhs, rhs, Opcode::Intersect, None);
        },
        Node::IntersectSmooth { lhs, rhs, size } => {
            lemma_binary_case(
                nodes,
                id,
                ops,
                consts,
                pc,
                st,
                lhs,
                rhs,
                Opcode::IntersectSmooth,
                Some(size),
            );
        },
        Node::UnionMulti { children } => {
            lemma_run_emit_multi(
                nodes,
                children@,
                children@.len() as int,
                None,
                id,
                ops,
                consts,
                pc,
                st,
            );
        },
        Node::UnionMultiSmooth { children, size } => {
            lemma_run_emit_multi(
                nodes,
                children@,
                children@.len() as int,
                Some(size),
                id,
                ops,
                consts,
                pc,
                st,
            );
        },
        Node::Translate { translation, child } => {
            lemma_translate_case(nodes, id, ops, consts, pc, st, translation, child);
        },
        Node::Rotate { rotation, child } => {
            lemma_rotate_case(nodes, id, ops, consts, pc, st, rotation, child);
        },
        Node::Scale { scale, child } => {
            lemma_scale_case(nodes, id, ops, consts, pc, st, scale, child);
        },
        Node::Graph { root, graph } => {
            lemma_nested_graph_wf(nodes, nodes.len() as int, id);
            lemma_nested_graph_multis_nonempty(nodes, nodes.len() as int, id);
            lemma_run_emit(graph@, root.0 as int, ops, consts, pc, st);
        },
    }
}

/// One emitted subtree, for a material node.
#[verifier::rlimit(100)]
proof fn lemma_material_case(
    nodes: Seq<Node>,
    id: int,
    ops: Seq<Opcode>,
    consts: Seq<u32>,
    pc: int,
    st: RunState,
    child: NodeId,
    material: crate::graph::Material,
)
    requires
        graph_wf(nodes),
        graph_multis_nonempty(nodes),
        0 <= id < nodes.len(),
        node_children_lt(nodes[id], id),
        nodes[id] == (Node::Material { child, material }),
        0 <= pc,
        pc + spec_compile_node(nodes, id).ops.len() <= ops.len(),
        ops.subrange(pc, pc + spec_compile_node(nodes, id).ops.len() as int) == spec_compile_node(
            nodes,
            id,
        ).ops,
        0 <= st.ci,
        st.ci + spec_compile_node(nodes, id).consts.len() <= consts.len(),
        consts.subrange(st.ci, st.ci + spec_compile_node(nodes, id).consts.len() as int)
            == spec_compile_node(nodes, id).consts,
        graph_wf(st.nodes),
        stack_ids_in_bounds(st.stack, st.nodes.len() as int),
        st.nodes.len() + spec_compile_node(nodes, id).ops.len() < u32::MAX,
    ensures
        exists|delta: Seq<Node>|
            #[trigger] emits_to(ops, consts, pc, st, spec_compile_node(nodes, id), delta),
    decreases nodes, id, 0int, 0int,
{
    let emit = spec_compile_node(nodes, id);
    assert forall|i: int| 0 <= i < emit.consts.len() implies #[trigger] consts[st.ci + i]
        == emit.consts[i] by {
        lemma_subrange_index(consts, st.ci, emit.consts, i);
    }
    assert forall|i: int| 0 <= i < emit.ops.len() implies #[trigger] ops[pc + i]
        == emit.ops[i] by {
        lemma_subrange_index(ops, pc, emit.ops, i);
    }
        let c = spec_compile_node(nodes, child.0 as int);
        let tail_ops = seq![Opcode::Material];
        let tail_consts = seq![material.rgb.x, material.rgb.y, material.rgb.z];
        lemma_subrange_split(ops, pc, c.ops, tail_ops);
        lemma_subrange_split(consts, st.ci, c.consts, tail_consts);
        lemma_run_emit(nodes, child.0 as int, ops, consts, pc, st);
        let d1 = extract_delta(ops, consts, pc, st, c);
        let n1 = st.nodes + d1;
        let r1 = NodeId((n1.len() - 1) as u32);
        let st1 = RunState {
            nodes: n1,
            stack: st.stack.push(r1),
            tstack: st.tstack,
            ci: st.ci + c.consts.len(),
        };
        let q = pc + c.ops.len();
        let node = Node::Material { child: r1, material };
        lemma_graph_wf_push(n1, node);
        let nn = n1.push(node);
        let root = NodeId((nn.len() - 1) as u32);
        let st2 = RunState {
            nodes: nn,
            stack: st.stack.push(root),
            tstack: st.tstack,
            ci: st.ci + emit.consts.len(),
        };
        assert(st1.stack.drop_last() =~= st.stack);
        assert(spec_step(Opcode::Material, consts, st1) == Ok::<_, crate::compiler::Error>(
            st2,
        ));
        assert(spec_run(ops, consts, q, st1) == spec_run(ops, consts, q + 1, st2));
        // Recompiling the rebuilt node gives the same emission.
        assert(n1 + seq![node] =~= nn);
        lemma_compile_stable_append(n1, seq![node], r1.0 as int);
        assert(spec_compile_node(nn, nn.len() - 1) == emit);
        let delta = d1 + seq![node];
        assert(st.nodes + delta =~= nn);
        assert(emits_to(ops, consts, pc, st, emit, delta));
}

/// One emitted subtree, for a translate node.
#[verifier::rlimit(100)]
proof fn lemma_translate_case(
    nodes: Seq<Node>,
    id: int,
    ops: Seq<Opcode>,
    consts: Seq<u32>,
    pc: int,
    st: RunState,
    translation: crate::graph::Vec3Bits,
    child: NodeId,
)
    requires
        graph_wf(nodes),
        graph_multis_nonempty(nodes),
        0 <= id < nodes.len(),
        node_children_lt(nodes[id], id),
        nodes[id] == (Node::Translate { translation, child }),
        0 <= pc,
        pc + spec_compile_node(nodes, id).ops.len() <= ops.len(),
        ops.subrange(pc, pc + spec_compile_node(nodes, id).ops.len() as int) == spec_compile_node(
            nodes,
            id,
        ).ops,
        0 <= st.ci,
        st.ci + spec_compile_node(nodes, id).consts.len() <= consts.len(),
        consts.subrange(st.ci, st.ci + spec_compile_node(nodes, id).consts.len() as int)
            == spec_compile_node(nodes, id).consts,
        graph_wf(st.nodes),
        stack_ids_in_bounds(st.stack, st.nodes.len() as int),
        st.nodes.len() + spec_compile_node(nodes, id).ops.len() < u32::MAX,
    ensures
        exists|delta: Seq<Node>|
            #[trigger] emits_to(ops, consts, pc, st, spec_compile_node(nodes, id), delta),
    decreases nodes, id, 0int, 0int,
{
    let emit = spec_compile_node(nodes, id);
    assert forall|i: int| 0 <= i < emit.consts.len() implies #[trigger] consts[st.ci + i]
        == emit.consts[i] by {
        lemma_subrange_index(consts, st.ci, emit.consts, i);
    }
    assert forall|i: int| 0 <= i < emit.ops.len() implies #[trigger] ops[pc + i]
        == emit.ops[i] by {
        lemma_subrange_index(ops, pc, emit.ops, i);
    }
        let c = spec_compile_node(nodes, child.0 as int);
        let head_ops = seq![Opcode::PushTranslation];
        let head_consts = seq![
            crate::fbits::negated_bits(translation.x),
            crate::fbits::negated_bits(translation.y),
            crate::fbits::negated_bits(translation.z),
        ];
        lemma_subrange_split(ops, pc, head_ops + c.ops, seq![Opcode::PopTransform]);
        lemma_subrange_split(ops, pc, head_ops, c.ops);
        lemma_subrange_split(consts, st.ci, head_consts, c.consts);
        lemma_subrange_index(ops, pc, head_ops, 0);
        lemma_subrange_index(ops, pc + 1 + c.ops.len(), seq![Opcode::PopTransform], 0);
        lemma_subrange_index(consts, st.ci, head_consts, 0);
        lemma_subrange_index(consts, st.ci, head_consts, 1);
        lemma_subrange_index(consts, st.ci, head_consts, 2);
        lemma_neg_involution(translation.x);
        lemma_neg_involution(translation.y);
        lemma_neg_involution(translation.z);
        let st1 = RunState {
            nodes: st.nodes,
            stack: st.stack,
            tstack: st.tstack.push(Transform::Translation(translation)),
            ci: st.ci + 3,
        };
        assert(spec_step(Opcode::PushTranslation, consts, st) == Ok::<
            _,
            crate::compiler::Error,
        >(st1));
        assert(spec_run(ops, consts, pc, st) == spec_run(ops, consts, pc + 1, st1));
        lemma_run_emit(nodes, child.0 as int, ops, consts, pc + 1, st1);
        let d1 = extract_delta(ops, consts, pc + 1, st1, c);
        let n1 = st.nodes + d1;
        let r1 = NodeId((n1.len() - 1) as u32);
        let st2 = RunState {
            nodes: n1,
            stack: st.stack.push(r1),
            tstack: st1.tstack,
            ci: st.ci + 3 + c.consts.len(),
        };
        let q = pc + 1 + c.ops.len();
        let node = Node::Translate { translation, child: r1 };
        lemma_graph_wf_push(n1, node);
        let nn = n1.push(node);
        let root = NodeId((nn.len() - 1) as u32);
        let st3 = RunState {
            nodes: nn,
            stack: st.stack.push(root),
            tstack: st.tstack,
            ci: st.ci + emit.consts.len(),
        };
        assert(st2.stack.drop_last() =~= st.stack);
        assert(st2.tstack.drop_last() =~= st.tstack);
        assert(spec_step(Opcode::PopTransform, consts, st2) == Ok::<
            _,
            crate::compiler::Error,
        >(st3));
        assert(spec_run(ops, consts, q, st2) == spec_run(ops, consts, q + 1, st3));
        assert(n1 + seq![node] =~= nn);
        lemma_compile_stable_append(n1, seq![node], r1.0 as int);
        assert(spec_compile_node(nn, nn.len() - 1) == emit);
        let delta = d1 + seq![node];
        assert(st.nodes + delta =~= nn);
        assert(emits_to(ops, consts, pc, st, emit, delta));
}

/// One emitted subtree, for a rotate node.
#[verifier::rlimit(100)]
proof fn lemma_rotate_case(
    nodes: Seq<Node>,
    id: int,
    ops: Seq<Opcode>,
    consts: Seq<u32>,
    pc: int,
    st: RunState,
    rotation: crate::graph::QuatBits,
    child: NodeId,
)
    requires
        graph_wf(nodes),
        graph_multis_nonempty(nodes),
        0 <= id < nodes.len(),
        node_children_lt(nodes[id], id),
        nodes[id] == (Node::Rotate { rotation, child }),
        0 <= pc,
        pc + spec_compile_node(nodes, id).ops.len() <= ops.len(),
        ops.subrange(pc, pc + spec_compile_node(nodes, id).ops.len() as int) == spec_compile_node(
            nodes,
            id,
        ).ops,
        0 <= st.ci,
        st.ci + spec_compile_node(nodes, id).consts.len() <= consts.len(),
        consts.subrange(st.ci, st.ci + spec_compile_node(nodes, id).consts.len() as int)
            == spec_compile_node(nodes, id).consts,
        graph_wf(st.nodes),
        stack_ids_in_bounds(st.stack, st.nodes.len() as int),
        st.nodes.len() + spec_compile_node(nodes, id).ops.len() < u32::MAX,
    ensures
        exists|delta: Seq<Node>|
            #[trigger] emits_to(ops, consts, pc, st, spec_compile_node(nodes, id), delta),
    decreases nodes, id, 0int, 0int,
{
    let emit = spec_compile_node(nodes, id);
    assert forall|i: int| 0 <= i < emit.consts.len() implies #[trigger] consts[st.ci + i]
        == emit.consts[i] by {
        lemma_subrange_index(consts, st.ci, emit.consts, i);
    }
    assert forall|i: int| 0 <= i < emit.ops.len() implies #[trigger] ops[pc + i]
        == emit.ops[i] by {
        lemma_subrange_index(ops, pc, emit.ops, i);
    }
        let c = spec_compile_node(nodes, child.0 as int);
        let head_ops = seq![Opcode::PushRotation];
        let head_consts = seq![
            crate::fbits::negated_bits(rotation.x),
            crate::fbits::negated_bits(rotation.y),
            crate::fbits::negated_bits(rotation.z),
            rotation.w,
        ];
        lemma_subrange_split(ops, pc, head_ops + c.ops, seq![Opcode::PopTransform]);
        lemma_subrange_split(ops, pc, head_ops, c.ops);
        lemma_subrange_split(consts, st.ci, head_consts, c.consts);
        lemma_subrange_index(ops, pc, head_ops, 0);
        lemma_subrange_index(ops, pc + 1 + c.ops.len(), seq![Opcode::PopTransform], 0);
        lemma_subrange_index(consts, st.ci, head_consts, 0);
        lemma_subrange_index(consts, st.ci, head_consts, 1);
        lemma_subrange_index(consts, st.ci, head_consts, 2);
        lemma_subrange_index(consts, st.ci, head_consts, 3);
        lemma_neg_involution(rotation.x);
        lemma_neg_involution(rotation.y);
        lemma_neg_involution(rotation.z);
        let st1 = RunState {
            nodes: st.nodes,
            stack: st.stack,
            tstack: st.tstack.push(Transform::Rotation(rotation)),
            ci: st.ci + 4,
        };
        assert(spec_step(Opcode::PushRotation, consts, st) == Ok::<_, crate::compiler::Error>(
            st1,
        ));
        assert(spec_run(ops, consts, pc, st) == spec_run(ops, consts, pc + 1, st1));
        lemma_run_emit(nodes, child.0 as int, ops, consts, pc + 1, st1);
        let d1 = extract_delta(ops, consts, pc + 1, st1, c);
        let n1 = st.nodes + d1;
        let r1 = NodeId((n1.len() - 1) as u32);
        let st2 = RunState {
            nodes: n1,
            stack: st.stack.push(r1),
            tstack: st1.tstack,
            ci: st.ci + 4 + c.consts.len(),
        };
        let q = pc + 1 + c.ops.len();
        let node = Node::Rotate { rotation, child: r1 };
        lemma_graph_wf_push(n1, node);
        let nn = n1.push(node);
        let root = NodeId((nn.len() - 1) as u32);
        let st3 = RunState {
            nodes: nn,
            stack: st.stack.push(root),
            tstack: st.tstack,
            ci: st.ci + emit.consts.len(),
        };
        assert(st2.stack.drop_last() =~= st.stack);
        assert(st2.tstack.drop_last() =~= st.tstack);
        assert(spec_step(Opcode::PopTransform, consts, st2) == Ok::<
            _,
            crate::compiler::Error,
        >(st3));
        assert(spec_run(ops, consts, q, st2) == spec_run(ops, consts, q + 1, st3));
        assert(n1 + seq![node] =~= nn);
        lemma_compile_stable_append(n1, seq![node], r1.0 as int);
        assert(spec_compile_node(nn, nn.len() - 1) == emit);
        let delta = d1 + seq![node];
        assert(st.nodes + delta =~= nn);
        assert(emits_to(ops, consts, pc, st, emit, delta));
}

/// One emitted subtree, for a scale node.
#[verifier::rlimit(100)]
proof fn lemma_scale_case(
    nodes: Seq<Node>,
    id: int,
    ops: Seq<Opcode>,
    consts: Seq<u32>,
    pc: int,
    st: RunState,
    scale: u32,
    child: NodeId,
)
    requires
        graph_wf(nodes),
        graph_multis_nonempty(nodes),
        0 <= id < nodes.len(),
        node_children_lt(nodes[id], id),
        nodes[id] == (Node::Scale { scale, child }),
        0 <= pc,
        pc + spec_compile_node(nodes, id).ops.len() <= ops.len(),
        ops.subrange(pc, pc + spec_compile_node(nodes, id).ops.len() as int) == spec_compile_node(
            nodes,
            id,
        ).ops,
        0 <= st.ci,
        st.ci + spec_compile_node(nodes, id).consts.len() <= consts.len(),
        consts.subrange(st.ci, st.ci + spec_compile_node(nodes, id).consts.len() as int)
            == spec_compile_node(nodes, id).consts,
        graph_wf(st.nodes),
        stack_ids_in_bounds(st.stack, st.nodes.len() as int),
        st.nodes.len() + spec_compile_node(nodes, id).ops.len() < u32::MAX,
    ensures
        exists|delta: Seq<Node>|
            #[trigger] emits_to(ops, consts, pc, st, spec_compile_node(nodes, id), delta),
    decreases nodes, id, 0int, 0int,
{
    let emit = spec_compile_node(nodes, id);
    assert forall|i: int| 0 <= i < emit.consts.len() implies #[trigger] consts[st.ci + i]
        == emit.consts[i] by {
        lemma_subrange_index(consts, st.ci, emit.consts, i);
    }
    assert forall|i: int| 0 <= i < emit.ops.len() implies #[trigger] ops[pc + i]
        == emit.ops[i] by {
        lemma_subrange_index(ops, pc, emit.ops, i);
    }
        let c = spec_compile_node(nodes, child.0 as int);
        let head_ops = seq![Opcode::PushScale];
        let head_consts = seq![crate::fbits::spec_recip_bits(scale)];
        lemma_subrange_split(ops, pc, head_ops + c.ops, seq![Opcode::PopScale]);
        lemma_subrange_split(ops, pc, head_ops, c.ops);
        lemma_subrange_split(consts, st.ci, head_consts + c.consts, seq![scale]);
        lemma_subrange_split(consts, st.ci, head_consts, c.consts);
        lemma_subrange_index(ops, pc, head_ops, 0);
        lemma_subrange_index(ops, pc + 1 + c.ops.len(), seq![Opcode::PopScale], 0);
        lemma_subrange_index(consts, st.ci, head_consts, 0);
        lemma_subrange_index(consts, st.ci + 1 + c.consts.len(), seq![scale], 0);
        let st1 = RunState { nodes: st.nodes, stack: st.stack, tstack: st.tstack, ci: st.ci + 1 };
        assert(spec_step(Opcode::PushScale, consts, st) == Ok::<_, crate::compiler::Error>(
            st1,
        ));
        assert(spec_run(ops, consts, pc, st) == spec_run(ops, consts, pc + 1, st1));
        lemma_run_emit(nodes, child.0 as int, ops, consts, pc + 1, st1);
        let d1 = extract_delta(ops, consts, pc + 1, st1, c);
        let n1 = st.nodes + d1;
        let r1 = NodeId((n1.len() - 1) as u32);
        let st2 = RunState {
            nodes: n1,
            stack: st.stack.push(r1),
            tstack: st.tstack,
            ci: st.ci + 1 + c.consts.len(),
        };
        let q = pc + 1 + c.ops.len();
        let node = Node::Scale { scale, child: r1 };
        lemma_graph_wf_push(n1, node);
        let nn = n1.push(node);
        let root = NodeId((nn.len() - 1) as u32);
        let st3 = RunState {
            nodes: nn,
            stack: st.stack.push(root),
            tstack: st.tstack,
            ci: st.ci + emit.consts.len(),
        };
        assert(st2.stack.drop_last() =~= st.stack);
        assert(spec_step(Opcode::PopScale, consts, st2) == Ok::<_, crate::compiler::Error>(
            st3,
        ));
        assert(spec_run(ops, consts, q, st2) == spec_run(ops, consts, q + 1, st3));
        assert(n1 + seq![node] =~= nn);
        lemma_compile_stable_append(n1, seq![node], r1.0 as int);
        assert(spec_compile_node(nn, nn.len() - 1) == emit);
        let delta = d1 + seq![node];
        assert(st.nodes + delta =~= nn);
        assert(emits_to(ops, consts, pc, st, emit, delta));
}

/// The shared proof of all six binary combinators.
#[verifier::rlimit(60)]
proof fn lemma_binary_case(
    nodes: Seq<Node>,
    id: int,
    ops: Seq<Opcode>,
    consts: Seq<u32>,
    pc: int,
    st: RunState,
    lhs: NodeId,
    rhs: NodeId,
    op: Opcode,
    smooth: Option<u32>,
)
    requires
        graph_wf(nodes),
        graph_multis_nonempty(nodes),
        0 <= id < nodes.len(),
        match smooth {
            None => nodes[id] == (Node::Union { lhs, rhs }) || nodes[id] == (Node::Subtract {
                lhs,
                rhs,
            }) || nodes[id] == (Node::Intersect { lhs, rhs }),
            Some(size) => nodes[id] == (Node::UnionSmooth { lhs, rhs, size }) || nodes[id] == (
            Node::SubtractSmooth { lhs, rhs, size }) || nodes[id] == (Node::IntersectSmooth {
                lhs,
                rhs,
                size,
            }),
        },
        match (nodes[id], op) {
            (Node::Union { .. }, Opcode::Union) => true,
            (Node::UnionSmooth { .. }, Opcode::UnionSmooth) => true,
            (Node::Subtract { .. }, Opcode::Subtract) => true,
            (Node::SubtractSmooth { .. }, Opcode::SubtractSmooth) => true,
            (Node::Intersect { .. }, Opcode::Intersect) => true,
            (Node::IntersectSmooth { .. }, Opcode::IntersectSmooth) => true,
            _ => false,
        },
        0 <= pc,
        pc + spec_compile_node(nodes, id).ops.len() <= ops.len(),
        ops.subrange(pc, pc + spec_compile_node(nodes, id).ops.len() as int) == spec_compile_node(
            nodes,
            id,
        ).ops,
        0 <= st.ci,
        st.ci + spec_compile_node(nodes, id).consts.len() <= consts.len(),
        consts.subrange(st.ci, st.ci + spec_compile_node(nodes, id).consts.len() as int)
            == spec_compile_node(nodes, id).consts,
        graph_wf(st.nodes),
        stack_ids_in_bounds(st.stack, st.nodes.len() as int),
        st.nodes.len() + spec_compile_node(nodes, id).ops.len() < u32::MAX,
    ensures
        exists|delta: Seq<Node>|
            #[trigger] emits_to(ops, consts, pc, st, spec_compile_node(nodes, id), delta),
    decreases nodes, id, 0int, 0int,
{
    let emit = spec_compile_node(nodes, id);
    assert(node_children_lt(nodes[id], id));
    let l = spec_compile_node(nodes, lhs.0 as int);
    let r = spec_compile_node(nodes, rhs.0 as int);
    let scl = match smooth {
        None => Seq::<u32>::empty(),
        Some(size) => seq![crate::fbits::clamped_smoothing_bits(size)],
    };
    assert(emit.ops == l.ops + r.ops + seq![op]);
    assert(emit.consts == l.consts + r.consts + scl);
    lemma_subrange_split(ops, pc, l.ops + r.ops, seq![op]);
    lemma_subrange_split(ops, pc, l.ops, r.ops);
    lemma_subrange_split(consts, st.ci, l.consts + r.consts, scl);
    lemma_subrange_split(consts, st.ci, l.consts, r.consts);
    lemma_subrange_index(ops, pc + l.ops.len() + r.ops.len(), seq![op], 0);
    if scl.len() == 1 {
        lemma_subrange_index(consts, st.ci + l.consts.len() + r.consts.len(), scl, 0);
    }
    assert(op != Opcode::End);
    lemma_run_emit(nodes, lhs.0 as int, ops, consts, pc, st);
    let d1 = extract_delta(ops, consts, pc, st, l);
    let n1 = st.nodes + d1;
    let r1 = NodeId((n1.len() - 1) as u32);
    let st1 = RunState {
        nodes: n1,
        stack: st.stack.push(r1),
        tstack: st.tstack,
        ci: st.ci + l.consts.len(),
    };
    lemma_run_emit(nodes, rhs.0 as int, ops, consts, pc + l.ops.len() as int, st1);
    let d2 = extract_delta(ops, consts, pc + l.ops.len(), st1, r);
    let n2 = n1 + d2;
    let r2 = NodeId((n2.len() - 1) as u32);
    let st2 = RunState {
        nodes: n2,
        stack: st1.stack.push(r2),
        tstack: st.tstack,
        ci: st.ci + l.consts.len() + r.consts.len(),
    };
    let q = pc + l.ops.len() + r.ops.len();
    let node = match (nodes[id], smooth) {
        (Node::Union { .. }, _) => Node::Union { lhs: r1, rhs: r2 },
        (Node::Subtract { .. }, _) => Node::Subtract { lhs: r1, rhs: r2 },
        (Node::Intersect { .. }, _) => Node::Intersect { lhs: r1, rhs: r2 },
        (Node::UnionSmooth { size, .. }, _) => Node::UnionSmooth {
            lhs: r1,
            rhs: r2,
            size: crate::fbits::clamped_smoothing_bits(size),
        },
        (Node::SubtractSmooth { size, .. }, _) => Node::SubtractSmooth {
            lhs: r1,
            rhs: r2,
            size: crate::fbits::clamped_smoothing_bits(size),
        },
        (Node::IntersectSmooth { size, .. }, _) => Node::IntersectSmooth {
            lhs: r1,
            rhs: r2,
            size: crate::fbits::clamped_smoothing_bits(size),
        },
        _ => nodes[id],
    };
    assert(r1.0 < n2.len()) by {
        assert(st1.stack.last() == r1);
    }
    lemma_graph_wf_push(n2, node);
    let nn = n2.push(node);
    let root = NodeId((nn.len() - 1) as u32);
    let st3 = RunState {
        nodes: nn,
        stack: st.stack.push(root),
        tstack: st.tstack,
        ci: st.ci + emit.consts.len(),
    };
    assert(st2.stack.drop_last() =~= st1.stack);
    assert(st2.stack.drop_last().drop_last() =~= st.stack);
    match smooth {
        None => {
            assert(spec_step(op, consts, st2) == Ok::<_, crate::compiler::Error>(st3));
        },
        Some(size) => {
            lemma_clamp_smoothing_idempotent(size);
            assert(consts[st2.ci] == crate::fbits::clamped_smoothing_bits(size));
            assert(spec_step(op, consts, st2) == Ok::<_, crate::compiler::Error>(st3));
        },
    }
    assert(spec_run(ops, consts, q, st2) == spec_run(ops, consts, q + 1, st3));
    assert(n1 + (d2 + seq![node]) =~= nn);
    lemma_compile_stable_append(n1, d2 + seq![node], r1.0 as int);
    assert(n2 + seq![node] =~= nn);
    lemma_compile_stable_append(n2, seq![node], r2.0 as int);
    match smooth {
        None => {
        },
        Some(size) => {
            lemma_clamp_smoothing_idempotent(size);
        },
    }
    assert(spec_compile_node(nn, nn.len() - 1) == emit);
    let delta = d1 + d2 + seq![node];
    assert(st.nodes + delta =~= nn);
    assert(emits_to(ops, consts, pc, st, emit, delta));
}

/// The N-ary union chain: the first `j` children and their interleaved
/// binary unions decompile to a left-deep chain whose top compiles back to
/// the same emission.
#[verifier::rlimit(60)]
proof fn lemma_run_emit_multi(
    nodes: Seq<Node>,
    children: Seq<NodeId>,
    j: int,
    smooth: Option<u32>,
    bound: int,
    ops: Seq<Opcode>,
    consts: Seq<u32>,
    pc: int,
    st: RunState,
)
    requires
        graph_wf(nodes),
        graph_multis_nonempty(nodes),
        0 <= bound <= nodes.len(),
        forall|i: int| 0 <= i < children.len() ==> (#[trigger] children[i]).0 < bound,
        1 <= j <= children.len(),
        0 <= pc,
        pc + spec_compile_multi(nodes, children, j, smooth, bound).ops.len() <= ops.len(),
        ops.subrange(
            pc,
            pc + spec_compile_multi(nodes, children, j, smooth, bound).ops.len() as int,
        ) == spec_compile_multi(nodes, children, j, smooth, bound).ops,
        0 <= st.ci,
        st.ci + spec_compile_multi(nodes, children, j, smooth, bound).consts.len() <= consts.len(),
        consts.subrange(
            st.ci,
            st.ci + spec_compile_multi(nodes, children, j, smooth, bound).consts.len() as int,
        ) == spec_compile_multi(nodes, children, j, smooth, bound).consts,
        graph_wf(st.nodes),
        stack_ids_in_bounds(st.stack, st.nodes.len() as int),
        st.nodes.len() + spec_compile_multi(nodes, children, j, smooth, bound).ops.len()
            < u32::MAX,
    ensures
        exists|delta: Seq<Node>|
            #[trigger] emits_to(
                ops,
                consts,
                pc,
                st,
                spec_compile_multi(nodes, children, j, smooth, bound),
                delta,
            ),
    decreases nodes, bound, 0int, j,
{
    let memit = spec_compile_multi(nodes, children, j, smooth, bound);
    if j == 1 {
        lemma_run_emit(nodes, children[0].0 as int, ops, consts, pc, st);
    } else {
        let prefix = spec_compile_multi(nodes, children, j - 1, smooth, bound);
        let c = spec_compile_node(nodes, children[j - 1].0 as int);
        let op = match smooth {
            None => Opcode::Union,
            Some(_) => Opcode::UnionSmooth,
        };
        let scl = match smooth {
            None => Seq::<u32>::empty(),
            Some(size) => seq![crate::fbits::clamped_smoothing_bits(size)],
        };
        assert(memit.ops == prefix.ops + c.ops + seq![op]);
        assert(memit.consts == prefix.consts + c.consts + scl);
        lemma_subrange_split(ops, pc, prefix.ops + c.ops, seq![op]);
        lemma_subrange_split(ops, pc, prefix.ops, c.ops);
        lemma_subrange_split(consts, st.ci, prefix.consts + c.consts, scl);
        lemma_subrange_split(consts, st.ci, prefix.consts, c.consts);
        lemma_subrange_index(ops, pc + prefix.ops.len() + c.ops.len(), seq![op], 0);
        if scl.len() == 1 {
            lemma_subrange_index(consts, st.ci + prefix.consts.len() + c.consts.len(), scl, 0);
        }
        assert(op != Opcode::End);
        lemma_run_emit_multi(nodes, children, j - 1, smooth, bound, ops, consts, pc, st);
        let d1 = extract_delta(ops, consts, pc, st, prefix);
        let n1 = st.nodes + d1;
        let r1 = NodeId((n1.len() - 1) as u32);
        let st1 = RunState {
            nodes: n1,
            stack: st.stack.push(r1),
            tstack: st.tstack,
            ci: st.ci + prefix.consts.len(),
        };
        lemma_run_emit(nodes, children[j - 1].0 as int, ops, consts, pc + prefix.ops.len() as int, st1);
        let d2 = extract_delta(ops, consts, pc + prefix.ops.len(), st1, c);
        let n2 = n1 + d2;
        let r2 = NodeId((n2.len() - 1) as u32);
        let st2 = RunState {
            nodes: n2,
            stack: st1.stack.push(r2),
            tstack: st.tstack,
            ci: st.ci + prefix.consts.len() + c.consts.len(),
        };
        let q = pc + prefix.ops.len() + c.ops.len();
        let node = match smooth {
            None => Node::Union { lhs: r1, rhs: r2 },
            Some(size) => Node::UnionSmooth {
                lhs: r1,
                rhs: r2,
                size: crate::fbits::clamped_smoothing_bits(size),
            },
        };
        assert(r1.0 < n2.len()) by {
            assert(st1.stack.last() == r1);
        }
        lemma_graph_wf_push(n2, node);
        let nn = n2.push(node);
        let root = NodeId((nn.len() - 1) as u32);
        let st3 = RunState {
            nodes: nn,
            stack: st.stack.push(root),
            tstack: st.tstack,
            ci: st.ci + memit.consts.len(),
        };
        assert(st2.stack.drop_last() =~= st1.stack);
        assert(st2.stack.drop_last().drop_last() =~= st.stack);
        match smooth {
            None => {
                assert(spec_step(op, consts, st2) == Ok::<_, crate::compiler::Error>(st3));
            },
            Some(size) => {
                lemma_clamp_smoothing_idempotent(size);
                assert(consts[st2.ci] == crate::fbits::clamped_smoothing_bits(size));
                assert(spec_step(op, consts, st2) == Ok::<_, crate::compiler::Error>(st3));
            },
        }
        assert(spec_run(ops, consts, q, st2) == spec_run(ops, consts, q + 1, st3));
        assert(n1 + (d2 + seq![node]) =~= nn);
        lemma_compile_stable_append(n1, d2 + seq![node], r1.0 as int);
        assert(n2 + seq![node] =~= nn);
        lemma_compile_stable_append(n2, seq![node], r2.0 as int);
        match smooth {
            None => {
            },
            Some(size) => {
                lemma_clamp_smoothing_idempotent(size);
            },
        }
        assert(spec_compile_node(nn, nn.len() - 1) == memit);
        let delta = d1 + d2 + seq![node];
        assert(st.nodes + delta =~= nn);
        assert(emits_to(ops, consts, pc, st, memit, delta));
    }
}

/// The round trip. For any well-formed graph whose N-ary unions all have at
/// least one child, decompiling the compiled program succeeds, the rebuilt
/// graph is well formed, and compiling the rebuilt graph at the rebuilt root
/// emits exactly the original opcodes and constants: a second compilation is
/// byte-identical to the first.
pub proof fn lemma_compile_decompile_roundtrip(g: Graph, root: NodeId)
    requires
        graph_wf(g@),
        graph_multis_nonempty(g@),
        root.0 < g@.len(),
        spec_compile_node(g@, root.0 as int).ops.len() + 1 < u32::MAX,
    ensures
        ({
            let emit = spec_compile_node(g@, root.0 as int);
            let ops = emit.ops + seq![Opcode::End];
            match spec_decompile(ops, emit.consts) {
                Ok(p) => {
                    &&& graph_wf(p.0)
                    &&& p.1.0 < p.0.len()
                    &&& spec_compile_node(p.0, p.1.0 as int) == emit
                },
                Err(_) => false,
            }
        }),
{
    let emit = spec_compile_node(g@, root.0 as int);
    let ops = emit.ops + seq![Opcode::End];
    let consts = emit.consts;
    let st = init_run_state();
    assert(ops.subrange(0, emit.ops.len() as int) =~= emit.ops);
    assert(consts.subrange(0, emit.consts.len() as int) =~= consts);
    lemma_run_emit(g@, root.0 as int, ops, consts, 0, st);
    let delta = extract_delta(ops, consts, 0, st, emit);
    let nn = st.nodes + delta;
    let rt = NodeId((nn.len() - 1) as u32);
    let st2 = RunState {
        nodes: nn,
        stack: st.stack.push(rt),
        tstack: st.tstack,
        ci: emit.consts.len() as int,
    };
    assert(ops[emit.ops.len() as int] == Opcode::End);
    assert(spec_run(ops, consts, emit.ops.len() as int, st2) == RunOut::Done(st2));
    assert(spec_run(ops, consts, 0, st) == RunOut::Done(st2));
    assert(st2.stack.len() == 1);
    assert(st2.stack[0] == rt);
    assert(spec_decompile(ops, consts) == Ok::<_, crate::compiler::Error>((nn, rt)));
    assert(st.nodes + delta =~= delta);
    assert(spec_compile_node(nn, rt.0 as int) == emit);
}

} // verus!
