//! Post-order linearisation of a graph into a [`Program`], and the inverse
//! decompilation that rebuilds an equivalent graph and validates the wire
//! form. Transforms emit their inverse before the subtree so the interpreter
//! maps sampling positions from world into local space; N-ary unions lower
//! into left-deep chains of binary unions; smoothing sizes are clamped to a
//! positive floor so the interpreter never divides by zero.

use vstd::prelude::*;
use vstd::pervasive::VecAdditionalExecFns;

use crate::fbits::{
    clamped_smoothing_bits, f32_clamp_smoothing, f32_eq, f32_eq_bits, f32_neg, f32_recip,
    negated_bits, spec_recip_bits,
};
use crate::graph::{
    graph_wf, node_children_lt, lemma_nested_graph_wf, Graph, Material, Node, NodeId, QuatBits,
    Vec3Bits, Vec4Bits,
};
use crate::opcode::Opcode;
use crate::program::Program;

verus! {

broadcast use vstd::seq::axiom_seq_index_decreases, crate::graph::lemma_graph_view_decreases;

/// Why a program was rejected.
#[derive(Copy, Clone, Debug, PartialEq, Eq, Structural)]
pub enum BadProgramReason {
    /// The opcode stream ended without an `End`.
    MissingEnd,
    /// Constants remained after the program finished.
    UnusedConstants,
    /// A numeric code that names no opcode.
    UnknownOpcode,
    /// A serialized program that does not parse.
    MalformedBytes,
}

/// What can go wrong between a program and its evaluation.
#[derive(Copy, Clone, Debug, PartialEq, Eq, Structural)]
pub enum Error {
    /// The program itself is malformed.
    BadProgram(BadProgramReason),
    /// An opcode reached past the end of the constant pool.
    BadConstants,
    /// A combinator popped an empty stack, or the program left other than
    /// exactly one value behind.
    BadStack,
    /// The distance field evaluated to NaN or infinity on the grid.
    EvaluatedToNaN,
}

impl Error {
    /// A short description of the error.
    pub fn message(&self) -> (r: &'static str)
    {
        match self {
            Error::BadProgram(BadProgramReason::MissingEnd) => "Invalid program: Missing End",
            Error::BadProgram(BadProgramReason::UnusedConstants) => "Invalid program: Unused constants",
            Error::BadProgram(BadProgramReason::UnknownOpcode) => "Invalid program: Unknown opcode",
            Error::BadProgram(BadProgramReason::MalformedBytes) => "Invalid program: Malformed bytes",
            Error::BadConstants => "Too few constants in program",
            Error::BadStack => "Unbalanced stack when interpreting program",
            Error::EvaluatedToNaN => "NaN encountered in distance field",
        }
    }
}

/// IEEE-754 equality of two vectors of patterns, component by component.
pub open spec fn vec3_eq_bits(a: Vec3Bits, b: Vec3Bits) -> bool {
    f32_eq_bits(a.x, b.x) && f32_eq_bits(a.y, b.y) && f32_eq_bits(a.z, b.z)
}

fn vec3_eq(a: Vec3Bits, b: Vec3Bits) -> (r: bool)
    ensures
        r == vec3_eq_bits(a, b),
{
    f32_eq(a.x, b.x) && f32_eq(a.y, b.y) && f32_eq(a.z, b.z)
}

/// What one subtree compiles to: its opcodes and its slice of the constant
/// pool, in consumption order.
pub struct Emit {
    pub ops: Seq<Opcode>,
    pub consts: Seq<u32>,
}

/// What the node at `id` emits. Transforms wrap the child between a push of
/// the inverse transform and a pop; a scale also emits the forward scale for
/// the pop, so the stored value survives a decompile. A capsule whose
/// endpoints coincide emits a sphere; smoothing sizes are clamped.
pub open spec fn spec_compile_node(nodes: Seq<Node>, id: int) -> Emit
    decreases nodes, id, 1int, 0int,
        when graph_wf(nodes) && 0 <= id < nodes.len()
{
    match nodes[id] {
        Node::Plane(p) => (Emit { ops: seq![Opcode::Plane], consts: seq![p.x, p.y, p.z, p.w] }),
        Node::Sphere { center, radius } => (Emit {
            ops: seq![Opcode::Sphere],
            consts: seq![center.x, center.y, center.z, radius],
        }),
        Node::Capsule { points, radius } => {
            if vec3_eq_bits(points[0], points[1]) {
                Emit {
                    ops: seq![Opcode::Sphere],
                    consts: seq![points[0].x, points[0].y, points[0].z, radius],
                }
            } else {
                Emit {
                    ops: seq![Opcode::Capsule],
                    consts: seq![
                        points[0].x,
                        points[0].y,
                        points[0].z,
                        points[1].x,
                        points[1].y,
                        points[1].z,
                        radius,
                    ],
                }
            }
        },
        Node::RoundedCylinder { cylinder_radius, half_height, rounding_radius } => (Emit {
            ops: seq![Opcode::RoundedCylinder],
            consts: seq![cylinder_radius, half_height, rounding_radius],
        }),
        Node::TaperedCapsule { points, radii } => (Emit {
            ops: seq![Opcode::TaperedCapsule],
            consts: seq![
                points[0].x,
                points[0].y,
                points[0].z,
                radii[0],
                points[1].x,
                points[1].y,
                points[1].z,
                radii[1],
            ],
        }),
        Node::Cone { radius, height } => (Emit {
            ops: seq![Opcode::Cone],
            consts: seq![radius, height],
        }),
        Node::RoundedBox { half_size, rounding_radius } => (Emit {
            ops: seq![Opcode::RoundedBox],
            consts: seq![half_size.x, half_size.y, half_size.z, rounding_radius],
        }),
        Node::Torus { big_r, small_r } => (Emit {
            ops: seq![Opcode::Torus],
            consts: seq![big_r, small_r],
        }),
        Node::TorusSector { big_r, small_r, sin_half_angle, cos_half_angle } => (Emit {
            ops: seq![Opcode::TorusSector],
            consts: seq![big_r, small_r, sin_half_angle, cos_half_angle],
        }),
        Node::BiconvexLens { lower_sagitta, upper_sagitta, chord } => (Emit {
            ops: seq![Opcode::BiconvexLens],
            consts: seq![lower_sagitta, upper_sagitta, chord],
        }),
        Node::Material { child, material } => {
            let c = spec_compile_node(nodes, child.0 as int);
            Emit {
                ops: c.ops + seq![Opcode::Material],
                consts: c.consts + seq![material.rgb.x, material.rgb.y, material.rgb.z],
            }
        },
        Node::Union { lhs, rhs } => {
            let l = spec_compile_node(nodes, lhs.0 as int);
            let r = spec_compile_node(nodes, rhs.0 as int);
            Emit { ops: l.ops + r.ops + seq![Opcode::Union], consts: l.consts + r.consts }
        },
        Node::UnionSmooth { lhs, rhs, size } => {
            let l = spec_compile_node(nodes, lhs.0 as int);
            let r = spec_compile_node(nodes, rhs.0 as int);
            Emit {
                ops: l.ops + r.ops + seq![Opcode::UnionSmooth],
                consts: l.consts + r.consts + seq![clamped_smoothing_bits(size)],
            }
        },
        Node::UnionMulti { children } => spec_compile_multi(
            nodes,
            children@,
            children@.len() as int,
            None,
            id,
        ),
        Node::UnionMultiSmooth { children, size } => spec_compile_multi(
            nodes,
            children@,
            children@.len() as int,
            Some(size),
            id,
        ),
        Node::Subtract { lhs, rhs } => {
            let l = spec_compile_node(nodes, lhs.0 as int);
            let r = spec_compile_node(nodes, rhs.0 as int);
            Emit { ops: l.ops + r.ops + seq![Opcode::Subtract], consts: l.consts + r.consts }
        },
        Node::SubtractSmooth { lhs, rhs, size } => {
            let l = spec_compile_node(nodes, lhs.0 as int);
            let r = spec_compile_node(nodes, rhs.0 as int);
            Emit {
                ops: l.ops + r.ops + seq![Opcode::SubtractSmooth],
                consts: l.consts + r.consts + seq![clamped_smoothing_bits(size)],
            }
        },
        Node::Intersect { lhs, rhs } => {
            let l = spec_compile_node(nodes, lhs.0 as int);
            let r = spec_compile_node(nodes, rhs.0 as int);
            Emit { ops: l.ops + r.ops + seq![Opcode::Intersect], consts: l.consts + r.consts }
        },
        Node::IntersectSmooth { lhs, rhs, size } => {
            let l = spec_compile_node(nodes, lhs.0 as int);
            let r = spec_compile_node(nodes, rhs.0 as int);
            Emit {
                ops: l.ops + r.ops + seq![Opcode::IntersectSmooth],
                consts: l.consts + r.consts + seq![clamped_smoothing_bits(size)],
            }
        },
        Node::Translate { translation, child } => {
            let c = spec_compile_node(nodes, child.0 as int);
            Emit {
                ops: seq![Opcode::PushTranslation] + c.ops + seq![Opcode::PopTransform],
                consts: seq![
                    negated_bits(translation.x),
                    negated_bits(translation.y),
                    negated_bits(translation.z),
                ] + c.consts,
            }
        },
        Node::Rotate { rotation, child } => {
            let c = spec_compile_node(nodes, child.0 as int);
            Emit {
                ops: seq![Opcode::PushRotation] + c.ops + seq![Opcode::PopTransform],
                consts: seq![
                    negated_bits(rotation.x),
                    negated_bits(rotation.y),
                    negated_bits(rotation.z),
                    rotation.w,
                ] + c.consts,
            }
        },
        Node::Scale { scale, child } => {
            let c = spec_compile_node(nodes, child.0 as int);
            Emit {
                ops: seq![Opcode::PushScale] + c.ops + seq![Opcode::PopScale],
                consts: seq![spec_recip_bits(scale)] + c.consts + seq![scale],
            }
        },
        Node::Graph { root, graph } => spec_compile_node(graph@, root.0 as int),
    }
}

/// What the first `j` children of an N-ary union emit: each child in order,
/// with a binary union (sharp, or smooth with the clamped size) after every
/// child but the first. `bound` is the id of the union node itself; all the
/// children lie below it.
pub open spec fn spec_compile_multi(
    nodes: Seq<Node>,
    children: Seq<NodeId>,
    j: int,
    smooth: Option<u32>,
    bound: int,
) -> Emit
    decreases nodes, bound, 0int, j,
        when graph_wf(nodes) && 0 <= bound <= nodes.len() && j <= children.len() && (forall|
            i: int,
        | 0 <= i < children.len() ==> (#[trigger] children[i]).0 < bound)
{
    if j <= 0 {
        Emit { ops: Seq::empty(), consts: Seq::empty() }
    } else if j == 1 {
        spec_compile_node(nodes, children[0].0 as int)
    } else {
        let prefix = spec_compile_multi(nodes, children, j - 1, smooth, bound);
        let child = spec_compile_node(nodes, children[j - 1].0 as int);
        match smooth {
            None => (Emit {
                ops: prefix.ops + child.ops + seq![Opcode::Union],
                consts: prefix.consts + child.consts,
            }),
            Some(size) => (Emit {
                ops: prefix.ops + child.ops + seq![Opcode::UnionSmooth],
                consts: prefix.consts + child.consts + seq![clamped_smoothing_bits(size)],
            }),
        }
    }
}

/// Compiles the subtree rooted at `id` onto the end of `ctx`.
#[verifier::rlimit(100)]
fn compile_node(nodes: &Vec<Node>, id: u32, ctx: &mut Program)
    requires
        graph_wf(nodes@),
        id < nodes@.len(),
    ensures
        final(ctx).opcodes@ == old(ctx).opcodes@ + spec_compile_node(nodes@, id as int).ops,
        final(ctx).constants@ == old(ctx).constants@ + spec_compile_node(nodes@, id as int).consts,
    decreases nodes@, id as int, 1int, 0int,
{
    let ghost emit = spec_compile_node(nodes@, id as int);
    assert(node_children_lt(nodes@[id as int], id as int));
    match &nodes[id as usize] {
        Node::Plane(p) => {
            ctx.opcodes.push(Opcode::Plane);
            ctx.constant_push_vec4(*p);
            proof {
                assert(ctx.opcodes@ =~= old(ctx).opcodes@ + emit.ops);
                assert(ctx.constants@ =~= old(ctx).constants@ + emit.consts);
            }
        },
        Node::Sphere { center, radius } => {
            ctx.opcodes.push(Opcode::Sphere);
            ctx.constant_push_vec3(*center);
            ctx.constants.push(*radius);
            proof {
                assert(ctx.opcodes@ =~= old(ctx).opcodes@ + emit.ops);
                assert(ctx.constants@ =~= old(ctx).constants@ + emit.consts);
            }
        },
        Node::Capsule { points, radius } => {
            if vec3_eq(points[0], points[1]) {
                ctx.opcodes.push(Opcode::Sphere);
                ctx.constant_push_vec3(points[0]);
            } else {
                ctx.opcodes.push(Opcode::Capsule);
                ctx.constant_push_vec3(points[0]);
                ctx.constant_push_vec3(points[1]);
            }
            ctx.constants.push(*radius);
            proof {
                assert(ctx.opcodes@ =~= old(ctx).opcodes@ + emit.ops);
                assert(ctx.constants@ =~= old(ctx).constants@ + emit.consts);
            }
        },
        Node::RoundedCylinder { cylinder_radius, half_height, rounding_radius } => {
            ctx.opcodes.push(Opcode::RoundedCylinder);
            ctx.constants.push(*cylinder_radius);
            ctx.constants.push(*half_height);
            ctx.constants.push(*rounding_radius);
            proof {
                assert(ctx.opcodes@ =~= old(ctx).opcodes@ + emit.ops);
                assert(ctx.constants@ =~= old(ctx).constants@ + emit.consts);
            }
        },
        Node::TaperedCapsule { points, radii } => {
            ctx.opcodes.push(Opcode::TaperedCapsule);
            ctx.constant_push_vec3(points[0]);
            ctx.constants.push(radii[0]);
            ctx.constant_push_vec3(points[1]);
            ctx.constants.push(radii[1]);
            proof {
                assert(ctx.opcodes@ =~= old(ctx).opcodes@ + emit.ops);
                assert(ctx.constants@ =~= old(ctx).constants@ + emit.consts);
            }
        },
        Node::Cone { radius, height } => {
            ctx.opcodes.push(Opcode::Cone);
            ctx.constants.push(*radius);
            ctx.constants.push(*height);
            proof {
                assert(ctx.opcodes@ =~= old(ctx).opcodes@ + emit.ops);
                assert(ctx.constants@ =~= old(ctx).constants@ + emit.consts);
            }
        },
        Node::RoundedBox { half_size, rounding_radius } => {
            ctx.opcodes.push(Opcode::RoundedBox);
            ctx.constant_push_vec3(*half_size);
            ctx.constants.push(*rounding_radius);
            proof {
                assert(ctx.opcodes@ =~= old(ctx).opcodes@ + emit.ops);
                assert(ctx.constants@ =~= old(ctx).constants@ + emit.consts);
            }
        },
        Node::Torus { big_r, small_r } => {
            ctx.opcodes.push(Opcode::Torus);
            ctx.constants.push(*big_r);
            ctx.constants.push(*small_r);
            proof {
                assert(ctx.opcodes@ =~= old(ctx).opcodes@ + emit.ops);
                assert(ctx.constants@ =~= old(ctx).constants@ + emit.consts);
            }
        },
        Node::TorusSector { big_r, small_r, sin_half_angle, cos_half_angle } => {
            ctx.opcodes.push(Opcode::TorusSector);
            ctx.constants.push(*big_r);
            ctx.constants.push(*small_r);
            ctx.constants.push(*sin_half_angle);
            ctx.constants.push(*cos_half_angle);
            proof {
                assert(ctx.opcodes@ =~= old(ctx).opcodes@ + emit.ops);
                assert(ctx.constants@ =~= old(ctx).constants@ + emit.consts);
            }
        },
        Node::BiconvexLens { lower_sagitta, upper_sagitta, chord } => {
            ctx.opcodes.push(Opcode::BiconvexLens);
            ctx.constants.push(*lower_sagitta);
            ctx.constants.push(*upper_sagitta);
            ctx.constants.push(*chord);
            proof {
                assert(ctx.opcodes@ =~= old(ctx).opcodes@ + emit.ops);
                assert(ctx.constants@ =~= old(ctx).constants@ + emit.consts);
            }
        },
        Node::Material { child, material } => {
            let rgb = material.rgb();
            compile_node(nodes, child.0, ctx);
            ctx.opcodes.push(Opcode::Material);
            ctx.constant_push_vec3(rgb);
            proof {
                assert(ctx.opcodes@ =~= old(ctx).opcodes@ + emit.ops);
                assert(ctx.constants@ =~= old(ctx).constants@ + emit.consts);
            }
        },
        Node::Union { lhs, rhs } => {
            let (lhs, rhs) = (*lhs, *rhs);
            compile_node(nodes, lhs.0, ctx);
            compile_node(nodes, rhs.0, ctx);
            ctx.opcodes.push(Opcode::Union);
            proof {
                assert(ctx.opcodes@ =~= old(ctx).opcodes@ + emit.ops);
                assert(ctx.constants@ =~= old(ctx).constants@ + emit.consts);
            }
        },
        Node::UnionSmooth { lhs, rhs, size } => {
            let (lhs, rhs, size) = (*lhs, *rhs, *size);
            compile_node(nodes, lhs.0, ctx);
            compile_node(nodes, rhs.0, ctx);
            ctx.opcodes.push(Opcode::UnionSmooth);
            ctx.constants.push(f32_clamp_smoothing(size));
            proof {
                assert(ctx.opcodes@ =~= old(ctx).opcodes@ + emit.ops);
                assert(ctx.constants@ =~= old(ctx).constants@ + emit.consts);
            }
        },
        Node::UnionMulti { children } => {
            compile_multi(nodes, children, None, Ghost(id as int), ctx);
        },
        Node::UnionMultiSmooth { children, size } => {
            compile_multi(nodes, children, Some(*size), Ghost(id as int), ctx);
        },
        Node::Subtract { lhs, rhs } => {
            let (lhs, rhs) = (*lhs, *rhs);
            compile_node(nodes, lhs.0, ctx);
            compile_node(nodes, rhs.0, ctx);
            ctx.opcodes.push(Opcode::Subtract);
            proof {
                assert(ctx.opcodes@ =~= old(ctx).opcodes@ + emit.ops);
                assert(ctx.constants@ =~= old(ctx).constants@ + emit.consts);
            }
        },
        Node::SubtractSmooth { lhs, rhs, size } => {
            let (lhs, rhs, size) = (*lhs, *rhs, *size);
            compile_node(nodes, lhs.0, ctx);
            compile_node(nodes, rhs.0, ctx);
            ctx.opcodes.push(Opcode::SubtractSmooth);
            ctx.constants.push(f32_clamp_smoothing(size));
            proof {
                assert(ctx.opcodes@ =~= old(ctx).opcodes@ + emit.ops);
                assert(ctx.constants@ =~= old(ctx).constants@ + emit.consts);
            }
        },
        Node::Intersect { lhs, rhs } => {
            let (lhs, rhs) = (*lhs, *rhs);
            compile_node(nodes, lhs.0, ctx);
            compile_node(nodes, rhs.0, ctx);
            ctx.opcodes.push(Opcode::Intersect);
            proof {
                assert(ctx.opcodes@ =~= old(ctx).opcodes@ + emit.ops);
                assert(ctx.constants@ =~= old(ctx).constants@ + emit.consts);
            }
        },
        Node::IntersectSmooth { lhs, rhs, size } => {
            let (lhs, rhs, size) = (*lhs, *rhs, *size);
            compile_node(nodes, lhs.0, ctx);
            compile_node(nodes, rhs.0, ctx);
            ctx.opcodes.push(Opcode::IntersectSmooth);
            ctx.constants.push(f32_clamp_smoothing(size));
            proof {
                assert(ctx.opcodes@ =~= old(ctx).opcodes@ + emit.ops);
                assert(ctx.constants@ =~= old(ctx).constants@ + emit.consts);
            }
        },
        Node::Translate { translation, child } => {
            let (translation, child) = (*translation, *child);
            ctx.opcodes.push(Opcode::PushTranslation);
            ctx.constant_push_vec3(
                Vec3Bits {
                    x: f32_neg(translation.x),
                    y: f32_neg(translation.y),
                    z: f32_neg(translation.z),
                },
            );
            compile_node(nodes, child.0, ctx);
            ctx.opcodes.push(Opcode::PopTransform);
            proof {
                assert(ctx.opcodes@ =~= old(ctx).opcodes@ + emit.ops);
                assert(ctx.constants@ =~= old(ctx).constants@ + emit.consts);
            }
        },
        Node::Rotate { rotation, child } => {
            let (rotation, child) = (*rotation, *child);
            ctx.opcodes.push(Opcode::PushRotation);
            // The conjugate quaternion: the interpreter rotates positions
            // from world into the child's local space.
            ctx.constants.push(f32_neg(rotation.x));
            ctx.constants.push(f32_neg(rotation.y));
            ctx.constants.push(f32_neg(rotation.z));
            ctx.constants.push(rotation.w);
            compile_node(nodes, child.0, ctx);
            ctx.opcodes.push(Opcode::PopTransform);
            proof {
                assert(ctx.opcodes@ =~= old(ctx).opcodes@ + emit.ops);
                assert(ctx.constants@ =~= old(ctx).constants@ + emit.consts);
            }
        },
        Node::Scale { scale, child } => {
            let (scale, child) = (*scale, *child);
            ctx.opcodes.push(Opcode::PushScale);
            ctx.constants.push(f32_recip(scale));
            compile_node(nodes, child.0, ctx);
            ctx.opcodes.push(Opcode::PopScale);
            ctx.constants.push(scale);
            proof {
                assert(ctx.opcodes@ =~= old(ctx).opcodes@ + emit.ops);
                assert(ctx.constants@ =~= old(ctx).constants@ + emit.consts);
            }
        },
        Node::Graph { root, graph } => {
            proof {
                lemma_nested_graph_wf(nodes@, nodes@.len() as int, id as int);
            }
            compile_node(graph.nodes(), root.0, ctx);
        },
    }
}

/// Compiles every child of an N-ary union, chaining them with binary unions.
fn compile_multi(
    nodes: &Vec<Node>,
    children: &Vec<NodeId>,
    smooth: Option<u32>,
    bound: Ghost<int>,
    ctx: &mut Program,
)
    requires
        graph_wf(nodes@),
        0 <= bound@ <= nodes@.len(),
        forall|i: int| 0 <= i < children@.len() ==> (#[trigger] children@[i]).0 < bound@,
    ensures
        final(ctx).opcodes@ == old(ctx).opcodes@ + spec_compile_multi(
            nodes@,
            children@,
            children@.len() as int,
            smooth,
            bound@,
        ).ops,
        final(ctx).constants@ == old(ctx).constants@ + spec_compile_multi(
            nodes@,
            children@,
            children@.len() as int,
            smooth,
            bound@,
        ).consts,
    decreases nodes@, bound@, 0int, children@.len() as int,
{
    let mut idx: usize = 0;
    while idx < children.len()
        invariant
            graph_wf(nodes@),
            0 <= bound@ <= nodes@.len(),
            forall|i: int| 0 <= i < children@.len() ==> (#[trigger] children@[i]).0 < bound@,
            idx <= children@.len(),
            ctx.opcodes@ == old(ctx).opcodes@ + spec_compile_multi(
                nodes@,
                children@,
                idx as int,
                smooth,
                bound@,
            ).ops,
            ctx.constants@ == old(ctx).constants@ + spec_compile_multi(
                nodes@,
                children@,
                idx as int,
                smooth,
                bound@,
            ).consts,
        decreases children@.len() - idx,
    {
        let child = children[idx];
        compile_node(nodes, child.0, ctx);
        if idx > 0 {
            match smooth {
                None => {
                    ctx.opcodes.push(Opcode::Union);
                },
                Some(size) => {
                    ctx.opcodes.push(Opcode::UnionSmooth);
                    ctx.constants.push(f32_clamp_smoothing(size));
                },
            }
        }
        idx = idx + 1;
        proof {
            assert(ctx.opcodes@ =~= old(ctx).opcodes@ + spec_compile_multi(
                nodes@,
                children@,
                idx as int,
                smooth,
                bound@,
            ).ops);
            assert(ctx.constants@ =~= old(ctx).constants@ + spec_compile_multi(
                nodes@,
                children@,
                idx as int,
                smooth,
                bound@,
            ).consts);
        }
    }
}

/// A cursor over a constant pool, handing constants out left to right.
pub struct ConstantReader<'a> {
    constants: &'a [u32],
    offset: usize,
}

impl<'a> ConstantReader<'a> {
    /// The pool this reader walks.
    pub closed spec fn spec_constants(&self) -> Seq<u32> {
        self.constants@
    }

    /// How many constants have been handed out or skipped.
    pub closed spec fn spec_offset(&self) -> int {
        self.offset as int
    }

    /// A reader at the start of the pool.
    pub fn new(constants: &'a [u32]) -> (r: Self)
        ensures
            r.spec_constants() == constants@,
            r.spec_offset() == 0,
    {
        Self { constants, offset: 0 }
    }

    /// Skips the next `count` constants without reading them.
    pub fn skip(&mut self, count: usize)
        requires
            old(self).spec_offset() + count <= usize::MAX,
        ensures
            final(self).spec_constants() == old(self).spec_constants(),
            final(self).spec_offset() == old(self).spec_offset() + count,
    {
        self.offset = self.offset + count;
    }

    /// Whether the whole pool has been consumed.
    pub fn at_end(&self) -> (r: bool)
        ensures
            r == (self.spec_offset() == self.spec_constants().len()),
    {
        self.offset == self.constants.len()
    }

    /// The next constant: one single-precision bit pattern.
    pub fn read_f32(&mut self) -> (r: Result<u32, Error>)
        ensures
            final(self).spec_constants() == old(self).spec_constants(),
            match r {
                Ok(c) => old(self).spec_offset() < old(self).spec_constants().len() && c
                    == old(self).spec_constants()[old(self).spec_offset()] && final(self).spec_offset() == old(self).spec_offset() + 1,
                Err(e) => e == Error::BadConstants && old(self).spec_offset() >= old(self).spec_constants().len() && final(self).spec_offset() == old(self).spec_offset(),
            },
    {
        if self.offset < self.constants.len() {
            let value = self.constants[self.offset];
            self.offset = self.offset + 1;
            Ok(value)
        } else {
            Err(Error::BadConstants)
        }
    }

    /// The next two constants.
    pub fn read_vec2(&mut self) -> (r: Result<(u32, u32), Error>)
        ensures
            final(self).spec_constants() == old(self).spec_constants(),
            match r {
                Ok(v) => old(self).spec_offset() + 2 <= old(self).spec_constants().len() && v.0
                    == old(self).spec_constants()[old(self).spec_offset()] && v.1 == old(self).spec_constants()[old(self).spec_offset() + 1] && final(self).spec_offset()
                    == old(self).spec_offset() + 2,
                Err(e) => e == Error::BadConstants && old(self).spec_offset() + 2 > old(self).spec_constants().len(),
            },
    {
        let x = self.read_f32()?;
        let y = self.read_f32()?;
        Ok((x, y))
    }

    /// The next three constants, as a vector.
    pub fn read_vec3(&mut self) -> (r: Result<Vec3Bits, Error>)
        ensures
            final(self).spec_constants() == old(self).spec_constants(),
            match r {
                Ok(v) => old(self).spec_offset() + 3 <= old(self).spec_constants().len() && v == (
                Vec3Bits {
                    x: old(self).spec_constants()[old(self).spec_offset()],
                    y: old(self).spec_constants()[old(self).spec_offset() + 1],
                    z: old(self).spec_constants()[old(self).spec_offset() + 2],
                }) && final(self).spec_offset() == old(self).spec_offset() + 3,
                Err(e) => e == Error::BadConstants && old(self).spec_offset() + 3 > old(self).spec_constants().len(),
            },
    {
        let x = self.read_f32()?;
        let y = self.read_f32()?;
        let z = self.read_f32()?;
        Ok(Vec3Bits { x, y, z })
    }

    /// The next four constants, as a vector.
    pub fn read_vec4(&mut self) -> (r: Result<Vec4Bits, Error>)
        ensures
            final(self).spec_constants() == old(self).spec_constants(),
            match r {
                Ok(v) => old(self).spec_offset() + 4 <= old(self).spec_constants().len() && v == (
                Vec4Bits {
                    x: old(self).spec_constants()[old(self).spec_offset()],
                    y: old(self).spec_constants()[old(self).spec_offset() + 1],
                    z: old(self).spec_constants()[old(self).spec_offset() + 2],
                    w: old(self).spec_constants()[old(self).spec_offset() + 3],
                }) && final(self).spec_offset() == old(self).spec_offset() + 4,
                Err(e) => e == Error::BadConstants && old(self).spec_offset() + 4 > old(self).spec_constants().len(),
            },
    {
        let x = self.read_f32()?;
        let y = self.read_f32()?;
        let z = self.read_f32()?;
        let w = self.read_f32()?;
        Ok(Vec4Bits { x, y, z, w })
    }

    /// The next four constants, as a quaternion.
    pub fn read_quat(&mut self) -> (r: Result<QuatBits, Error>)
        ensures
            final(self).spec_constants() == old(self).spec_constants(),
            match r {
                Ok(v) => old(self).spec_offset() + 4 <= old(self).spec_constants().len() && v == (
                QuatBits {
                    x: old(self).spec_constants()[old(self).spec_offset()],
                    y: old(self).spec_constants()[old(self).spec_offset() + 1],
                    z: old(self).spec_constants()[old(self).spec_offset() + 2],
                    w: old(self).spec_constants()[old(self).spec_offset() + 3],
                }) && final(self).spec_offset() == old(self).spec_offset() + 4,
                Err(e) => e == Error::BadConstants && old(self).spec_offset() + 4 > old(self).spec_constants().len(),
            },
    {
        let x = self.read_f32()?;
        let y = self.read_f32()?;
        let z = self.read_f32()?;
        let w = self.read_f32()?;
        Ok(QuatBits { x, y, z, w })
    }
}

/// A cursor that rewrites a constant pool in place, e.g. to animate shape
/// parameters without recompiling. Callers move the pool in, skip or edit
/// constants in consumption order, and take the pool back with
/// [`ConstantEditor::finish`]; a mutable borrow cannot live in a verified
/// struct field, so the editor owns the pool for its lifetime.
pub struct ConstantEditor {
    constants: Vec<u32>,
    offset: usize,
}

impl ConstantEditor {
    /// The pool being edited.
    pub closed spec fn spec_constants(&self) -> Seq<u32> {
        self.constants@
    }

    /// How many constants have been edited or skipped.
    pub closed spec fn spec_offset(&self) -> int {
        self.offset as int
    }

    /// An editor at the start of the pool.
    pub fn new(constants: Vec<u32>) -> (r: Self)
        ensures
            r.spec_constants() == constants@,
            r.spec_offset() == 0,
    {
        Self { constants, offset: 0 }
    }

    /// The edited pool, when editing is done.
    pub fn finish(self) -> (r: Vec<u32>)
        ensures
            r@ == self.spec_constants(),
    {
        self.constants
    }

    /// Skips the next `count` constants unchanged.
    pub fn skip(&mut self, count: usize)
        requires
            old(self).spec_offset() + count <= usize::MAX,
        ensures
            final(self).spec_constants() == old(self).spec_constants(),
            final(self).spec_offset() == old(self).spec_offset() + count,
    {
        self.offset = self.offset + count;
    }

    /// Skips one scalar.
    pub fn skip_f32(&mut self)
        requires
            old(self).spec_offset() + 1 <= usize::MAX,
        ensures
            final(self).spec_constants() == old(self).spec_constants(),
            final(self).spec_offset() == old(self).spec_offset() + 1,
    {
        self.skip(1);
    }

    /// Skips one vector.
    pub fn skip_vec3(&mut self)
        requires
            old(self).spec_offset() + 3 <= usize::MAX,
        ensures
            final(self).spec_constants() == old(self).spec_constants(),
            final(self).spec_offset() == old(self).spec_offset() + 3,
    {
        self.skip(3);
    }

    /// Whether the whole pool has been consumed.
    pub fn at_end(&self) -> (r: bool)
        ensures
            r == (self.spec_offset() == self.spec_constants().len()),
    {
        self.offset == self.constants.len()
    }

    /// Rewrites the next constant with the editor function and advances;
    /// only that slot changes, to the editor's result on its old value.
    pub fn edit_f32<F: FnOnce(u32) -> u32>(&mut self, editor: F) -> (r: Result<(), Error>)
        requires
            forall|x: u32| #[trigger] call_requires(editor, (x,)),
        ensures
            match r {
                Ok(_) => {
                    &&& old(self).spec_offset() < old(self).spec_constants().len()
                    &&& final(self).spec_offset() == old(self).spec_offset() + 1
                    &&& final(self).spec_constants() == old(self).spec_constants().update(
                        old(self).spec_offset(),
                        final(self).spec_constants()[old(self).spec_offset()],
                    )
                    &&& call_ensures(
                        editor,
                        (old(self).spec_constants()[old(self).spec_offset()],),
                        final(self).spec_constants()[old(self).spec_offset()],
                    )
                },
                Err(e) => {
                    &&& e == Error::BadConstants
                    &&& old(self).spec_offset() >= old(self).spec_constants().len()
                    &&& *final(self) == *old(self)
                },
            },
    {
        if self.offset < self.constants.len() {
            let value = self.constants[self.offset];
            let edited = editor(value);
            self.constants.set(self.offset, edited);
            self.offset = self.offset + 1;
            Ok(())
        } else {
            Err(Error::BadConstants)
        }
    }

    /// Rewrites the next three constants as one vector and advances; only
    /// those slots change, to the components of the editor's result on the
    /// old vector.
    pub fn edit_vec3<F: FnOnce(Vec3Bits) -> Vec3Bits>(&mut self, editor: F) -> (r: Result<
        (),
        Error,
    >)
        requires
            forall|v: Vec3Bits| #[trigger] call_requires(editor, (v,)),
        ensures
            match r {
                Ok(_) => {
                    &&& old(self).spec_offset() + 3 <= old(self).spec_constants().len()
                    &&& final(self).spec_offset() == old(self).spec_offset() + 3
                    &&& final(self).spec_constants() == old(self).spec_constants().update(
                        old(self).spec_offset(),
                        final(self).spec_constants()[old(self).spec_offset()],
                    ).update(
                        old(self).spec_offset() + 1,
                        final(self).spec_constants()[old(self).spec_offset() + 1],
                    ).update(
                        old(self).spec_offset() + 2,
                        final(self).spec_constants()[old(self).spec_offset() + 2],
                    )
                    &&& call_ensures(
                        editor,
                        ((Vec3Bits {
                            x: old(self).spec_constants()[old(self).spec_offset()],
                            y: old(self).spec_constants()[old(self).spec_offset() + 1],
                            z: old(self).spec_constants()[old(self).spec_offset() + 2],
                        }),),
                        (Vec3Bits {
                            x: final(self).spec_constants()[old(self).spec_offset()],
                            y: final(self).spec_constants()[old(self).spec_offset() + 1],
                            z: final(self).spec_constants()[old(self).spec_offset() + 2],
                        }),
                    )
                },
                Err(e) => {
                    &&& e == Error::BadConstants
                    &&& old(self).spec_offset() + 3 > old(self).spec_constants().len()
                    &&& *final(self) == *old(self)
                },
            },
    {
        if self.offset < self.constants.len() && self.constants.len() - self.offset >= 3 {
            let value = Vec3Bits {
                x: self.constants[self.offset],
                y: self.constants[self.offset + 1],
                z: self.constants[self.offset + 2],
            };
            let edited = editor(value);
            self.constants.set(self.offset, edited.x);
            self.constants.set(self.offset + 1, edited.y);
            self.constants.set(self.offset + 2, edited.z);
            self.offset = self.offset + 3;
            Ok(())
        } else {
            Err(Error::BadConstants)
        }
    }
}

/// A transform waiting for its `PopTransform`, held by the decompiler as the
/// forward transform the graph node will carry.
#[derive(Copy, Clone, Debug)]
pub enum Transform {
    Translation(Vec3Bits),
    Rotation(QuatBits),
}

/// The decompiler's whole state between two opcodes: the graph rebuilt so
/// far, the value stack of finished subtree roots, the pending transforms,
/// and the cursor into the constant pool.
#[verifier::ext_equal]
pub struct RunState {
    pub nodes: Seq<Node>,
    pub stack: Seq<NodeId>,
    pub tstack: Seq<Transform>,
    pub ci: int,
}

/// The decompiler's state at the start of a program.
pub open spec fn init_run_state() -> RunState {
    RunState { nodes: Seq::empty(), stack: Seq::empty(), tstack: Seq::empty(), ci: 0 }
}

/// One decompilation step: what a single opcode (other than `End`) does to
/// the state. Combinators pop their operands (right first) before they read
/// constants; transforms store the forward transform, undoing the inverse
/// that compilation emitted.
pub open spec fn spec_step(op: Opcode, consts: Seq<u32>, st: RunState) -> Result<RunState, Error> {
    match op {
        Opcode::Plane => {
            if st.ci + 4 > consts.len() {
                Err(Error::BadConstants)
            } else {
                let node = Node::Plane(
                    Vec4Bits {
                        x: consts[st.ci],
                        y: consts[st.ci + 1],
                        z: consts[st.ci + 2],
                        w: consts[st.ci + 3],
                    },
                );
                Ok(
                    RunState {
                        nodes: st.nodes.push(node),
                        stack: st.stack.push(NodeId(st.nodes.len() as u32)),
                        ci: st.ci + 4,
                        ..st
                    },
                )
            }
        },
        Opcode::Sphere => {
            if st.ci + 4 > consts.len() {
                Err(Error::BadConstants)
            } else {
                let node = Node::Sphere {
                    center: Vec3Bits {
                        x: consts[st.ci],
                        y: consts[st.ci + 1],
                        z: consts[st.ci + 2],
                    },
                    radius: consts[st.ci + 3],
                };
                Ok(
                    RunState {
                        nodes: st.nodes.push(node),
                        stack: st.stack.push(NodeId(st.nodes.len() as u32)),
                        ci: st.ci + 4,
                        ..st
                    },
                )
            }
        },
        Opcode::Capsule => {
            if st.ci + 7 > consts.len() {
                Err(Error::BadConstants)
            } else {
                let node = Node::Capsule {
                    points: [
                        Vec3Bits { x: consts[st.ci], y: consts[st.ci + 1], z: consts[st.ci + 2] },
                        Vec3Bits {
                            x: consts[st.ci + 3],
                            y: consts[st.ci + 4],
                            z: consts[st.ci + 5],
                        },
                    ],
                    radius: consts[st.ci + 6],
                };
                Ok(
                    RunState {
                        nodes: st.nodes.push(node),
                        stack: st.stack.push(NodeId(st.nodes.len() as u32)),
                        ci: st.ci + 7,
                        ..st
                    },
                )
            }
        },
        Opcode::TaperedCapsule => {
            if st.ci + 8 > consts.len() {
                Err(Error::BadConstants)
            } else {
                let node = Node::TaperedCapsule {
                    points: [
                        Vec3Bits { x: consts[st.ci], y: consts[st.ci + 1], z: consts[st.ci + 2] },
                        Vec3Bits {
                            x: consts[st.ci + 4],
                            y: consts[st.ci + 5],
                            z: consts[st.ci + 6],
                        },
                    ],
                    radii: [consts[st.ci + 3], consts[st.ci + 7]],
                };
                Ok(
                    RunState {
                        nodes: st.nodes.push(node),
                        stack: st.stack.push(NodeId(st.nodes.len() as u32)),
                        ci: st.ci + 8,
                        ..st
                    },
                )
            }
        },
        Opcode::RoundedCylinder => {
            if st.ci + 3 > consts.len() {
                Err(Error::BadConstants)
            } else {
                let node = Node::RoundedCylinder {
                    cylinder_radius: consts[st.ci],
                    half_height: consts[st.ci + 1],
                    rounding_radius: consts[st.ci + 2],
                };
                Ok(
                    RunState {
                        nodes: st.nodes.push(node),
                        stack: st.stack.push(NodeId(st.nodes.len() as u32)),
                        ci: st.ci + 3,
                        ..st
                    },
                )
            }
        },
        Opcode::Cone => {
            if st.ci + 2 > consts.len() {
                Err(Error::BadConstants)
            } else {
                let node = Node::Cone { radius: consts[st.ci], height: consts[st.ci + 1] };
                Ok(
                    RunState {
                        nodes: st.nodes.push(node),
                        stack: st.stack.push(NodeId(st.nodes.len() as u32)),
                        ci: st.ci + 2,
                        ..st
                    },
                )
            }
        },
        Opcode::RoundedBox => {
            if st.ci + 4 > consts.len() {
                Err(Error::BadConstants)
            } else {
                let node = Node::RoundedBox {
                    half_size: Vec3Bits {
                        x: consts[st.ci],
                        y: consts[st.ci + 1],
                        z: consts[st.ci + 2],
                    },
                    rounding_radius: consts[st.ci + 3],
                };
                Ok(
                    RunState {
                        nodes: st.nodes.push(node),
                        stack: st.stack.push(NodeId(st.nodes.len() as u32)),
                        ci: st.ci + 4,
                        ..st
                    },
                )
            }
        },
        Opcode::Torus => {
            if st.ci + 2 > consts.len() {
                Err(Error::BadConstants)
            } else {
                let node = Node::Torus { big_r: consts[st.ci], small_r: consts[st.ci + 1] };
                Ok(
                    RunState {
                        nodes: st.nodes.push(node),
                        stack: st.stack.push(NodeId(st.nodes.len() as u32)),
                        ci: st.ci + 2,
                        ..st
                    },
                )
            }
        },
        Opcode::TorusSector => {
            if st.ci + 4 > consts.len() {
                Err(Error::BadConstants)
            } else {
                let node = Node::TorusSector {
                    big_r: consts[st.ci],
                    small_r: consts[st.ci + 1],
                    sin_half_angle: consts[st.ci + 2],
                    cos_half_angle: consts[st.ci + 3],
                };
                Ok(
                    RunState {
                        nodes: st.nodes.push(node),
                        stack: st.stack.push(NodeId(st.nodes.len() as u32)),
                        ci: st.ci + 4,
                        ..st
                    },
                )
            }
        },
        Opcode::BiconvexLens => {
            if st.ci + 3 > consts.len() {
                Err(Error::BadConstants)
            } else {
                let node = Node::BiconvexLens {
                    lower_sagitta: consts[st.ci],
                    upper_sagitta: consts[st.ci + 1],
                    chord: consts[st.ci + 2],
                };
                Ok(
                    RunState {
                        nodes: st.nodes.push(node),
                        stack: st.stack.push(NodeId(st.nodes.len() as u32)),
                        ci: st.ci + 3,
                        ..st
                    },
                )
            }
        },
        Opcode::Material => {
            if st.stack.len() == 0 {
                Err(Error::BadStack)
            } else if st.ci + 3 > consts.len() {
                Err(Error::BadConstants)
            } else {
                let child = st.stack.last();
                let node = Node::Material {
                    child,
                    material: Material {
                        rgb: Vec3Bits {
                            x: consts[st.ci],
                            y: consts[st.ci + 1],
                            z: consts[st.ci + 2],
                        },
                    },
                };
                Ok(
                    RunState {
                        nodes: st.nodes.push(node),
                        stack: st.stack.drop_last().push(NodeId(st.nodes.len() as u32)),
                        ci: st.ci + 3,
                        ..st
                    },
                )
            }
        },
        Opcode::Union => spec_step_binary(st, |lhs: NodeId, rhs: NodeId| Node::Union { lhs, rhs }),
        Opcode::Subtract => spec_step_binary(
            st,
            |lhs: NodeId, rhs: NodeId| Node::Subtract { lhs, rhs },
        ),
        Opcode::Intersect => spec_step_binary(
            st,
            |lhs: NodeId, rhs: NodeId| Node::Intersect { lhs, rhs },
        ),
        Opcode::UnionSmooth => spec_step_binary_smooth(
            consts,
            st,
            |lhs: NodeId, rhs: NodeId, size: u32| Node::UnionSmooth { lhs, rhs, size },
        ),
        Opcode::SubtractSmooth => spec_step_binary_smooth(
            consts,
            st,
            |lhs: NodeId, rhs: NodeId, size: u32| Node::SubtractSmooth { lhs, rhs, size },
        ),
        Opcode::IntersectSmooth => spec_step_binary_smooth(
            consts,
            st,
            |lhs: NodeId, rhs: NodeId, size: u32| Node::IntersectSmooth { lhs, rhs, size },
        ),
        Opcode::PushTranslation => {
            if st.ci + 3 > consts.len() {
                Err(Error::BadConstants)
            } else {
                let t = Vec3Bits {
                    x: negated_bits(consts[st.ci]),
                    y: negated_bits(consts[st.ci + 1]),
                    z: negated_bits(consts[st.ci + 2]),
                };
                Ok(
                    RunState { tstack: st.tstack.push(Transform::Translation(t)), ci: st.ci + 3, ..st },
                )
            }
        },
        Opcode::PushRotation => {
            if st.ci + 4 > consts.len() {
                Err(Error::BadConstants)
            } else {
                let q = QuatBits {
                    x: negated_bits(consts[st.ci]),
                    y: negated_bits(consts[st.ci + 1]),
                    z: negated_bits(consts[st.ci + 2]),
                    w: consts[st.ci + 3],
                };
                Ok(RunState { tstack: st.tstack.push(Transform::Rotation(q)), ci: st.ci + 4, ..st })
            }
        },
        Opcode::PopTransform => {
            if st.stack.len() == 0 {
                Err(Error::BadStack)
            } else if st.tstack.len() == 0 {
                Err(Error::BadStack)
            } else {
                let child = st.stack.last();
                let node = match st.tstack.last() {
                    Transform::Translation(translation) => Node::Translate { translation, child },
                    Transform::Rotation(rotation) => Node::Rotate { rotation, child },
                };
                Ok(
                    RunState {
                        nodes: st.nodes.push(node),
                        stack: st.stack.drop_last().push(NodeId(st.nodes.len() as u32)),
                        tstack: st.tstack.drop_last(),
                        ..st
                    },
                )
            }
        },
        Opcode::PushScale => {
            // The constant is the inverse scale; the forward scale follows at
            // the matching PopScale, so the inverse is read and dropped.
            if st.ci + 1 > consts.len() {
                Err(Error::BadConstants)
            } else {
                Ok(RunState { ci: st.ci + 1, ..st })
            }
        },
        Opcode::PopScale => {
            if st.stack.len() == 0 {
                Err(Error::BadStack)
            } else if st.ci + 1 > consts.len() {
                Err(Error::BadConstants)
            } else {
                let child = st.stack.last();
                let node = Node::Scale { scale: consts[st.ci], child };
                Ok(
                    RunState {
                        nodes: st.nodes.push(node),
                        stack: st.stack.drop_last().push(NodeId(st.nodes.len() as u32)),
                        ci: st.ci + 1,
                        ..st
                    },
                )
            }
        },
        Opcode::End => Ok(st),
    }
}

/// A sharp binary combinator: pops the right operand, then the left, and
/// pushes the combined node.
pub open spec fn spec_step_binary(st: RunState, make: spec_fn(NodeId, NodeId) -> Node) -> Result<
    RunState,
    Error,
> {
    if st.stack.len() < 2 {
        Err(Error::BadStack)
    } else {
        let rhs = st.stack.last();
        let lhs = st.stack.drop_last().last();
        Ok(
            RunState {
                nodes: st.nodes.push(make(lhs, rhs)),
                stack: st.stack.drop_last().drop_last().push(NodeId(st.nodes.len() as u32)),
                ..st
            },
        )
    }
}

/// A smooth binary combinator: pops both operands, then reads the smoothing
/// size.
pub open spec fn spec_step_binary_smooth(
    consts: Seq<u32>,
    st: RunState,
    make: spec_fn(NodeId, NodeId, u32) -> Node,
) -> Result<RunState, Error> {
    if st.stack.len() < 2 {
        Err(Error::BadStack)
    } else if st.ci + 1 > consts.len() {
        Err(Error::BadConstants)
    } else {
        let rhs = st.stack.last();
        let lhs = st.stack.drop_last().last();
        Ok(
            RunState {
                nodes: st.nodes.push(make(lhs, rhs, consts[st.ci])),
                stack: st.stack.drop_last().drop_last().push(NodeId(st.nodes.len() as u32)),
                ci: st.ci + 1,
                ..st
            },
        )
    }
}

/// How a run over the opcode stream can come out: it reached `End`, it ran
/// off the end of the stream, or a step failed.
pub enum RunOut {
    Done(RunState),
    NoEnd(RunState),
    Fail(Error),
}

/// Runs the decompiler from opcode `pc` in state `st` until `End`, the end
/// of the stream, or a failing step.
pub open spec fn spec_run(ops: Seq<Opcode>, consts: Seq<u32>, pc: int, st: RunState) -> RunOut
    decreases ops.len() - pc
        when 0 <= pc <= ops.len()
{
    if pc >= ops.len() {
        RunOut::NoEnd(st)
    } else if ops[pc] == Opcode::End {
        RunOut::Done(st)
    } else {
        match spec_step(ops[pc], consts, st) {
            Ok(st2) => spec_run(ops, consts, pc + 1, st2),
            Err(e) => RunOut::Fail(e),
        }
    }
}

/// What decompilation returns on the given opcodes and constants: the
/// rebuilt nodes and the root id, or the first error. After the run, an
/// unbalanced value or transform stack is reported before a missing `End`,
/// and that before unused constants, as the checks run in that order.
pub open spec fn spec_decompile(ops: Seq<Opcode>, consts: Seq<u32>) -> Result<
    (Seq<Node>, NodeId),
    Error,
> {
    let out = spec_run(ops, consts, 0, init_run_state());
    match out {
        RunOut::Fail(e) => Err(e),
        RunOut::Done(st) => {
            if st.stack.len() != 1 {
                Err(Error::BadStack)
            } else if st.tstack.len() != 0 {
                Err(Error::BadStack)
            } else if st.ci != consts.len() {
                Err(Error::BadProgram(BadProgramReason::UnusedConstants))
            } else {
                Ok((st.nodes, st.stack[0]))
            }
        },
        RunOut::NoEnd(st) => {
            if st.stack.len() != 1 {
                Err(Error::BadStack)
            } else if st.tstack.len() != 0 {
                Err(Error::BadStack)
            } else {
                Err(Error::BadProgram(BadProgramReason::MissingEnd))
            }
        },
    }
}

/// The decompiler's state, assembled from its executable parts.
pub open spec fn run_state_of(
    graph: &Graph,
    stack: &Vec<NodeId>,
    tstack: &Vec<Transform>,
    reader: &ConstantReader,
) -> RunState {
    RunState { nodes: graph@, stack: stack@, tstack: tstack@, ci: reader.spec_offset() }
}

/// Every id on the decompiler's value stack names a node that exists.
pub open spec fn stack_ids_in_bounds(stack: Seq<NodeId>, len: int) -> bool {
    forall|i: int| 0 <= i < stack.len() ==> (#[trigger] stack[i]).0 < len
}

/// Applies one opcode (not `End`) to the decompiler's state, exactly as
/// [`spec_step`] describes.
#[verifier::rlimit(100)]
fn exec_step(
    op: Opcode,
    graph: &mut Graph,
    stack: &mut Vec<NodeId>,
    tstack: &mut Vec<Transform>,
    reader: &mut ConstantReader,
) -> (r: Result<(), Error>)
    requires
        op != Opcode::End,
        graph_wf(old(graph)@),
        stack_ids_in_bounds(old(stack)@, old(graph)@.len() as int),
        old(graph)@.len() < u32::MAX,
    ensures
        match r {
            Ok(_) => {
                &&& spec_step(
                    op,
                    old(reader).spec_constants(),
                    run_state_of(old(graph), old(stack), old(tstack), old(reader)),
                ) == Ok::<RunState, Error>(
                    run_state_of(final(graph), final(stack), final(tstack), final(reader)),
                )
                &&& final(reader).spec_constants() == old(reader).spec_constants()
                &&& graph_wf(final(graph)@)
                &&& stack_ids_in_bounds(final(stack)@, final(graph)@.len() as int)
                &&& final(graph)@.len() <= old(graph)@.len() + 1
            },
            Err(e) => spec_step(
                op,
                old(reader).spec_constants(),
                run_state_of(old(graph), old(stack), old(tstack), old(reader)),
            ) == Err::<RunState, Error>(e),
        },
{
    let ghost st0 = run_state_of(old(graph), old(stack), old(tstack), old(reader));
    match op {
        Opcode::Plane => {
            let plane = reader.read_vec4()?;
            let id = graph.create_node(Node::Plane(plane));
            stack.push(id);
            proof {
                assert(spec_step(op, old(reader).spec_constants(), st0) == Ok::<RunState, Error>(
                    run_state_of(graph, stack, tstack, reader),
                ));
            }
            Ok(())
        },
        Opcode::Sphere => {
            let center = reader.read_vec3()?;
            let radius = reader.read_f32()?;
            let id = graph.create_node(Node::Sphere { center, radius });
            stack.push(id);
            proof {
                assert(spec_step(op, old(reader).spec_constants(), st0) == Ok::<RunState, Error>(
                    run_state_of(graph, stack, tstack, reader),
                ));
            }
            Ok(())
        },
        Opcode::Capsule => {
            let point0 = reader.read_vec3()?;
            let point1 = reader.read_vec3()?;
            let radius = reader.read_f32()?;
            let id = graph.create_node(Node::Capsule { points: [point0, point1], radius });
            stack.push(id);
            proof {
                assert(spec_step(op, old(reader).spec_constants(), st0) == Ok::<RunState, Error>(
                    run_state_of(graph, stack, tstack, reader),
                ));
            }
            Ok(())
        },
        Opcode::TaperedCapsule => {
            let point0 = reader.read_vec3()?;
            let radius0 = reader.read_f32()?;
            let point1 = reader.read_vec3()?;
            let radius1 = reader.read_f32()?;
            let id = graph.create_node(
                Node::TaperedCapsule { points: [point0, point1], radii: [radius0, radius1] },
            );
            stack.push(id);
            proof {
                assert(spec_step(op, old(reader).spec_constants(), st0) == Ok::<RunState, Error>(
                    run_state_of(graph, stack, tstack, reader),
                ));
            }
            Ok(())
        },
        Opcode::RoundedCylinder => {
            let cylinder_radius = reader.read_f32()?;
            let half_height = reader.read_f32()?;
            let rounding_radius = reader.read_f32()?;
            let id = graph.create_node(
                Node::RoundedCylinder { cylinder_radius, half_height, rounding_radius },
            );
            stack.push(id);
            proof {
                assert(spec_step(op, old(reader).spec_constants(), st0) == Ok::<RunState, Error>(
                    run_state_of(graph, stack, tstack, reader),
                ));
            }
            Ok(())
        },
        Opcode::Cone => {
            let radius = reader.read_f32()?;
            let height = reader.read_f32()?;
            let id = graph.create_node(Node::Cone { radius, height });
            stack.push(id);
            proof {
                assert(spec_step(op, old(reader).spec_constants(), st0) == Ok::<RunState, Error>(
                    run_state_of(graph, stack, tstack, reader),
                ));
            }
            Ok(())
        },
        Opcode::RoundedBox => {
            let half_size = reader.read_vec3()?;
            let rounding_radius = reader.read_f32()?;
            let id = graph.create_node(Node::RoundedBox { half_size, rounding_radius });
            stack.push(id);
            proof {
                assert(spec_step(op, old(reader).spec_constants(), st0) == Ok::<RunState, Error>(
                    run_state_of(graph, stack, tstack, reader),
                ));
            }
            Ok(())
        },
        Opcode::Torus => {
            let big_r = reader.read_f32()?;
            let small_r = reader.read_f32()?;
            let id = graph.create_node(Node::Torus { big_r, small_r });
            stack.push(id);
            proof {
                assert(spec_step(op, old(reader).spec_constants(), st0) == Ok::<RunState, Error>(
                    run_state_of(graph, stack, tstack, reader),
                ));
            }
            Ok(())
        },
        Opcode::TorusSector => {
            let big_r = reader.read_f32()?;
            let small_r = reader.read_f32()?;
            let sin_half_angle = reader.read_f32()?;
            let cos_half_angle = reader.read_f32()?;
            let id = graph.create_node(
                Node::TorusSector { big_r, small_r, sin_half_angle, cos_half_angle },
            );
            stack.push(id);
            proof {
                assert(spec_step(op, old(reader).spec_constants(), st0) == Ok::<RunState, Error>(
                    run_state_of(graph, stack, tstack, reader),
                ));
            }
            Ok(())
        },
        Opcode::BiconvexLens => {
            let lower_sagitta = reader.read_f32()?;
            let upper_sagitta = reader.read_f32()?;
            let chord = reader.read_f32()?;
            let id = graph.create_node(Node::BiconvexLens { lower_sagitta, upper_sagitta, chord });
            stack.push(id);
            proof {
                assert(spec_step(op, old(reader).spec_constants(), st0) == Ok::<RunState, Error>(
                    run_state_of(graph, stack, tstack, reader),
                ));
            }
            Ok(())
        },
        Opcode::Material => {
            let child = match stack.pop() {
                Some(id) => id,
                None => {
                    return Err(Error::BadStack);
                },
            };
            let rgb = reader.read_vec3()?;
            let id = graph.create_node(Node::Material { child, material: Material { rgb } });
            stack.push(id);
            proof {
                assert(spec_step(op, old(reader).spec_constants(), st0) == Ok::<RunState, Error>(
                    run_state_of(graph, stack, tstack, reader),
                ));
            }
            Ok(())
        },
        Opcode::Union => {
            let rhs = match stack.pop() {
                Some(id) => id,
                None => {
                    return Err(Error::BadStack);
                },
            };
            let lhs = match stack.pop() {
                Some(id) => id,
                None => {
                    return Err(Error::BadStack);
                },
            };
            let id = graph.create_node(Node::Union { lhs, rhs });
            stack.push(id);
            proof {
                assert(spec_step(op, old(reader).spec_constants(), st0) == Ok::<RunState, Error>(
                    run_state_of(graph, stack, tstack, reader),
                ));
            }
            Ok(())
        },
        Opcode::Subtract => {
            let rhs = match stack.pop() {
                Some(id) => id,
                None => {
                    return Err(Error::BadStack);
                },
            };
            let lhs = match stack.pop() {
                Some(id) => id,
                None => {
                    return Err(Error::BadStack);
                },
            };
            let id = graph.create_node(Node::Subtract { lhs, rhs });
            stack.push(id);
            proof {
                assert(spec_step(op, old(reader).spec_constants(), st0) == Ok::<RunState, Error>(
                    run_state_of(graph, stack, tstack, reader),
                ));
            }
            Ok(())
        },
        Opcode::Intersect => {
            let rhs = match stack.pop() {
                Some(id) => id,
                None => {
                    return Err(Error::BadStack);
                },
            };
            let lhs = match stack.pop() {
                Some(id) => id,
                None => {
                    return Err(Error::BadStack);
                },
            };
            let id = graph.create_node(Node::Intersect { lhs, rhs });
            stack.push(id);
            proof {
                assert(spec_step(op, old(reader).spec_constants(), st0) == Ok::<RunState, Error>(
                    run_state_of(graph, stack, tstack, reader),
                ));
            }
            Ok(())
        },
        Opcode::UnionSmooth => {
            let rhs = match stack.pop() {
                Some(id) => id,
                None => {
                    return Err(Error::BadStack);
                },
            };
            let lhs = match stack.pop() {
                Some(id) => id,
                None => {
                    return Err(Error::BadStack);
                },
            };
            let size = reader.read_f32()?;
            let id = graph.create_node(Node::UnionSmooth { lhs, rhs, size });
            stack.push(id);
            proof {
                assert(spec_step(op, old(reader).spec_constants(), st0) == Ok::<RunState, Error>(
                    run_state_of(graph, stack, tstack, reader),
                ));
            }
            Ok(())
        },
        Opcode::SubtractSmooth => {
            let rhs = match stack.pop() {
                Some(id) => id,
                None => {
                    return Err(Error::BadStack);
                },
            };
            let lhs = match stack.pop() {
                Some(id) => id,
                None => {
                    return Err(Error::BadStack);
                },
            };
            let size = reader.read_f32()?;
            let id = graph.create_node(Node::SubtractSmooth { lhs, rhs, size });
            stack.push(id);
            proof {
                assert(spec_step(op, old(reader).spec_constants(), st0) == Ok::<RunState, Error>(
                    run_state_of(graph, stack, tstack, reader),
                ));
            }
            Ok(())
        },
        Opcode::IntersectSmooth => {
            let rhs = match stack.pop() {
                Some(id) => id,
                None => {
                    return Err(Error::BadStack);
                },
            };
            let lhs = match stack.pop() {
                Some(id) => id,
                None => {
                    return Err(Error::BadStack);
                },
            };
            let size = reader.read_f32()?;
            let id = graph.create_node(Node::IntersectSmooth { lhs, rhs, size });
            stack.push(id);
            proof {
                assert(spec_step(op, old(reader).spec_constants(), st0) == Ok::<RunState, Error>(
                    run_state_of(graph, stack, tstack, reader),
                ));
            }
            Ok(())
        },
        Opcode::PushTranslation => {
            let translation = reader.read_vec3()?;
            tstack.push(
                Transform::Translation(
                    Vec3Bits {
                        x: f32_neg(translation.x),
                        y: f32_neg(translation.y),
                        z: f32_neg(translation.z),
                    },
                ),
            );
            proof {
                assert(spec_step(op, old(reader).spec_constants(), st0) == Ok::<RunState, Error>(
                    run_state_of(graph, stack, tstack, reader),
                ));
            }
            Ok(())
        },
        Opcode::PushRotation => {
            let rotation = reader.read_quat()?;
            tstack.push(
                Transform::Rotation(
                    QuatBits {
                        x: f32_neg(rotation.x),
                        y: f32_neg(rotation.y),
                        z: f32_neg(rotation.z),
                        w: rotation.w,
                    },
                ),
            );
            proof {
                assert(spec_step(op, old(reader).spec_constants(), st0) == Ok::<RunState, Error>(
                    run_state_of(graph, stack, tstack, reader),
                ));
            }
            Ok(())
        },
        Opcode::PopTransform => {
            let child = match stack.pop() {
                Some(id) => id,
                None => {
                    return Err(Error::BadStack);
                },
            };
            let node = match tstack.pop() {
                Some(Transform::Translation(translation)) => Node::Translate {
                    translation,
                    child,
                },
                Some(Transform::Rotation(rotation)) => Node::Rotate { rotation, child },
                None => {
                    return Err(Error::BadStack);
                },
            };
            let id = graph.create_node(node);
            stack.push(id);
            proof {
                assert(spec_step(op, old(reader).spec_constants(), st0) == Ok::<RunState, Error>(
                    run_state_of(graph, stack, tstack, reader),
                ));
            }
            Ok(())
        },
        Opcode::PushScale => {
            let _inv_scale = reader.read_f32()?;
            proof {
                assert(spec_step(op, old(reader).spec_constants(), st0) == Ok::<RunState, Error>(
                    run_state_of(graph, stack, tstack, reader),
                ));
            }
            Ok(())
        },
        Opcode::PopScale => {
            let child = match stack.pop() {
                Some(id) => id,
                None => {
                    return Err(Error::BadStack);
                },
            };
            let scale = reader.read_f32()?;
            let id = graph.create_node(Node::Scale { scale, child });
            stack.push(id);
            proof {
                assert(spec_step(op, old(reader).spec_constants(), st0) == Ok::<RunState, Error>(
                    run_state_of(graph, stack, tstack, reader),
                ));
            }
            Ok(())
        },
        Opcode::End => {
            // Unreachable: the caller handles `End` itself.
            Ok(())
        },
    }
}

/// Rebuilds a graph from a program's opcodes and the given constant pool,
/// validating the wire form on the way: this is the canonical check that a
/// program is well formed. On success the graph is well formed, its root is
/// in bounds, and the pair is exactly what [`spec_decompile`] names; each
/// error comes exactly when that specification says it does.
pub fn decompile(program: &Program, constants: &[u32]) -> (r: Result<(Graph, NodeId), Error>)
    requires
        program.opcodes@.len() < u32::MAX,
    ensures
        match r {
            Ok(p) => spec_decompile(program.opcodes@, constants@) == Ok::<_, Error>((p.0@, p.1))
                && graph_wf(p.0@) && p.1.0 < p.0@.len(),
            Err(e) => spec_decompile(program.opcodes@, constants@) == Err::<(Seq<Node>, NodeId), _>(
                e,
            ),
        },
{
    let ghost ops = program.opcodes@;
    let ghost cs = constants@;
    let mut graph = Graph::default();
    let mut stack: Vec<NodeId> = Vec::new();
    let mut tstack: Vec<Transform> = Vec::new();
    let mut reader = ConstantReader::new(constants);
    let mut hit_end: bool = false;
    let mut pc: usize = 0;
    let n: usize = program.opcodes.len();

    while pc < n && !hit_end
        invariant
            n == ops.len(),
            pc <= n,
            n < u32::MAX,
            ops == program.opcodes@,
            cs == constants@,
            graph_wf(graph@),
            stack_ids_in_bounds(stack@, graph@.len() as int),
            graph@.len() <= pc,
            reader.spec_constants() == cs,
            hit_end ==> pc < n && ops[pc as int] == Opcode::End,
            spec_run(ops, cs, 0, init_run_state()) == spec_run(
                ops,
                cs,
                pc as int,
                run_state_of(&graph, &stack, &tstack, &reader),
            ),
        decreases n - pc, if hit_end { 0int } else { 1int },
    {
        let op = program.opcodes[pc];
        if op == Opcode::End {
            hit_end = true;
        } else {
            let ghost before = run_state_of(&graph, &stack, &tstack, &reader);
            match exec_step(op, &mut graph, &mut stack, &mut tstack, &mut reader) {
                Ok(_) => {},
                Err(e) => {
                    proof {
                        assert(spec_run(ops, cs, pc as int, before) == RunOut::Fail(e));
                    }
                    return Err(e);
                },
            }
            proof {
                assert(spec_run(ops, cs, pc as int, before) == spec_run(
                    ops,
                    cs,
                    pc as int + 1,
                    run_state_of(&graph, &stack, &tstack, &reader),
                ));
            }
            pc = pc + 1;
        }
    }

    proof {
        let fin = run_state_of(&graph, &stack, &tstack, &reader);
        if hit_end {
            assert(spec_run(ops, cs, 0, init_run_state()) == RunOut::Done(fin));
        } else {
            assert(spec_run(ops, cs, 0, init_run_state()) == RunOut::NoEnd(fin));
        }
    }

    if stack.len() != 1 {
        return Err(Error::BadStack);
    }
    if tstack.len() != 0 {
        return Err(Error::BadStack);
    }
    if !hit_end {
        return Err(Error::BadProgram(BadProgramReason::MissingEnd));
    }
    if !reader.at_end() {
        return Err(Error::BadProgram(BadProgramReason::UnusedConstants));
    }
    let root = stack[0];
    Ok((graph, root))
}

/// Compiles the graph, rooted at `root`, into a program: the post-order
/// emission of the root's subtree followed by `End`.
pub fn compile(graph: &Graph, root: NodeId) -> (r: Program)
    requires
        graph_wf(graph@),
        root.0 < graph@.len(),
    ensures
        r.opcodes@ == spec_compile_node(graph@, root.0 as int).ops + seq![Opcode::End],
        r.constants@ == spec_compile_node(graph@, root.0 as int).consts,
{
    let mut program = Program::default();
    compile_node(graph.nodes(), root.0, &mut program);
    program.opcodes.push(Opcode::End);
    proof {
        assert(program.opcodes@ =~= spec_compile_node(graph@, root.0 as int).ops + seq![
            Opcode::End,
        ]);
        assert(program.constants@ =~= spec_compile_node(graph@, root.0 as int).consts);
    }
    program
}

/// Emission reads only the node at `id` and the nodes below it, so nodes
/// appended after `id` change nothing.
pub proof fn lemma_compile_stable_append(nodes: Seq<Node>, extra: Seq<Node>, id: int)
    requires
        graph_wf(nodes),
        graph_wf(nodes + extra),
        0 <= id < nodes.len(),
    ensures
        spec_compile_node(nodes + extra, id) == spec_compile_node(nodes, id),
    decreases nodes, id, 1int, 0int,
{
    let nn = nodes + extra;
    assert(nn[id] == nodes[id]);
    assert(node_children_lt(nodes[id], id));
    match nodes[id] {
        Node::Material { child, .. } => {
            lemma_compile_stable_append(nodes, extra, child.0 as int);
        },
        Node::Union { lhs, rhs } => {
            lemma_compile_stable_append(nodes, extra, lhs.0 as int);
            lemma_compile_stable_append(nodes, extra, rhs.0 as int);
        },
        Node::UnionSmooth { lhs, rhs, .. } => {
            lemma_compile_stable_append(nodes, extra, lhs.0 as int);
            lemma_compile_stable_append(nodes, extra, rhs.0 as int);
        },
        Node::Subtract { lhs, rhs } => {
            lemma_compile_stable_append(nodes, extra, lhs.0 as int);
            lemma_compile_stable_append(nodes, extra, rhs.0 as int);
        },
        Node::SubtractSmooth { lhs, rhs, .. } => {
            lemma_compile_stable_append(nodes, extra, lhs.0 as int);
            lemma_compile_stable_append(nodes, extra, rhs.0 as int);
        },
        Node::Intersect { lhs, rhs } => {
            lemma_compile_stable_append(nodes, extra, lhs.0 as int);
            lemma_compile_stable_append(nodes, extra, rhs.0 as int);
        },
        Node::IntersectSmooth { lhs, rhs, .. } => {
            lemma_compile_stable_append(nodes, extra, lhs.0 as int);
            lemma_compile_stable_append(nodes, extra, rhs.0 as int);
        },
        Node::UnionMulti { children } => {
            lemma_compile_multi_stable_append(
                nodes,
                extra,
                children@,
                children@.len() as int,
                None,
                id,
            );
        },
        Node::UnionMultiSmooth { children, size } => {
            lemma_compile_multi_stable_append(
                nodes,
                extra,
                children@,
                children@.len() as int,
                Some(size),
                id,
            );
        },
        Node::Translate { child, .. } => {
            lemma_compile_stable_append(nodes, extra, child.0 as int);
        },
        Node::Rotate { child, .. } => {
            lemma_compile_stable_append(nodes, extra, child.0 as int);
        },
        Node::Scale { child, .. } => {
            lemma_compile_stable_append(nodes, extra, child.0 as int);
        },
        _ => {},
    }
}

/// The N-ary form of [`lemma_compile_stable_append`].
pub proof fn lemma_compile_multi_stable_append(
    nodes: Seq<Node>,
    extra: Seq<Node>,
    children: Seq<NodeId>,
    j: int,
    smooth: Option<u32>,
    bound: int,
)
    requires
        graph_wf(nodes),
        graph_wf(nodes + extra),
        0 <= bound <= nodes.len(),
        forall|i: int| 0 <= i < children.len() ==> (#[trigger] children[i]).0 < bound,
        j <= children.len(),
    ensures
        spec_compile_multi(nodes + extra, children, j, smooth, bound) == spec_compile_multi(
            nodes,
            children,
            j,
            smooth,
            bound,
        ),
    decreases nodes, bound, 0int, j,
{
    if j <= 0 {
    } else if j == 1 {
        lemma_compile_stable_append(nodes, extra, children[0].0 as int);
    } else {
        lemma_compile_multi_stable_append(nodes, extra, children, j - 1, smooth, bound);
        lemma_compile_stable_append(nodes, extra, children[j - 1].0 as int);
    }
}

} // verus!
