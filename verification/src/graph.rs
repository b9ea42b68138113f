//! The user-facing graph of signed-distance shapes: primitives, boolean
//! combinators (sharp and smooth), and transforms, each node addressed by a
//! dense id. Scalars are IEEE-754 single-precision bit patterns.

use vstd::prelude::*;

use crate::fbits::{
    EXP_MASK,
    f32_clamp, f32_half, half_bits, clamped_bits, is_nan_bits, f32_le_bits, MIN_SAGITTA_BITS,
};

verus! {

/// A three-component vector, each component the bit pattern of an IEEE-754
/// single-precision value.
#[derive(Copy, Clone, PartialEq, Eq, Structural, Debug)]
pub struct Vec3Bits {
    pub x: u32,
    pub y: u32,
    pub z: u32,
}

impl Vec3Bits {
    /// The vector with the given components.
    pub fn new(x: u32, y: u32, z: u32) -> (r: Vec3Bits)
        ensures
            r == (Vec3Bits { x, y, z }),
    {
        Vec3Bits { x, y, z }
    }

    /// The zero vector (all components positive zero).
    pub fn zero() -> (r: Vec3Bits)
        ensures
            r == (Vec3Bits { x: 0u32, y: 0u32, z: 0u32 }),
    {
        Vec3Bits { x: 0, y: 0, z: 0 }
    }
}

/// A four-component vector of single-precision bit patterns; a plane is
/// carried as its unit normal in `x, y, z` and its offset in `w`.
#[derive(Copy, Clone, PartialEq, Eq, Structural, Debug)]
pub struct Vec4Bits {
    pub x: u32,
    pub y: u32,
    pub z: u32,
    pub w: u32,
}

/// A quaternion of single-precision bit patterns, `w` the scalar part.
#[derive(Copy, Clone, PartialEq, Eq, Structural, Debug)]
pub struct QuatBits {
    pub x: u32,
    pub y: u32,
    pub z: u32,
    pub w: u32,
}

/// An RGB material in linear space, each channel in `[0, 1]`.
#[derive(Copy, Clone, PartialEq, Eq, Structural, Debug)]
pub struct Material {
    /// The linear-space color, one single-precision pattern per channel.
    pub rgb: Vec3Bits,
}

impl Material {
    /// A material with the given color.
    pub fn new(rgb: Vec3Bits) -> (r: Material)
        ensures
            r == (Material { rgb }),
    {
        Material { rgb }
    }

    /// The color of this material.
    pub fn rgb(&self) -> (r: Vec3Bits)
        ensures
            r == self.rgb,
    {
        self.rgb
    }
}

/// The id of a node inside its graph: a dense index, allocated upward from
/// zero in the order the nodes were created.
#[derive(Copy, Clone, PartialEq, Eq, Structural, Debug, Hash, PartialOrd, Ord)]
pub struct NodeId(pub u32);

/// A boolean operator, used to pick among the three sharp (or smooth)
/// combinators.
#[derive(Copy, Clone, PartialEq, Eq, Structural, Debug)]
pub enum CsgOp {
    Union,
    Subtract,
    Intersect,
}

/// One shape node. Children are named by [`NodeId`]; every child id is
/// smaller than the id of the node itself, which keeps graphs acyclic by
/// construction.
#[derive(Debug)]
pub enum Node {
    // Primitives:
    /// Half-space: distance is `normal · pos + offset`; the normal
    /// (`x, y, z`) should be unit length.
    Plane(Vec4Bits),
    /// A ball around `center`.
    Sphere { center: Vec3Bits, radius: u32 },
    /// The points within `radius` of the segment between the two endpoints.
    Capsule { points: [Vec3Bits; 2], radius: u32 },
    /// A Y-axis cylinder with its edges rounded off.
    RoundedCylinder { cylinder_radius: u32, half_height: u32, rounding_radius: u32 },
    /// The convex hull of two balls.
    TaperedCapsule { points: [Vec3Bits; 2], radii: [u32; 2] },
    /// Base center at the origin, apex `height` up the positive Y axis.
    Cone { radius: u32, height: u32 },
    /// A box with its edges and corners rounded off.
    RoundedBox { half_size: Vec3Bits, rounding_radius: u32 },
    /// A ring centered at the origin, lying in the XZ plane.
    Torus { big_r: u32, small_r: u32 },
    /// Part of a ring; the missing piece opens toward negative Z. The two
    /// angle fields hold the sine and the cosine of the half-angle.
    TorusSector { big_r: u32, small_r: u32, sin_half_angle: u32, cos_half_angle: u32 },
    /// Two spherical caps over a shared chord, one of each sagitta.
    BiconvexLens { lower_sagitta: u32, upper_sagitta: u32, chord: u32 },

    /// Sets the material of the whole subtree below `child`.
    Material { child: NodeId, material: Material },

    // Combinators:
    Union { lhs: NodeId, rhs: NodeId },
    UnionMulti { children: Vec<NodeId> },
    UnionSmooth { lhs: NodeId, rhs: NodeId, size: u32 },
    UnionMultiSmooth { children: Vec<NodeId>, size: u32 },
    Subtract { lhs: NodeId, rhs: NodeId },
    SubtractSmooth { lhs: NodeId, rhs: NodeId, size: u32 },
    Intersect { lhs: NodeId, rhs: NodeId },
    IntersectSmooth { lhs: NodeId, rhs: NodeId, size: u32 },

    // Transforms:
    Translate { translation: Vec3Bits, child: NodeId },
    Rotate { rotation: QuatBits, child: NodeId },
    Scale { scale: u32, child: NodeId },

    /// A nested graph with its own root, compiled in place.
    Graph { root: NodeId, graph: Graph },
}

/// A graph of shape nodes. Nodes are append-only; ids are their positions.
#[derive(Debug)]
pub struct Graph {
    nodes: Vec<Node>,
}

impl View for Graph {
    type V = Seq<Node>;

    closed spec fn view(&self) -> Seq<Node> {
        self.nodes@
    }
}

/// Every child id the node names lies below `bound`; for a nested graph, the
/// nested root lies inside the nested graph. This is the acyclicity
/// invariant: a node only ever points at nodes created before it.
pub open spec fn node_children_lt(node: Node, bound: int) -> bool {
    match node {
        Node::Plane(_) => true,
        Node::Sphere { .. } => true,
        Node::Capsule { .. } => true,
        Node::RoundedCylinder { .. } => true,
        Node::TaperedCapsule { .. } => true,
        Node::Cone { .. } => true,
        Node::RoundedBox { .. } => true,
        Node::Torus { .. } => true,
        Node::TorusSector { .. } => true,
        Node::BiconvexLens { .. } => true,
        Node::Material { child, .. } => child.0 < bound,
        Node::Union { lhs, rhs } => lhs.0 < bound && rhs.0 < bound,
        Node::UnionMulti { children } => forall|i: int|
            0 <= i < children@.len() ==> (#[trigger] children@[i]).0 < bound,
        Node::UnionSmooth { lhs, rhs, .. } => lhs.0 < bound && rhs.0 < bound,
        Node::UnionMultiSmooth { children, .. } => forall|i: int|
            0 <= i < children@.len() ==> (#[trigger] children@[i]).0 < bound,
        Node::Subtract { lhs, rhs } => lhs.0 < bound && rhs.0 < bound,
        Node::SubtractSmooth { lhs, rhs, .. } => lhs.0 < bound && rhs.0 < bound,
        Node::Intersect { lhs, rhs } => lhs.0 < bound && rhs.0 < bound,
        Node::IntersectSmooth { lhs, rhs, .. } => lhs.0 < bound && rhs.0 < bound,
        Node::Translate { child, .. } => child.0 < bound,
        Node::Rotate { child, .. } => child.0 < bound,
        Node::Scale { child, .. } => child.0 < bound,
        Node::Graph { root, graph } => root.0 < graph@.len(),
    }
}

/// The graphs nested inside the first `n` nodes are themselves well formed.
pub open spec fn nested_graphs_wf(nodes: Seq<Node>, n: int) -> bool
    decreases nodes, n,
        when n <= nodes.len()
{
    if n <= 0 {
        true
    } else {
        nested_graphs_wf(nodes, n - 1) && match nodes[n - 1] {
            Node::Graph { graph, .. } => graph_wf(graph@),
            _ => true,
        }
    }
}

/// A graph is well formed when every node points only at earlier nodes and
/// every nested graph is well formed in turn. Graphs built through the
/// constructors always are; compilation relies on it for termination.
pub open spec fn graph_wf(nodes: Seq<Node>) -> bool
    decreases nodes, nodes.len() + 1,
{
    &&& forall|i: int| 0 <= i < nodes.len() ==> node_children_lt(#[trigger] nodes[i], i)
    &&& nested_graphs_wf(nodes, nodes.len() as int)
}

/// In a well-formed graph, the graph nested inside any node is well formed.
pub proof fn lemma_nested_graph_wf(nodes: Seq<Node>, n: int, i: int)
    requires
        nested_graphs_wf(nodes, n),
        0 <= i < n <= nodes.len(),
    ensures
        match nodes[i] {
            Node::Graph { graph, .. } => graph_wf(graph@),
            _ => true,
        },
    decreases n,
{
    if i < n - 1 {
        lemma_nested_graph_wf(nodes, n - 1, i);
    }
}

/// Appending to the node sequence does not disturb the nested-graph check of
/// an existing prefix.
proof fn lemma_nested_graphs_wf_push(nodes: Seq<Node>, node: Node, n: int)
    requires
        nested_graphs_wf(nodes, n),
        0 <= n <= nodes.len(),
    ensures
        nested_graphs_wf(nodes.push(node), n),
    decreases n,
{
    if n > 0 {
        lemma_nested_graphs_wf_push(nodes, node, n - 1);
    }
}

/// Appending a node whose children all exist, and whose nested graph (if
/// any) is well formed, keeps the graph well formed.
pub proof fn lemma_graph_wf_push(nodes: Seq<Node>, node: Node)
    requires
        graph_wf(nodes),
        node_children_lt(node, nodes.len() as int),
        match node {
            Node::Graph { graph, .. } => graph_wf(graph@),
            _ => true,
        },
    ensures
        graph_wf(nodes.push(node)),
{
    let pushed = nodes.push(node);
    assert forall|i: int| 0 <= i < pushed.len() implies node_children_lt(#[trigger] pushed[i], i) by {
        if i < nodes.len() {
            assert(pushed[i] == nodes[i]);
        }
    }
    lemma_nested_graphs_wf_push(nodes, node, nodes.len() as int);
    assert(nested_graphs_wf(pushed, nodes.len() as int));
    assert(pushed[pushed.len() - 1] == node);
}

/// The node is not an N-ary union over no children at all. An empty N-ary
/// union emits nothing, so it is the one well-formed node whose compiled
/// program leaves nothing on the stack.
pub open spec fn node_multi_nonempty(node: Node) -> bool {
    match node {
        Node::UnionMulti { children } => children@.len() > 0,
        Node::UnionMultiSmooth { children, .. } => children@.len() > 0,
        _ => true,
    }
}

/// The graphs nested inside the first `n` nodes have no empty N-ary unions.
pub open spec fn nested_graphs_multis_nonempty(nodes: Seq<Node>, n: int) -> bool
    decreases nodes, n,
        when n <= nodes.len()
{
    if n <= 0 {
        true
    } else {
        nested_graphs_multis_nonempty(nodes, n - 1) && match nodes[n - 1] {
            Node::Graph { graph, .. } => graph_multis_nonempty(graph@),
            _ => true,
        }
    }
}

/// No node of the graph, nor of any graph nested inside it, is an N-ary
/// union over no children.
pub open spec fn graph_multis_nonempty(nodes: Seq<Node>) -> bool
    decreases nodes, nodes.len() + 1,
{
    &&& forall|i: int| 0 <= i < nodes.len() ==> node_multi_nonempty(#[trigger] nodes[i])
    &&& nested_graphs_multis_nonempty(nodes, nodes.len() as int)
}

/// The nested-graph form of [`graph_multis_nonempty`], extracted for one
/// node.
pub proof fn lemma_nested_graph_multis_nonempty(nodes: Seq<Node>, n: int, i: int)
    requires
        nested_graphs_multis_nonempty(nodes, n),
        0 <= i < n <= nodes.len(),
    ensures
        match nodes[i] {
            Node::Graph { graph, .. } => graph_multis_nonempty(graph@),
            _ => true,
        },
    decreases n,
{
    if i < n - 1 {
        lemma_nested_graph_multis_nonempty(nodes, n - 1, i);
    }
}

/// A graph stands above its own node sequence in the termination order, so
/// compilation may recurse from a node into the graph nested inside it.
pub broadcast proof fn lemma_graph_view_decreases(g: Graph)
    ensures
        #[trigger] (decreases_to!(g => g@)),
{
    assert(decreases_to!(g => g.nodes));
    vstd::std_specs::vec::axiom_vec_decreases_to_view(g.nodes);
}

impl Default for Graph {
    /// The empty graph.
    fn default() -> (r: Graph)
        ensures
            r@ == Seq::<Node>::empty(),
            graph_wf(r@),
    {
        Graph { nodes: Vec::new() }
    }
}

impl Graph {
    /// Appends the node and returns its id: the next unused index.
    pub fn create_node(&mut self, node: Node) -> (r: NodeId)
        requires
            graph_wf(old(self)@),
            node_children_lt(node, old(self)@.len() as int),
            match node {
                Node::Graph { graph, .. } => graph_wf(graph@),
                _ => true,
            },
            old(self)@.len() < u32::MAX,
        ensures
            final(self)@ == old(self)@.push(node),
            graph_wf(final(self)@),
            r == NodeId(old(self)@.len() as u32),
    {
        let id = NodeId(self.nodes.len() as u32);
        proof {
            lemma_graph_wf_push(self@, node);
        }
        self.nodes.push(node);
        id
    }

    /// Embeds a whole well-formed graph as one node, rooted at `root`.
    pub fn graph(&mut self, graph: Graph, root: NodeId) -> (r: NodeId)
        requires
            graph_wf(old(self)@),
            graph_wf(graph@),
            root.0 < graph@.len(),
            old(self)@.len() < u32::MAX,
        ensures
            final(self)@ == old(self)@.push(Node::Graph { root, graph }),
            graph_wf(final(self)@),
            r == NodeId(old(self)@.len() as u32),
    {
        self.create_node(Node::Graph { root, graph })
    }

    /// The node with the given id, or `None` past the end.
    pub fn get(&self, node_id: NodeId) -> (r: Option<&Node>)
        ensures
            match r {
                Some(node) => node_id.0 < self@.len() && *node == self@[node_id.0 as int],
                None => node_id.0 >= self@.len(),
            },
    {
        if (node_id.0 as usize) < self.nodes.len() {
            Some(&self.nodes[node_id.0 as usize])
        } else {
            None
        }
    }

    /// All nodes, in id order.
    pub fn nodes(&self) -> (r: &Vec<Node>)
        ensures
            r@ == self@,
    {
        &self.nodes
    }
}

// Constructors, one per node kind.
impl Graph {
    /// Half-space: distance is `normal · pos + offset`; the normal
    /// (`x, y, z`) should be unit length.
    pub fn plane(&mut self, plane: Vec4Bits) -> (r: NodeId)
        requires
            graph_wf(old(self)@),
            old(self)@.len() < u32::MAX,
        ensures
            final(self)@ == old(self)@.push(Node::Plane(plane)),
            graph_wf(final(self)@),
            r == NodeId(old(self)@.len() as u32),
    {
        self.create_node(Node::Plane(plane))
    }

    /// A ball around `center`.
    pub fn sphere(&mut self, center: Vec3Bits, radius: u32) -> (r: NodeId)
        requires
            graph_wf(old(self)@),
            old(self)@.len() < u32::MAX,
        ensures
            final(self)@ == old(self)@.push(Node::Sphere { center, radius }),
            graph_wf(final(self)@),
            r == NodeId(old(self)@.len() as u32),
    {
        self.create_node(Node::Sphere { center, radius })
    }

    /// A box with its edges and corners rounded off.
    pub fn rounded_box(&mut self, half_size: Vec3Bits, rounding_radius: u32) -> (r: NodeId)
        requires
            graph_wf(old(self)@),
            old(self)@.len() < u32::MAX,
        ensures
            final(self)@ == old(self)@.push(Node::RoundedBox { half_size, rounding_radius }),
            graph_wf(final(self)@),
            r == NodeId(old(self)@.len() as u32),
    {
        self.create_node(Node::RoundedBox { half_size, rounding_radius })
    }

    /// A ring centered at the origin, lying in the XZ plane.
    pub fn torus(&mut self, big_r: u32, small_r: u32) -> (r: NodeId)
        requires
            graph_wf(old(self)@),
            old(self)@.len() < u32::MAX,
        ensures
            final(self)@ == old(self)@.push(Node::Torus { big_r, small_r }),
            graph_wf(final(self)@),
            r == NodeId(old(self)@.len() as u32),
    {
        self.create_node(Node::Torus { big_r, small_r })
    }

    /// Part of a ring, the missing piece toward negative Z. Takes the sine
    /// and cosine of the half-angle (a half-angle of pi is the full torus).
    pub fn torus_sector(&mut self, big_r: u32, small_r: u32, sin_half_angle: u32, cos_half_angle: u32) -> (r:
        NodeId)
        requires
            graph_wf(old(self)@),
            old(self)@.len() < u32::MAX,
        ensures
            final(self)@ == old(self)@.push(
                Node::TorusSector { big_r, small_r, sin_half_angle, cos_half_angle },
            ),
            graph_wf(final(self)@),
            r == NodeId(old(self)@.len() as u32),
    {
        self.create_node(Node::TorusSector { big_r, small_r, sin_half_angle, cos_half_angle })
    }

    /// A biconvex lens: two spherical caps over a shared chord. Each sagitta
    /// is clamped into `[1e-3, chord/2]` to avoid rendering artifacts, so the
    /// chord must make that a real interval.
    pub fn biconvex_lens(&mut self, lower_sagitta: u32, upper_sagitta: u32, chord: u32) -> (r:
        NodeId)
        requires
            graph_wf(old(self)@),
            old(self)@.len() < u32::MAX,
            f32_le_bits(MIN_SAGITTA_BITS, half_bits(chord)),
        ensures
            final(self)@ == old(self)@.push(
                Node::BiconvexLens {
                    lower_sagitta: clamped_bits(lower_sagitta, MIN_SAGITTA_BITS, half_bits(chord)),
                    upper_sagitta: clamped_bits(upper_sagitta, MIN_SAGITTA_BITS, half_bits(chord)),
                    chord,
                },
            ),
            graph_wf(final(self)@),
            r == NodeId(old(self)@.len() as u32),
    {
        proof {
            assert((MIN_SAGITTA_BITS & EXP_MASK) != EXP_MASK) by (bit_vector);
        }
        let min_sagitta: u32 = MIN_SAGITTA_BITS;
        let max_sagitta: u32 = f32_half(chord);
        let upper_sagitta: u32 = f32_clamp(upper_sagitta, min_sagitta, max_sagitta);
        let lower_sagitta: u32 = f32_clamp(lower_sagitta, min_sagitta, max_sagitta);
        self.create_node(Node::BiconvexLens { lower_sagitta, upper_sagitta, chord })
    }

    /// The points within `radius` of the segment between the two endpoints.
    pub fn capsule(&mut self, points: [Vec3Bits; 2], radius: u32) -> (r: NodeId)
        requires
            graph_wf(old(self)@),
            old(self)@.len() < u32::MAX,
        ensures
            final(self)@ == old(self)@.push(Node::Capsule { points, radius }),
            graph_wf(final(self)@),
            r == NodeId(old(self)@.len() as u32),
    {
        self.create_node(Node::Capsule { points, radius })
    }

    /// A capsule from the origin along the positive Y axis.
    pub fn capsule_y(&mut self, length: u32, radius: u32) -> (r: NodeId)
        requires
            graph_wf(old(self)@),
            old(self)@.len() < u32::MAX,
        ensures
            final(self)@ == old(self)@.push(
                Node::Capsule {
                    points: [
                        Vec3Bits { x: 0u32, y: 0u32, z: 0u32 },
                        Vec3Bits { x: 0u32, y: length, z: 0u32 },
                    ],
                    radius,
                },
            ),
            graph_wf(final(self)@),
            r == NodeId(old(self)@.len() as u32),
    {
        self.create_node(
            Node::Capsule {
                points: [Vec3Bits::zero(), Vec3Bits { x: 0, y: length, z: 0 }],
                radius,
            },
        )
    }

    /// A Y-axis cylinder with its edges rounded off.
    pub fn rounded_cylinder(
        &mut self,
        cylinder_radius: u32,
        half_height: u32,
        rounding_radius: u32,
    ) -> (r: NodeId)
        requires
            graph_wf(old(self)@),
            old(self)@.len() < u32::MAX,
        ensures
            final(self)@ == old(self)@.push(
                Node::RoundedCylinder { cylinder_radius, half_height, rounding_radius },
            ),
            graph_wf(final(self)@),
            r == NodeId(old(self)@.len() as u32),
    {
        self.create_node(Node::RoundedCylinder { cylinder_radius, half_height, rounding_radius })
    }

    /// The convex hull of two balls, stored as given. The canonicalising
    /// constructor, which turns the degenerate case of one ball containing
    /// the other into a plain sphere, needs a floating-point length and so
    /// stands with the float callers; they hand this method the
    /// already-canonical shape.
    pub fn tapered_capsule(&mut self, points: [Vec3Bits; 2], radii: [u32; 2]) -> (r: NodeId)
        requires
            graph_wf(old(self)@),
            old(self)@.len() < u32::MAX,
        ensures
            final(self)@ == old(self)@.push(Node::TaperedCapsule { points, radii }),
            graph_wf(final(self)@),
            r == NodeId(old(self)@.len() as u32),
    {
        self.create_node(Node::TaperedCapsule { points, radii })
    }

    /// Base center at the origin, apex `height` up the positive Y axis.
    pub fn cone(&mut self, radius: u32, height: u32) -> (r: NodeId)
        requires
            graph_wf(old(self)@),
            old(self)@.len() < u32::MAX,
        ensures
            final(self)@ == old(self)@.push(Node::Cone { radius, height }),
            graph_wf(final(self)@),
            r == NodeId(old(self)@.len() as u32),
    {
        self.create_node(Node::Cone { radius, height })
    }

    /// Sets the material of the whole subtree below `child`.
    pub fn op_material(&mut self, child: NodeId, material: Material) -> (r: NodeId)
        requires
            graph_wf(old(self)@),
            child.0 < old(self)@.len(),
            old(self)@.len() < u32::MAX,
        ensures
            final(self)@ == old(self)@.push(Node::Material { child, material }),
            graph_wf(final(self)@),
            r == NodeId(old(self)@.len() as u32),
    {
        self.create_node(Node::Material { child, material })
    }

    /// Sets the color of the whole subtree below `child`.
    pub fn op_rgb(&mut self, child: NodeId, rgb: Vec3Bits) -> (r: NodeId)
        requires
            graph_wf(old(self)@),
            child.0 < old(self)@.len(),
            old(self)@.len() < u32::MAX,
        ensures
            final(self)@ == old(self)@.push(
                Node::Material { child, material: Material { rgb } },
            ),
            graph_wf(final(self)@),
            r == NodeId(old(self)@.len() as u32),
    {
        self.op_material(child, Material::new(rgb))
    }

    /// The union of two shapes.
    pub fn op_union(&mut self, lhs: NodeId, rhs: NodeId) -> (r: NodeId)
        requires
            graph_wf(old(self)@),
            lhs.0 < old(self)@.len(),
            rhs.0 < old(self)@.len(),
            old(self)@.len() < u32::MAX,
        ensures
            final(self)@ == old(self)@.push(Node::Union { lhs, rhs }),
            graph_wf(final(self)@),
            r == NodeId(old(self)@.len() as u32),
    {
        self.create_node(Node::Union { lhs, rhs })
    }

    /// The union of two shapes, blended over the given size.
    pub fn op_union_smooth(&mut self, lhs: NodeId, rhs: NodeId, size: u32) -> (r: NodeId)
        requires
            graph_wf(old(self)@),
            lhs.0 < old(self)@.len(),
            rhs.0 < old(self)@.len(),
            old(self)@.len() < u32::MAX,
        ensures
            final(self)@ == old(self)@.push(Node::UnionSmooth { lhs, rhs, size }),
            graph_wf(final(self)@),
            r == NodeId(old(self)@.len() as u32),
    {
        self.create_node(Node::UnionSmooth { lhs, rhs, size })
    }

    /// The union of any number of shapes.
    pub fn op_union_multi(&mut self, children: Vec<NodeId>) -> (r: NodeId)
        requires
            graph_wf(old(self)@),
            forall|i: int|
                0 <= i < children@.len() ==> (#[trigger] children@[i]).0 < old(self)@.len(),
            old(self)@.len() < u32::MAX,
        ensures
            final(self)@ == old(self)@.push(Node::UnionMulti { children: children }),
            graph_wf(final(self)@),
            r == NodeId(old(self)@.len() as u32),
    {
        self.create_node(Node::UnionMulti { children })
    }

    /// The union of any number of shapes, blended over the given size.
    pub fn op_union_multi_smooth(&mut self, children: Vec<NodeId>, size: u32) -> (r: NodeId)
        requires
            graph_wf(old(self)@),
            forall|i: int|
                0 <= i < children@.len() ==> (#[trigger] children@[i]).0 < old(self)@.len(),
            old(self)@.len() < u32::MAX,
        ensures
            final(self)@ == old(self)@.push(
                Node::UnionMultiSmooth { children: children, size },
            ),
            graph_wf(final(self)@),
            r == NodeId(old(self)@.len() as u32),
    {
        self.create_node(Node::UnionMultiSmooth { children, size })
    }

    /// The first shape with the second removed.
    pub fn op_subtract(&mut self, lhs: NodeId, rhs: NodeId) -> (r: NodeId)
        requires
            graph_wf(old(self)@),
            lhs.0 < old(self)@.len(),
            rhs.0 < old(self)@.len(),
            old(self)@.len() < u32::MAX,
        ensures
            final(self)@ == old(self)@.push(Node::Subtract { lhs, rhs }),
            graph_wf(final(self)@),
            r == NodeId(old(self)@.len() as u32),
    {
        self.create_node(Node::Subtract { lhs, rhs })
    }

    /// The first shape with the second removed, blended over the given size.
    pub fn op_subtract_smooth(&mut self, lhs: NodeId, rhs: NodeId, size: u32) -> (r: NodeId)
        requires
            graph_wf(old(self)@),
            lhs.0 < old(self)@.len(),
            rhs.0 < old(self)@.len(),
            old(self)@.len() < u32::MAX,
        ensures
            final(self)@ == old(self)@.push(Node::SubtractSmooth { lhs, rhs, size }),
            graph_wf(final(self)@),
            r == NodeId(old(self)@.len() as u32),
    {
        self.create_node(Node::SubtractSmooth { lhs, rhs, size })
    }

    /// The overlap of two shapes.
    pub fn op_intersect(&mut self, lhs: NodeId, rhs: NodeId) -> (r: NodeId)
        requires
            graph_wf(old(self)@),
            lhs.0 < old(self)@.len(),
            rhs.0 < old(self)@.len(),
            old(self)@.len() < u32::MAX,
        ensures
            final(self)@ == old(self)@.push(Node::Intersect { lhs, rhs }),
            graph_wf(final(self)@),
            r == NodeId(old(self)@.len() as u32),
    {
        self.create_node(Node::Intersect { lhs, rhs })
    }

    /// The overlap of two shapes, blended over the given size.
    pub fn op_intersect_smooth(&mut self, lhs: NodeId, rhs: NodeId, size: u32) -> (r: NodeId)
        requires
            graph_wf(old(self)@),
            lhs.0 < old(self)@.len(),
            rhs.0 < old(self)@.len(),
            old(self)@.len() < u32::MAX,
        ensures
            final(self)@ == old(self)@.push(Node::IntersectSmooth { lhs, rhs, size }),
            graph_wf(final(self)@),
            r == NodeId(old(self)@.len() as u32),
    {
        self.create_node(Node::IntersectSmooth { lhs, rhs, size })
    }

    /// The sharp combinator chosen by `op`.
    pub fn op_csg(&mut self, lhs: NodeId, op: CsgOp, rhs: NodeId) -> (r: NodeId)
        requires
            graph_wf(old(self)@),
            lhs.0 < old(self)@.len(),
            rhs.0 < old(self)@.len(),
            old(self)@.len() < u32::MAX,
        ensures
            final(self)@ == old(self)@.push(
                match op {
                    CsgOp::Union => Node::Union { lhs, rhs },
                    CsgOp::Subtract => Node::Subtract { lhs, rhs },
                    CsgOp::Intersect => Node::Intersect { lhs, rhs },
                },
            ),
            graph_wf(final(self)@),
            r == NodeId(old(self)@.len() as u32),
    {
        match op {
            CsgOp::Union => self.create_node(Node::Union { lhs, rhs }),
            CsgOp::Subtract => self.create_node(Node::Subtract { lhs, rhs }),
            CsgOp::Intersect => self.create_node(Node::Intersect { lhs, rhs }),
        }
    }

    /// The smooth combinator chosen by `op`, blended over the given size.
    pub fn op_csg_smooth(&mut self, lhs: NodeId, op: CsgOp, rhs: NodeId, size: u32) -> (r: NodeId)
        requires
            graph_wf(old(self)@),
            lhs.0 < old(self)@.len(),
            rhs.0 < old(self)@.len(),
            old(self)@.len() < u32::MAX,
        ensures
            final(self)@ == old(self)@.push(
                match op {
                    CsgOp::Union => Node::UnionSmooth { lhs, rhs, size },
                    CsgOp::Subtract => Node::SubtractSmooth { lhs, rhs, size },
                    CsgOp::Intersect => Node::IntersectSmooth { lhs, rhs, size },
                },
            ),
            graph_wf(final(self)@),
            r == NodeId(old(self)@.len() as u32),
    {
        match op {
            CsgOp::Union => self.create_node(Node::UnionSmooth { lhs, rhs, size }),
            CsgOp::Subtract => self.create_node(Node::SubtractSmooth { lhs, rhs, size }),
            CsgOp::Intersect => self.create_node(Node::IntersectSmooth { lhs, rhs, size }),
        }
    }

    /// Rotates the child shape by the given unit quaternion.
    pub fn op_rotate(&mut self, child: NodeId, rotation: QuatBits) -> (r: NodeId)
        requires
            graph_wf(old(self)@),
            child.0 < old(self)@.len(),
            old(self)@.len() < u32::MAX,
        ensures
            final(self)@ == old(self)@.push(Node::Rotate { rotation, child }),
            graph_wf(final(self)@),
            r == NodeId(old(self)@.len() as u32),
    {
        self.create_node(Node::Rotate { rotation, child })
    }

    /// Translates the child shape.
    pub fn op_translate(&mut self, child: NodeId, translation: Vec3Bits) -> (r: NodeId)
        requires
            graph_wf(old(self)@),
            child.0 < old(self)@.len(),
            old(self)@.len() < u32::MAX,
        ensures
            final(self)@ == old(self)@.push(Node::Translate { translation, child }),
            graph_wf(final(self)@),
            r == NodeId(old(self)@.len() as u32),
    {
        self.create_node(Node::Translate { translation, child })
    }

    /// Scales the child shape uniformly; negative scales are unsupported.
    pub fn op_scale(&mut self, child: NodeId, scale: u32) -> (r: NodeId)
        requires
            graph_wf(old(self)@),
            child.0 < old(self)@.len(),
            old(self)@.len() < u32::MAX,
        ensures
            final(self)@ == old(self)@.push(Node::Scale { scale, child }),
            graph_wf(final(self)@),
            r == NodeId(old(self)@.len() as u32),
    {
        self.create_node(Node::Scale { scale, child })
    }

    /// Rotates, then translates, the child shape.
    pub fn op_iso_transform(&mut self, node: NodeId, rotation: QuatBits, translation: Vec3Bits)
        -> (r: NodeId)
        requires
            graph_wf(old(self)@),
            node.0 < old(self)@.len(),
            old(self)@.len() + 2 <= u32::MAX,
        ensures
            final(self)@ == old(self)@.push(Node::Rotate { rotation, child: node }).push(
                Node::Translate {
                    translation,
                    child: NodeId(old(self)@.len() as u32),
                },
            ),
            graph_wf(final(self)@),
            r == NodeId((old(self)@.len() + 1) as u32),
    {
        let node = self.op_rotate(node, rotation);
        self.op_translate(node, translation)
    }

    /// Scales, rotates, then translates, the child shape.
    pub fn op_conformal3(
        &mut self,
        node: NodeId,
        scale: u32,
        rotation: QuatBits,
        translation: Vec3Bits,
    ) -> (r: NodeId)
        requires
            graph_wf(old(self)@),
            node.0 < old(self)@.len(),
            old(self)@.len() + 3 <= u32::MAX,
        ensures
            final(self)@ == old(self)@.push(Node::Scale { scale, child: node }).push(
                Node::Rotate { rotation, child: NodeId(old(self)@.len() as u32) },
            ).push(
                Node::Translate {
                    translation,
                    child: NodeId((old(self)@.len() + 1) as u32),
                },
            ),
            graph_wf(final(self)@),
            r == NodeId((old(self)@.len() + 2) as u32),
    {
        let node = self.op_scale(node, scale);
        let node = self.op_rotate(node, rotation);
        self.op_translate(node, translation)
    }
}

} // verus!
