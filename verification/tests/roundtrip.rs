//! Compile/decompile round trips and the decompiler's error reporting.

use opensaft::compiler::{compile, decompile, BadProgramReason, Error};
use opensaft::graph::{Graph, Material, Node, QuatBits, Vec3Bits, Vec4Bits};
use opensaft::opcode::Opcode;
use opensaft::program::Program;

fn v3(x: f32, y: f32, z: f32) -> Vec3Bits {
    Vec3Bits::new(x.to_bits(), y.to_bits(), z.to_bits())
}

fn quat_y(angle: f32) -> QuatBits {
    let q = glam::Quat::from_rotation_y(angle);
    QuatBits { x: q.x.to_bits(), y: q.y.to_bits(), z: q.z.to_bits(), w: q.w.to_bits() }
}

#[test]
fn roundtrip() {
    let mut graph = Graph::default();
    let sphere1 = graph.sphere(v3(0.0, 0.0, 0.0), 1.0f32.to_bits());
    let rot_sphere1 = graph.op_rotate(sphere1, quat_y(1.0));
    let sphere2 = graph.sphere(v3(0.0, 0.0, 0.0), 5.0f32.to_bits());
    let trans_sphere2 = graph.op_translate(sphere2, v3(1.0, 1.0, 1.0));
    let box2 = graph.rounded_box(v3(1.0, 1.0, 1.0), 0.1f32.to_bits());
    let union = graph.op_union(rot_sphere1, trans_sphere2);
    let intersection = graph.op_intersect(union, box2);
    let scale = graph.op_scale(intersection, 1.5f32.to_bits());

    let root = graph.op_rgb(scale, v3(1.0, 0.5, 0.0));

    let program = compile(&graph, root);

    let (decomp_graph, decomp_root) = decompile(&program, program.constants.as_slice()).unwrap();

    // Graphs are not directly comparable, so compile again and compare the
    // output. The scale emits the forward scale at the pop, so the second
    // compilation matches exactly.
    let recomp_program = compile(&decomp_graph, decomp_root);

    assert!(program.opcodes == recomp_program.opcodes);
    assert!(program.constants == recomp_program.constants);
}

#[test]
fn roundtrip_all_node_kinds() {
    let mut sub = Graph::default();
    let sub_torus = sub.torus(1.0f32.to_bits(), 0.25f32.to_bits());
    let sub_root = sub.op_translate(sub_torus, v3(0.0, 2.0, 0.0));

    let mut graph = Graph::default();
    let plane = graph.plane(Vec4Bits {
        x: 0.0f32.to_bits(),
        y: 1.0f32.to_bits(),
        z: 0.0f32.to_bits(),
        w: 0.5f32.to_bits(),
    });
    let sphere = graph.sphere(v3(0.5, 0.0, 0.0), 1.0f32.to_bits());
    let capsule = graph.capsule([v3(0.0, 0.0, 0.0), v3(0.0, 2.0, 0.0)], 0.5f32.to_bits());
    // Coincident endpoints compile to a sphere and stay that way.
    let degenerate = graph.capsule([v3(1.0, 2.0, 3.0), v3(1.0, 2.0, 3.0)], 0.5f32.to_bits());
    let cylinder = graph.rounded_cylinder(
        1.0f32.to_bits(),
        0.5f32.to_bits(),
        0.125f32.to_bits(),
    );
    let tapered = graph.tapered_capsule(
        [v3(0.0, 0.0, 0.0), v3(0.0, 1.0, 0.0)],
        [0.5f32.to_bits(), 0.25f32.to_bits()],
    );
    let cone = graph.cone(1.0f32.to_bits(), 2.0f32.to_bits());
    let rbox = graph.rounded_box(v3(1.0, 0.5, 0.25), 0.125f32.to_bits());
    let half = std::f32::consts::FRAC_PI_2;
    let sector = graph.torus_sector(
        1.0f32.to_bits(),
        0.25f32.to_bits(),
        half.sin().to_bits(),
        half.cos().to_bits(),
    );
    let lens = graph.biconvex_lens(0.5f32.to_bits(), 0.3f32.to_bits(), 1.0f32.to_bits());
    let material = graph.op_material(sphere, Material::new(v3(0.3, 0.7, 0.3)));
    let u = graph.op_union(plane, capsule);
    // A negative smoothing size is clamped at compile time, and the clamp is
    // idempotent across the round trip.
    let us = graph.op_union_smooth(u, degenerate, (-1.0f32).to_bits());
    let s = graph.op_subtract(us, cylinder);
    let ss = graph.op_subtract_smooth(s, tapered, 0.2f32.to_bits());
    let i = graph.op_intersect(ss, cone);
    let is = graph.op_intersect_smooth(i, rbox, 0.0f32.to_bits());
    let multi = graph.op_union_multi(vec![is, sector, lens, material]);
    let multis = graph.op_union_multi_smooth(vec![multi, sphere], 0.45f32.to_bits());
    let translated = graph.op_translate(multis, v3(1.0, -2.0, 3.0));
    let rotated = graph.op_rotate(translated, quat_y(0.7));
    let scaled = graph.op_scale(rotated, 1.5f32.to_bits());
    let nested = graph.graph(sub, sub_root);
    let root = graph.op_union(scaled, nested);

    let program = compile(&graph, root);
    let (decomp_graph, decomp_root) = decompile(&program, program.constants.as_slice()).unwrap();
    let recomp_program = compile(&decomp_graph, decomp_root);

    assert_eq!(program.opcodes, recomp_program.opcodes);
    assert_eq!(program.constants, recomp_program.constants);
}

#[test]
fn decompile_reports_missing_constants() {
    let program = Program { opcodes: vec![Opcode::Sphere, Opcode::End], constants: vec![] };
    let result = decompile(&program, program.constants.as_slice());
    assert_eq!(result.unwrap_err(), Error::BadConstants);
}

#[test]
fn decompile_reports_stack_underflow() {
    let program = Program { opcodes: vec![Opcode::Union, Opcode::End], constants: vec![] };
    let result = decompile(&program, program.constants.as_slice());
    assert_eq!(result.unwrap_err(), Error::BadStack);
}

#[test]
fn decompile_reports_missing_end() {
    let program = Program {
        opcodes: vec![Opcode::Sphere],
        constants: vec![0, 0, 0, 1.0f32.to_bits()],
    };
    let result = decompile(&program, program.constants.as_slice());
    assert_eq!(result.unwrap_err(), Error::BadProgram(BadProgramReason::MissingEnd));
}

#[test]
fn decompile_reports_unused_constants() {
    let program = Program {
        opcodes: vec![Opcode::Sphere, Opcode::End],
        constants: vec![0, 0, 0, 1.0f32.to_bits(), 7],
    };
    let result = decompile(&program, program.constants.as_slice());
    assert_eq!(result.unwrap_err(), Error::BadProgram(BadProgramReason::UnusedConstants));
}

#[test]
fn decompile_reports_empty_program() {
    let program = Program { opcodes: vec![], constants: vec![] };
    let result = decompile(&program, program.constants.as_slice());
    assert_eq!(result.unwrap_err(), Error::BadStack);
}

#[test]
fn decompile_rebuilds_transform_nodes() {
    let mut graph = Graph::default();
    let sphere = graph.sphere(v3(1.0, 2.0, 3.0), 0.5f32.to_bits());
    let moved = graph.op_translate(sphere, v3(-1.5, 0.25, 4.0));
    let root = graph.op_scale(moved, 2.0f32.to_bits());

    let program = compile(&graph, root);
    let (decomp_graph, decomp_root) = decompile(&program, program.constants.as_slice()).unwrap();

    // The rebuilt root is the scale node, holding the forward scale.
    match decomp_graph.get(decomp_root).unwrap() {
        Node::Scale { scale, child } => {
            assert_eq!(*scale, 2.0f32.to_bits());
            match decomp_graph.get(*child).unwrap() {
                Node::Translate { translation, .. } => {
                    // The stored translation is the forward one, undoing the
                    // negation the compiler emitted.
                    assert_eq!(translation.x, (-1.5f32).to_bits());
                    assert_eq!(translation.y, 0.25f32.to_bits());
                    assert_eq!(translation.z, 4.0f32.to_bits());
                },
                other => panic!("expected a translate node, got {:?}", other),
            }
        },
        other => panic!("expected a scale node, got {:?}", other),
    }
}
