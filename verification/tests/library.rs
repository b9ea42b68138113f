//! The opcode table, the bit-level float helpers, the wire encoding of
//! compiled programs, serialization, hashing, and the GLSL writer.

use opensaft::codegen::{format_u64, CodeGen, CodeGenContext, OutputType};
use opensaft::compiler::{compile, decompile, ConstantEditor, Error};
use opensaft::compiler::BadProgramReason;
use opensaft::fbits::{
    f32_clamp, f32_clamp_smoothing, f32_eq, f32_half, f32_le, f32_lt, f32_neg, f32_recip,
};
use opensaft::glsl::{get_glsl_sdf_interpreter_code, get_glsl_sdf_library_code};
use opensaft::graph::{CsgOp, Graph, Node, NodeId, Vec3Bits};
use opensaft::mesh::TriangleMesh;
use opensaft::opcode::Opcode;
use opensaft::program::{constants_hash, opcodes_hash, Program};
use opensaft::MeshOptions;

fn v3(x: f32, y: f32, z: f32) -> Vec3Bits {
    Vec3Bits::new(x.to_bits(), y.to_bits(), z.to_bits())
}

#[test]
fn opcode_codes_are_stable() {
    let table: Vec<(Opcode, u32)> = vec![
        (Opcode::Plane, 0),
        (Opcode::Sphere, 1),
        (Opcode::Capsule, 2),
        (Opcode::TaperedCapsule, 3),
        (Opcode::Material, 4),
        (Opcode::Union, 5),
        (Opcode::UnionSmooth, 6),
        (Opcode::Subtract, 7),
        (Opcode::SubtractSmooth, 8),
        (Opcode::Intersect, 9),
        (Opcode::IntersectSmooth, 10),
        (Opcode::PushTranslation, 11),
        (Opcode::PushRotation, 12),
        (Opcode::PopTransform, 13),
        (Opcode::PushScale, 14),
        (Opcode::PopScale, 15),
        (Opcode::End, 16),
        (Opcode::RoundedBox, 17),
        (Opcode::BiconvexLens, 18),
        (Opcode::RoundedCylinder, 19),
        (Opcode::Torus, 20),
        (Opcode::TorusSector, 21),
        (Opcode::Cone, 22),
    ];
    for (op, code) in table {
        assert_eq!(op.to_u32(), code);
        assert_eq!(Opcode::from_u32(code), Some(op));
    }
    assert_eq!(Opcode::from_u32(23), None);
    assert_eq!(Opcode::from_u32(u32::MAX), None);
}

#[test]
fn opcode_constant_counts_match_wire_contract() {
    assert_eq!(Opcode::Plane.constant_count(), 4);
    assert_eq!(Opcode::Sphere.constant_count(), 4);
    assert_eq!(Opcode::Capsule.constant_count(), 7);
    assert_eq!(Opcode::TaperedCapsule.constant_count(), 8);
    assert_eq!(Opcode::RoundedCylinder.constant_count(), 3);
    assert_eq!(Opcode::Cone.constant_count(), 2);
    assert_eq!(Opcode::RoundedBox.constant_count(), 4);
    assert_eq!(Opcode::Torus.constant_count(), 2);
    assert_eq!(Opcode::TorusSector.constant_count(), 4);
    assert_eq!(Opcode::BiconvexLens.constant_count(), 3);
    assert_eq!(Opcode::Material.constant_count(), 3);
    assert_eq!(Opcode::Union.constant_count(), 0);
    assert_eq!(Opcode::UnionSmooth.constant_count(), 1);
    assert_eq!(Opcode::PushTranslation.constant_count(), 3);
    assert_eq!(Opcode::PushRotation.constant_count(), 4);
    assert_eq!(Opcode::PopTransform.constant_count(), 0);
    assert_eq!(Opcode::PushScale.constant_count(), 1);
    assert_eq!(Opcode::PopScale.constant_count(), 1);
    assert_eq!(Opcode::End.constant_count(), 0);
}

#[test]
fn float_comparisons_match_ieee() {
    let values: Vec<f32> = vec![
        0.0, -0.0, 1.0, -1.0, 0.5, 1.5, 1e-4, 1e-3, 1e30, -1e30, f32::INFINITY,
        f32::NEG_INFINITY, f32::NAN, f32::MIN_POSITIVE, 1e-40, -1e-40,
    ];
    for &a in &values {
        for &b in &values {
            assert_eq!(f32_eq(a.to_bits(), b.to_bits()), a == b, "eq {a} {b}");
            assert_eq!(f32_lt(a.to_bits(), b.to_bits()), a < b, "lt {a} {b}");
            assert_eq!(f32_le(a.to_bits(), b.to_bits()), a <= b, "le {a} {b}");
        }
        assert_eq!(f32_neg(a.to_bits()), (-a).to_bits(), "neg {a}");
    }
}

#[test]
fn smoothing_clamp_matches_float_max() {
    let values: Vec<f32> = vec![
        0.0, -0.0, -1.0, 1.0, 1e-4, 9e-5, 2e-4, 1e-3, 0.45, f32::INFINITY, f32::NEG_INFINITY,
        1e-40,
    ];
    for &a in &values {
        assert_eq!(
            f32_clamp_smoothing(a.to_bits()),
            a.max(1e-4).to_bits(),
            "clamp smoothing {a}"
        );
    }
    // NaN falls to the floor, as float max does.
    assert_eq!(f32_clamp_smoothing(f32::NAN.to_bits()), 1e-4f32.to_bits());
}

#[test]
fn halving_matches_float_division() {
    let mut values: Vec<f32> = vec![
        0.0, -0.0, 1.0, -1.0, 3.0, 1e-3, 2e-3, f32::MIN_POSITIVE, 1e-40, -1e-44, f32::MAX,
        f32::INFINITY, f32::NEG_INFINITY,
    ];
    let mut x: u32 = 1;
    for _ in 0..1000 {
        // A small linear congruential walk over assorted bit patterns.
        x = x.wrapping_mul(1664525).wrapping_add(1013904223);
        values.push(f32::from_bits(x));
    }
    for &a in &values {
        if a.is_nan() {
            continue;
        }
        assert_eq!(f32_half(a.to_bits()), (a / 2.0).to_bits(), "half {a} ({:#x})", a.to_bits());
    }
}

#[test]
fn reciprocal_matches_float_division() {
    let mut values: Vec<f32> = vec![
        1.0, -1.0, 2.0, 3.0, 1.5, 0.1, 10.0, 1e-3, 1e30, -1e30, f32::MIN_POSITIVE, 1e-40,
        -1e-44, f32::MAX, f32::MIN, 1e38, 3.0e-39, 8.5e37,
    ];
    let mut x: u32 = 7;
    for _ in 0..5000 {
        x = x.wrapping_mul(22695477).wrapping_add(1);
        values.push(f32::from_bits(x));
    }
    for &a in &values {
        if a.is_nan() {
            continue;
        }
        assert_eq!(
            f32_recip(a.to_bits()),
            (1.0 / a).to_bits(),
            "recip of {a} ({:#x})",
            a.to_bits()
        );
    }
    // Zeros give infinities of the same sign; infinities give zeros.
    assert_eq!(f32_recip(0.0f32.to_bits()), f32::INFINITY.to_bits());
    assert_eq!(f32_recip((-0.0f32).to_bits()), f32::NEG_INFINITY.to_bits());
    assert_eq!(f32_recip(f32::INFINITY.to_bits()), 0.0f32.to_bits());
    assert_eq!(f32_recip(f32::NEG_INFINITY.to_bits()), (-0.0f32).to_bits());
    // NaN gives the canonical quiet NaN.
    assert_eq!(f32_recip(f32::NAN.to_bits()) & 0x7FFF_FFFF, 0x7FC0_0000);
}

#[test]
fn clamp_matches_float_clamp() {
    let lo = 1e-3f32;
    let hi = 0.5f32;
    let values: Vec<f32> = vec![0.0, -1.0, 1e-4, 1e-3, 0.25, 0.5, 0.75, 2.0, f32::INFINITY];
    for &a in &values {
        assert_eq!(
            f32_clamp(a.to_bits(), lo.to_bits(), hi.to_bits()),
            a.clamp(lo, hi).to_bits(),
            "clamp {a}"
        );
    }
}

#[test]
fn sphere_compiles_to_expected_wire_form() {
    let mut graph = Graph::default();
    let root = graph.sphere(v3(1.0, 2.0, 3.0), 0.5f32.to_bits());
    let program = compile(&graph, root);
    assert_eq!(program.opcodes, vec![Opcode::Sphere, Opcode::End]);
    assert_eq!(
        program.constants,
        vec![1.0f32.to_bits(), 2.0f32.to_bits(), 3.0f32.to_bits(), 0.5f32.to_bits()]
    );
}

#[test]
fn translated_sphere_program_evaluates_analytically() {
    let mut graph = Graph::default();
    let sphere = graph.sphere(v3(0.0, 0.0, 0.0), 1.0f32.to_bits());
    let root = graph.op_translate(sphere, v3(0.25, -0.5, 2.0));
    let program = compile(&graph, root);
    assert_eq!(
        program.opcodes,
        vec![Opcode::PushTranslation, Opcode::Sphere, Opcode::PopTransform, Opcode::End]
    );
    // Interpret the program by hand at a few points: the stored constants
    // are the negated translation, then the sphere's center and radius.
    let t = glam::Vec3::new(
        f32::from_bits(program.constants[0]),
        f32::from_bits(program.constants[1]),
        f32::from_bits(program.constants[2]),
    );
    let center = glam::Vec3::new(
        f32::from_bits(program.constants[3]),
        f32::from_bits(program.constants[4]),
        f32::from_bits(program.constants[5]),
    );
    let radius = f32::from_bits(program.constants[6]);
    for p in [
        glam::Vec3::new(0.0, 0.0, 0.0),
        glam::Vec3::new(1.0, 1.0, 1.0),
        glam::Vec3::new(0.25, -0.5, 2.0),
        glam::Vec3::new(-3.0, 0.5, 0.25),
    ] {
        let local = p + t;
        let sd = (local - center).length() - radius;
        let expected = (p - glam::Vec3::new(0.25, -0.5, 2.0)).length() - 1.0;
        assert!((sd - expected).abs() < 1e-5, "at {p}: {sd} vs {expected}");
    }
}

#[test]
fn multi_union_lowers_to_binary_chain() {
    let mut graph = Graph::default();
    let a = graph.sphere(v3(0.0, 0.0, 0.0), 1.0f32.to_bits());
    let b = graph.sphere(v3(1.0, 0.0, 0.0), 1.0f32.to_bits());
    let c = graph.sphere(v3(2.0, 0.0, 0.0), 1.0f32.to_bits());
    let root = graph.op_union_multi(vec![a, b, c]);
    let program = compile(&graph, root);
    assert_eq!(
        program.opcodes,
        vec![
            Opcode::Sphere,
            Opcode::Sphere,
            Opcode::Union,
            Opcode::Sphere,
            Opcode::Union,
            Opcode::End,
        ]
    );
}

#[test]
fn smoothing_sizes_are_clamped_at_compile_time() {
    let mut graph = Graph::default();
    let a = graph.sphere(v3(0.0, 0.0, 0.0), 1.0f32.to_bits());
    let b = graph.sphere(v3(1.0, 0.0, 0.0), 1.0f32.to_bits());
    let root = graph.op_union_smooth(a, b, 0.0f32.to_bits());
    let program = compile(&graph, root);
    assert_eq!(*program.constants.last().unwrap(), 1e-4f32.to_bits());
}

#[test]
fn csg_helpers_pick_the_matching_node() {
    let mut graph = Graph::default();
    let a = graph.sphere(v3(0.0, 0.0, 0.0), 1.0f32.to_bits());
    let b = graph.sphere(v3(1.0, 0.0, 0.0), 1.0f32.to_bits());
    let u = graph.op_csg(a, CsgOp::Union, b);
    let s = graph.op_csg_smooth(a, CsgOp::Subtract, b, 0.2f32.to_bits());
    assert!(matches!(graph.get(u), Some(Node::Union { .. })));
    assert!(matches!(graph.get(s), Some(Node::SubtractSmooth { .. })));
    assert!(graph.get(NodeId(100)).is_none());
    assert_eq!(graph.nodes().len(), 4);
}

#[test]
fn capsule_y_runs_up_the_y_axis() {
    let mut graph = Graph::default();
    let id = graph.capsule_y(2.0f32.to_bits(), 0.5f32.to_bits());
    match graph.get(id).unwrap() {
        Node::Capsule { points, radius } => {
            assert_eq!(points[0], v3(0.0, 0.0, 0.0));
            assert_eq!(points[1], Vec3Bits::new(0, 2.0f32.to_bits(), 0));
            assert_eq!(*radius, 0.5f32.to_bits());
        },
        other => panic!("expected a capsule, got {:?}", other),
    }
}

#[test]
fn program_raw_form_round_trips() {
    let mut graph = Graph::default();
    let a = graph.sphere(v3(0.0, 0.0, 0.0), 1.0f32.to_bits());
    let b = graph.torus(1.0f32.to_bits(), 0.25f32.to_bits());
    let root = graph.op_subtract(a, b);
    let program = compile(&graph, root);

    let (codes, consts) = program.as_raw();
    assert_eq!(codes, vec![1, 20, 7, 16]);
    let back = Program::from_raw(codes.as_slice(), consts.as_slice()).unwrap();
    assert_eq!(back, program);

    let bad = Program::from_raw(&[1, 99], &[]);
    assert_eq!(bad.unwrap_err(), Error::BadProgram(BadProgramReason::UnknownOpcode));
}

#[test]
fn program_bytes_round_trip() {
    let mut graph = Graph::default();
    let a = graph.sphere(v3(1.0, 2.0, 3.0), 0.5f32.to_bits());
    let b = graph.cone(1.0f32.to_bits(), 2.0f32.to_bits());
    let root = graph.op_union(a, b);
    let program = compile(&graph, root);

    let bytes = program.as_bytes();
    // 8-byte constant count, four bytes per constant, 8-byte opcode count,
    // four bytes per opcode.
    assert_eq!(bytes.len(), 8 + 4 * program.constants.len() + 8 + 4 * program.opcodes.len());
    assert_eq!(bytes[0] as usize, program.constants.len());
    let back = Program::from_bytes(bytes.as_slice()).unwrap();
    assert_eq!(back, program);

    let truncated = Program::from_bytes(&bytes.as_slice()[..bytes.len() - 1]);
    assert_eq!(truncated.unwrap_err(), Error::BadProgram(BadProgramReason::MalformedBytes));
    let mut trailing = bytes.clone();
    trailing.push(0);
    let trailing = Program::from_bytes(trailing.as_slice());
    assert_eq!(trailing.unwrap_err(), Error::BadProgram(BadProgramReason::MalformedBytes));
}

#[test]
fn hashes_are_reproducible_and_structural() {
    let mut graph = Graph::default();
    let a = graph.sphere(v3(0.0, 0.0, 0.0), 1.0f32.to_bits());
    let b = graph.torus(1.0f32.to_bits(), 0.25f32.to_bits());
    let root = graph.op_union(a, b);
    let program = compile(&graph, root);

    assert_eq!(program.constant_hash(), constants_hash(program.constants.as_slice()));
    assert_eq!(program.program_hash(), opcodes_hash(program.opcodes.as_slice()));
    assert_eq!(program.full_hash(), program.program_hash() ^ program.constant_hash());

    let rescaled = program.with_constants(vec![0; program.constants.len()]);
    assert_eq!(rescaled.program_hash(), program.program_hash());
    assert_eq!(rescaled.opcodes, program.opcodes);
}

#[test]
fn error_messages_name_the_failure() {
    assert_eq!(Error::BadConstants.message(), "Too few constants in program");
    assert_eq!(Error::BadStack.message(), "Unbalanced stack when interpreting program");
    assert_eq!(Error::EvaluatedToNaN.message(), "NaN encountered in distance field");
    assert_eq!(
        Error::BadProgram(BadProgramReason::MissingEnd).message(),
        "Invalid program: Missing End"
    );
}

#[test]
fn format_u64_writes_decimal() {
    assert_eq!(format_u64(0), "0");
    assert_eq!(format_u64(7), "7");
    assert_eq!(format_u64(10), "10");
    assert_eq!(format_u64(1234567890), "1234567890");
    assert_eq!(format_u64(u64::MAX), "18446744073709551615");
}

#[test]
fn codegen_writes_the_expected_glsl() {
    let mut graph = Graph::default();
    let root = graph.sphere(v3(0.0, 0.0, 0.0), 1.0f32.to_bits());
    let program = compile(&graph, root);
    let writer = CodeGen::glsl();
    let code = writer.to_code(&program, "scene", OutputType::DistanceOnly, false);
    let one = 1.0f32.to_bits();
    let expected = format!(
        "// !!! START OF GENERATED CODE !!!\n\
         \tconst uint scene_constants[4] = uint[](0,0,0,{one});\n\
         float scene_base(vec3 pos) {{\n\
         \tfloat sdf0 = sd_sphere(pos, vec3(uintBitsToFloat(scene_constants[scene_constants_offset + 0]), uintBitsToFloat(scene_constants[scene_constants_offset + 1]), uintBitsToFloat(scene_constants[scene_constants_offset + 2])), uintBitsToFloat(scene_constants[scene_constants_offset + 3]));\n\
         \treturn sdf0;\n\
         }}\n\
         float scene(vec3 pos) {{ return scene_base(pos); }}\n\
         vec3 scene_color(vec3 /*pos*/) {{ return vec3(1.0, 1.0, 1.0); }}\n\
         // !!! END OF GENERATED CODE !!!\n"
    );
    assert_eq!(code, expected);
    assert!(writer.get_library_code().contains("float sd_sphere"));
}

#[test]
fn codegen_context_tracks_cursors_and_stacks() {
    let mut ctx = CodeGenContext::new("pos", "field", true);
    let first = ctx.push_variable();
    assert_eq!(first, "sdf0");
    let access = ctx.uint32();
    assert_eq!(access, "field_constants[field_constants_offset + 0].x");
    let access = ctx.float32();
    assert_eq!(access, "uintBitsToFloat(field_constants[field_constants_offset + 0].y)");
    let (fresh, old) = ctx.push_transform();
    assert_eq!(fresh, "transform1");
    assert_eq!(old, "pos");
    assert_eq!(ctx.current_position(), "transform1");
    ctx.pop_transform();
    assert_eq!(ctx.current_position(), "pos");
    assert_eq!(ctx.pop_variable(), Some(String::from("sdf0")));
    assert_eq!(ctx.pop_variable(), None);
}

#[test]
fn glsl_sources_cover_every_primitive() {
    let library = get_glsl_sdf_library_code();
    for name in [
        "sd_plane", "sd_sphere", "sd_capsule", "sd_rounded_cylinder", "sd_tapered_capsule",
        "sd_cone", "sd_rounded_box", "sd_torus", "sd_torus_sector", "sd_biconvex_lens",
        "sd_op_union_smooth", "sdrgb_op_scale_distance", "mul_quat",
    ] {
        assert!(library.contains(name), "library lacks {name}");
    }
    let interpreter = get_glsl_sdf_interpreter_code();
    assert!(interpreter.contains("sdf_interpret"));
}

#[test]
fn mesh_well_formedness_checks_lengths_and_indices() {
    let mesh = TriangleMesh::default();
    assert!(mesh.is_well_formed());

    let zero = [0u32, 0u32, 0u32];
    let good = TriangleMesh {
        indices: vec![0, 1, 2],
        positions: vec![zero, zero, zero],
        normals: vec![zero, zero, zero],
        colors: vec![zero, zero, zero],
    };
    assert!(good.is_well_formed());

    let ragged = TriangleMesh {
        indices: vec![0, 1, 2],
        positions: vec![zero, zero, zero],
        normals: vec![zero],
        colors: vec![zero, zero, zero],
    };
    assert!(!ragged.is_well_formed());

    let out_of_range = TriangleMesh {
        indices: vec![0, 1, 3],
        positions: vec![zero, zero, zero],
        normals: vec![zero, zero, zero],
        colors: vec![zero, zero, zero],
    };
    assert!(!out_of_range.is_well_formed());

    let partial_triangle = TriangleMesh {
        indices: vec![0, 1],
        positions: vec![zero, zero, zero],
        normals: vec![zero, zero, zero],
        colors: vec![zero, zero, zero],
    };
    assert!(!partial_triangle.is_well_formed());
}

#[test]
fn mesh_options_presets_hold_the_documented_resolutions() {
    let default = MeshOptions::default();
    assert_eq!(default.mean_resolution, 64.0f32.to_bits());
    assert_eq!(default.max_resolution, 128.0f32.to_bits());
    assert_eq!(default.min_resolution, 8.0f32.to_bits());
    let low = MeshOptions::low();
    assert_eq!(low.mean_resolution, 32.0f32.to_bits());
    assert_eq!(low.max_resolution, 64.0f32.to_bits());
    assert_eq!(low.min_resolution, 8.0f32.to_bits());
}

#[test]
fn scale_emits_the_reciprocal_and_the_forward_scale() {
    let mut graph = Graph::default();
    let sphere = graph.sphere(v3(0.0, 0.0, 0.0), 1.0f32.to_bits());
    let root = graph.op_scale(sphere, 2.0f32.to_bits());
    let program = compile(&graph, root);
    assert_eq!(
        program.opcodes,
        vec![Opcode::PushScale, Opcode::Sphere, Opcode::PopScale, Opcode::End]
    );
    // The push carries 1/scale for the interpreter's world-to-local step,
    // the pop the forward scale that rescales the distance.
    assert_eq!(program.constants[0], 0.5f32.to_bits());
    assert_eq!(*program.constants.last().unwrap(), 2.0f32.to_bits());

    let odd = graph.op_scale(root, 3.0f32.to_bits());
    let program = compile(&graph, odd);
    assert_eq!(program.constants[0], (1.0f32 / 3.0).to_bits());
}

#[test]
fn nested_graphs_compile_in_place() {
    let mut sub = Graph::default();
    let sub_root = sub.sphere(v3(0.0, 7.0, 0.0), 1.0f32.to_bits());

    let mut graph = Graph::default();
    let a = graph.cone(1.0f32.to_bits(), 2.0f32.to_bits());
    let nested = graph.graph(sub, sub_root);
    let root = graph.op_union(a, nested);

    let program = compile(&graph, root);
    assert_eq!(
        program.opcodes,
        vec![Opcode::Cone, Opcode::Sphere, Opcode::Union, Opcode::End]
    );
}

#[test]
fn torus_sector_consumes_four_constants() {
    let mut graph = Graph::default();
    let half = 1.2f32;
    let root = graph.torus_sector(
        1.0f32.to_bits(),
        0.25f32.to_bits(),
        half.sin().to_bits(),
        half.cos().to_bits(),
    );
    let program = compile(&graph, root);
    assert_eq!(program.constants.len(), 4);
    let (decomp, decomp_root) = decompile(&program, program.constants.as_slice()).unwrap();
    match decomp.get(decomp_root).unwrap() {
        Node::TorusSector { sin_half_angle, cos_half_angle, .. } => {
            assert_eq!(*sin_half_angle, half.sin().to_bits());
            assert_eq!(*cos_half_angle, half.cos().to_bits());
        }
        other => panic!("expected a torus sector, got {:?}", other),
    }
}

#[test]
fn from_bytes_rejects_unknown_opcodes() {
    let program = Program { opcodes: vec![Opcode::End], constants: vec![] };
    let mut bytes = program.as_bytes();
    // Overwrite the single opcode word with a code nothing maps to.
    let n = bytes.len();
    bytes[n - 4] = 99;
    let result = Program::from_bytes(bytes.as_slice());
    assert_eq!(result.unwrap_err(), Error::BadProgram(BadProgramReason::UnknownOpcode));
}

#[test]
fn biconvex_lens_clamps_its_sagittas() {
    let mut graph = Graph::default();
    let id = graph.biconvex_lens(0.0f32.to_bits(), 5.0f32.to_bits(), 1.0f32.to_bits());
    match graph.get(id).unwrap() {
        Node::BiconvexLens { lower_sagitta, upper_sagitta, chord } => {
            // Clamped into [1e-3, chord/2].
            assert_eq!(*lower_sagitta, 1e-3f32.to_bits());
            assert_eq!(*upper_sagitta, 0.5f32.to_bits());
            assert_eq!(*chord, 1.0f32.to_bits());
        }
        other => panic!("expected a lens, got {:?}", other),
    }
}

#[test]
fn constant_editor_rewrites_in_consumption_order() {
    let mut graph = Graph::default();
    let root = graph.sphere(v3(1.0, 2.0, 3.0), 0.5f32.to_bits());
    let program = compile(&graph, root);

    // Move the sphere's center and double its radius, in place.
    let mut editor = ConstantEditor::new(program.constants.clone());
    assert!(!editor.at_end());
    editor
        .edit_vec3(|_center| Vec3Bits::new(4.0f32.to_bits(), 5.0f32.to_bits(), 6.0f32.to_bits()))
        .unwrap();
    editor
        .edit_f32(|radius| (f32::from_bits(radius) * 2.0).to_bits())
        .unwrap();
    assert!(editor.at_end());
    let edited = editor.finish();
    assert_eq!(
        edited,
        vec![4.0f32.to_bits(), 5.0f32.to_bits(), 6.0f32.to_bits(), 1.0f32.to_bits()]
    );

    // The rewritten pool still decompiles against the same opcodes.
    let moved = program.with_constants(edited);
    let (decomp, decomp_root) = decompile(&moved, moved.constants.as_slice()).unwrap();
    match decomp.get(decomp_root).unwrap() {
        Node::Sphere { center, radius } => {
            assert_eq!(*center, v3(4.0, 5.0, 6.0));
            assert_eq!(*radius, 1.0f32.to_bits());
        }
        other => panic!("expected a sphere, got {:?}", other),
    }
}

#[test]
fn constant_editor_skips_and_reports_exhaustion() {
    let mut editor = ConstantEditor::new(vec![1, 2, 3, 4]);
    editor.skip_f32();
    editor.skip_vec3();
    assert!(editor.at_end());
    assert_eq!(editor.edit_f32(|x| x).unwrap_err(), Error::BadConstants);
    assert_eq!(editor.edit_vec3(|v| v).unwrap_err(), Error::BadConstants);
    assert_eq!(editor.finish(), vec![1, 2, 3, 4]);
}

#[test]
fn from_bytes_accepts_every_serialized_program() {
    let mut graph = Graph::default();
    let a = graph.torus(1.0f32.to_bits(), 0.25f32.to_bits());
    let b = graph.sphere(v3(0.0, 1.0, 0.0), 0.5f32.to_bits());
    let root = graph.op_union_smooth(a, b, 0.2f32.to_bits());
    let program = compile(&graph, root);
    // Round trips for several programs, including the empty one.
    for p in [Program { opcodes: vec![], constants: vec![] }, program] {
        let bytes = p.as_bytes();
        assert_eq!(Program::from_bytes(bytes.as_slice()).unwrap(), p);
    }
}
