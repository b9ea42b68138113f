//! Signed distance field graphs, their stack-machine compilation, and the
//! GLSL code generator for the compiled form.
//!
//! Scalar quantities (coordinates, radii, smoothing sizes) are carried as the
//! 32-bit IEEE-754 bit patterns of the single-precision values they denote;
//! the numeric evaluation of the distance field is left to callers.

use vstd::prelude::*;

pub mod codegen;
pub mod compiler;
pub mod fbits;
pub mod glsl;
pub mod graph;
pub mod mesh;
pub mod opcode;
pub mod program;
pub mod roundtrip;

verus! {

/// How finely to sample a distance field before meshing, as the desired
/// grid points per axis. Each resolution is the bit pattern of the
/// single-precision value it denotes.
#[derive(Copy, Clone, PartialEq, Eq, Structural, Debug)]
pub struct MeshOptions {
    /// Desired mean resolution per axis; the grid holds close to its cube
    /// many points.
    pub mean_resolution: u32,
    /// Upper clamp on any single axis, for very elongated boxes.
    pub max_resolution: u32,
    /// Lower clamp on any single axis.
    pub min_resolution: u32,
}

impl MeshOptions {
    /// A cheap preset: mean 32, clamped into [8, 64].
    pub fn low() -> (r: MeshOptions)
        ensures
            r == (MeshOptions {
                mean_resolution: 0x4200_0000u32,
                max_resolution: 0x4280_0000u32,
                min_resolution: 0x4100_0000u32,
            }),
    {
        MeshOptions {
            mean_resolution: 0x4200_0000,
            max_resolution: 0x4280_0000,
            min_resolution: 0x4100_0000,
        }
    }
}

impl Default for MeshOptions {
    /// The default: mean 64, clamped into [8, 128].
    fn default() -> (r: MeshOptions)
        ensures
            r == (MeshOptions {
                mean_resolution: 0x4280_0000u32,
                max_resolution: 0x4300_0000u32,
                min_resolution: 0x4100_0000u32,
            }),
    {
        MeshOptions {
            mean_resolution: 0x4280_0000,
            max_resolution: 0x4300_0000,
            min_resolution: 0x4100_0000,
        }
    }
}

} // verus!
