use vstd::prelude::*;

verus! {

/// One instruction of the linear stack-machine form of a signed distance
/// field. Each opcode consumes a fixed number of constants from the
/// constant pool (see [`constant_count`]) and pushes or pops values on the
/// evaluation stack.
#[derive(Copy, Clone, Eq, PartialEq, Structural, Debug, Hash)]
pub enum Opcode {
    // Primitives:
    Plane,
    Sphere,
    Capsule,
    TaperedCapsule,

    Material,

    // Combinators:
    Union,
    UnionSmooth,
    Subtract,
    SubtractSmooth,
    Intersect,
    IntersectSmooth,

    // Transforms:
    PushTranslation,
    PushRotation,
    PopTransform,
    PushScale,
    PopScale,

    End,

    RoundedBox,
    BiconvexLens,
    RoundedCylinder,
    Torus,
    TorusSector,
    Cone,
}

/// The stable numeric code of each opcode on the wire.
pub open spec fn opcode_code(op: Opcode) -> u32 {
    match op {
        Opcode::Plane => 0,
        Opcode::Sphere => 1,
        Opcode::Capsule => 2,
        Opcode::TaperedCapsule => 3,
        Opcode::Material => 4,
        Opcode::Union => 5,
        Opcode::UnionSmooth => 6,
        Opcode::Subtract => 7,
        Opcode::SubtractSmooth => 8,
        Opcode::Intersect => 9,
        Opcode::IntersectSmooth => 10,
        Opcode::PushTranslation => 11,
        Opcode::PushRotation => 12,
        Opcode::PopTransform => 13,
        Opcode::PushScale => 14,
        Opcode::PopScale => 15,
        Opcode::End => 16,
        Opcode::RoundedBox => 17,
        Opcode::BiconvexLens => 18,
        Opcode::RoundedCylinder => 19,
        Opcode::Torus => 20,
        Opcode::TorusSector => 21,
        Opcode::Cone => 22,
    }
}

/// How many entries of the constant pool the opcode consumes.
pub open spec fn opcode_constant_count(op: Opcode) -> nat {
    match op {
        Opcode::Plane => 4,
        Opcode::Sphere => 4,
        Opcode::Capsule => 7,
        Opcode::TaperedCapsule => 8,
        Opcode::Material => 3,
        Opcode::Union => 0,
        Opcode::UnionSmooth => 1,
        Opcode::Subtract => 0,
        Opcode::SubtractSmooth => 1,
        Opcode::Intersect => 0,
        Opcode::IntersectSmooth => 1,
        Opcode::PushTranslation => 3,
        Opcode::PushRotation => 4,
        Opcode::PopTransform => 0,
        Opcode::PushScale => 1,
        Opcode::PopScale => 1,
        Opcode::End => 0,
        Opcode::RoundedBox => 4,
        Opcode::BiconvexLens => 3,
        Opcode::RoundedCylinder => 3,
        Opcode::Torus => 2,
        Opcode::TorusSector => 4,
        Opcode::Cone => 2,
    }
}

impl Opcode {
    /// The stable numeric code of this opcode on the wire.
    pub fn to_u32(self) -> (r: u32)
        ensures
            r == opcode_code(self),
    {
        match self {
            Opcode::Plane => 0,
            Opcode::Sphere => 1,
            Opcode::Capsule => 2,
            Opcode::TaperedCapsule => 3,
            Opcode::Material => 4,
            Opcode::Union => 5,
            Opcode::UnionSmooth => 6,
            Opcode::Subtract => 7,
            Opcode::SubtractSmooth => 8,
            Opcode::Intersect => 9,
            Opcode::IntersectSmooth => 10,
            Opcode::PushTranslation => 11,
            Opcode::PushRotation => 12,
            Opcode::PopTransform => 13,
            Opcode::PushScale => 14,
            Opcode::PopScale => 15,
            Opcode::End => 16,
            Opcode::RoundedBox => 17,
            Opcode::BiconvexLens => 18,
            Opcode::RoundedCylinder => 19,
            Opcode::Torus => 20,
            Opcode::TorusSector => 21,
            Opcode::Cone => 22,
        }
    }

    /// Decodes a numeric opcode; `None` exactly on the codes that no opcode has.
    pub fn from_u32(code: u32) -> (r: Option<Opcode>)
        ensures
            match r {
                Some(op) => opcode_code(op) == code,
                None => forall|op: Opcode| opcode_code(op) != code,
            },
    {
        if code == 0 {
            Some(Opcode::Plane)
        } else if code == 1 {
            Some(Opcode::Sphere)
        } else if code == 2 {
            Some(Opcode::Capsule)
        } else if code == 3 {
            Some(Opcode::TaperedCapsule)
        } else if code == 4 {
            Some(Opcode::Material)
        } else if code == 5 {
            Some(Opcode::Union)
        } else if code == 6 {
            Some(Opcode::UnionSmooth)
        } else if code == 7 {
            Some(Opcode::Subtract)
        } else if code == 8 {
            Some(Opcode::SubtractSmooth)
        } else if code == 9 {
            Some(Opcode::Intersect)
        } else if code == 10 {
            Some(Opcode::IntersectSmooth)
        } else if code == 11 {
            Some(Opcode::PushTranslation)
        } else if code == 12 {
            Some(Opcode::PushRotation)
        } else if code == 13 {
            Some(Opcode::PopTransform)
        } else if code == 14 {
            Some(Opcode::PushScale)
        } else if code == 15 {
            Some(Opcode::PopScale)
        } else if code == 16 {
            Some(Opcode::End)
        } else if code == 17 {
            Some(Opcode::RoundedBox)
        } else if code == 18 {
            Some(Opcode::BiconvexLens)
        } else if code == 19 {
            Some(Opcode::RoundedCylinder)
        } else if code == 20 {
            Some(Opcode::Torus)
        } else if code == 21 {
            Some(Opcode::TorusSector)
        } else if code == 22 {
            Some(Opcode::Cone)
        } else {
            None
        }
    }

    /// How many entries of the constant pool this opcode consumes.
    pub fn constant_count(self) -> (r: usize)
        ensures
            r == opcode_constant_count(self),
    {
        match self {
            Opcode::Plane => 4,
            Opcode::Sphere => 4,
            Opcode::Capsule => 7,
            Opcode::TaperedCapsule => 8,
            Opcode::Material => 3,
            Opcode::Union => 0,
            Opcode::UnionSmooth => 1,
            Opcode::Subtract => 0,
            Opcode::SubtractSmooth => 1,
            Opcode::Intersect => 0,
            Opcode::IntersectSmooth => 1,
            Opcode::PushTranslation => 3,
            Opcode::PushRotation => 4,
            Opcode::PopTransform => 0,
            Opcode::PushScale => 1,
            Opcode::PopScale => 1,
            Opcode::End => 0,
            Opcode::RoundedBox => 4,
            Opcode::BiconvexLens => 3,
            Opcode::RoundedCylinder => 3,
            Opcode::Torus => 2,
            Opcode::TorusSector => 4,
            Opcode::Cone => 2,
        }
    }
}

} // verus!
