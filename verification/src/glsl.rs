//! The fixed GLSL sources that accompany generated code: the library of
//! analytic distance functions that [`crate::codegen`] emits calls into, and
//! a GLSL interpreter that walks a program's opcodes directly on the GPU.

use vstd::prelude::*;

verus! {

/// The GLSL library of signed distance functions, in a `float` (distance
/// only) and a `vec4` (RGB and distance) flavor, together with the transform
/// helpers the generated code uses.
pub const GLSL_SDF_LIBRARY_CODE: &'static str = "// Signed distance library: float = distance only, vec4 = (rgb, distance).
vec3 mul_quat(vec4 q, vec3 v) {
    return v + 2.0 * cross(q.xyz, cross(q.xyz, v) + q.w * v);
}
float sd_plane(vec3 p, vec4 plane) {
    return dot(p, plane.xyz) + plane.w;
}
float sd_sphere(vec3 p, vec3 center, float radius) {
    return length(p - center) - radius;
}
float sd_capsule(vec3 p, vec3 a, vec3 b, float r) {
    vec3 pa = p - a;
    vec3 ba = b - a;
    float h = clamp(dot(pa, ba) / dot(ba, ba), 0.0, 1.0);
    return length(pa - ba * h) - r;
}
float sd_rounded_cylinder(vec3 p, float cylinder_radius, float half_height, float rounding_radius) {
    vec2 d = vec2(length(p.xz) - cylinder_radius + rounding_radius, abs(p.y) - half_height + rounding_radius);
    return min(max(d.x, d.y), 0.0) + length(max(d, vec2(0.0))) - rounding_radius;
}
float sd_tapered_capsule(vec3 p, vec3 a, vec3 b, float r1, float r2) {
    vec3 ba = b - a;
    float l2 = dot(ba, ba);
    float rr = r1 - r2;
    float a2 = l2 - rr * rr;
    float il2 = 1.0 / l2;
    vec3 pa = p - a;
    float y = dot(pa, ba);
    float z = y - l2;
    vec3 xp = pa * l2 - ba * y;
    float x2 = dot(xp, xp);
    float y2 = y * y * l2;
    float z2 = z * z * l2;
    float k = sign(rr) * rr * rr * x2;
    if (sign(z) * a2 * z2 > k) {
        return sqrt(x2 + z2) * il2 - r2;
    } else if (sign(y) * a2 * y2 < k) {
        return sqrt(x2 + y2) * il2 - r1;
    } else {
        return (sqrt(x2 * a2 * il2) + y * rr) * il2 - r1;
    }
}
float sd_cone(vec3 p, float r, float h) {
    vec2 q = vec2(r, h);
    vec2 w = vec2(length(p.xz), h - p.y);
    vec2 a = w - q * clamp(dot(w, q) / dot(q, q), 0.0, 1.0);
    vec2 b = w - vec2(r * clamp(w.x / r, 0.0, 1.0), h);
    float d = min(dot(a, a), dot(b, b));
    float s = max(w.x * h - w.y * r, w.y - h);
    return sqrt(d) * sign(s);
}
float sd_rounded_box(vec3 p, vec3 half_size, float rounding_radius) {
    vec3 q = abs(p) - half_size + vec3(rounding_radius);
    return length(max(q, vec3(0.0))) + min(max(q.x, max(q.y, q.z)), 0.0) - rounding_radius;
}
float sd_torus(vec3 p, float big_r, float small_r) {
    vec2 q = vec2(length(p.xz) - big_r, p.y);
    return length(q) - small_r;
}
float sd_torus_sector(vec3 p, float big_r, float small_r, vec2 sin_cos_half_angle) {
    p.x = abs(p.x);
    float k = (sin_cos_half_angle.y * p.x > sin_cos_half_angle.x * p.z)
        ? dot(p.xz, sin_cos_half_angle)
        : length(p.xz);
    return sqrt(max(dot(p, p) + big_r * big_r - 2.0 * big_r * k, 0.0)) - small_r;
}
float sd_biconvex_lens(vec3 p, float lower_sagitta, float upper_sagitta, float chord) {
    float cr = chord * 0.5;
    float lower_radius = (cr * cr + lower_sagitta * lower_sagitta) / (2.0 * lower_sagitta);
    float upper_radius = (cr * cr + upper_sagitta * upper_sagitta) / (2.0 * upper_sagitta);
    float lower = sd_sphere(p, vec3(0.0, lower_radius - lower_sagitta, 0.0), lower_radius);
    float upper = sd_sphere(p, vec3(0.0, -(upper_radius - upper_sagitta), 0.0), upper_radius);
    return max(lower, upper);
}
float sd_material(float sd, vec3 rgb) {
    return sd;
}
float sd_op_union(float d1, float d2) {
    return min(d1, d2);
}
float sd_op_subtract(float d1, float d2) {
    return max(-d1, d2);
}
float sd_op_intersect(float d1, float d2) {
    return max(d1, d2);
}
float sd_op_union_smooth(float d1, float d2, float k) {
    float h = clamp(0.5 + 0.5 * (d2 - d1) / k, 0.0, 1.0);
    return mix(d2, d1, h) - k * h * (1.0 - h);
}
float sd_op_subtract_smooth(float d1, float d2, float k) {
    float h = clamp(0.5 - 0.5 * (d2 + d1) / k, 0.0, 1.0);
    return mix(d2, -d1, h) + k * h * (1.0 - h);
}
float sd_op_intersect_smooth(float d1, float d2, float k) {
    float h = clamp(0.5 - 0.5 * (d2 - d1) / k, 0.0, 1.0);
    return mix(d2, d1, h) + k * h * (1.0 - h);
}
float sd_op_scale_distance(float sd, float scale) {
    return sd * scale;
}
vec4 sdrgb_plane(vec3 p, vec4 plane) {
    return vec4(1.0, 1.0, 1.0, sd_plane(p, plane));
}
vec4 sdrgb_sphere(vec3 p, vec3 center, float radius) {
    return vec4(1.0, 1.0, 1.0, sd_sphere(p, center, radius));
}
vec4 sdrgb_capsule(vec3 p, vec3 a, vec3 b, float r) {
    return vec4(1.0, 1.0, 1.0, sd_capsule(p, a, b, r));
}
vec4 sdrgb_rounded_cylinder(vec3 p, float cylinder_radius, float half_height, float rounding_radius) {
    return vec4(1.0, 1.0, 1.0, sd_rounded_cylinder(p, cylinder_radius, half_height, rounding_radius));
}
vec4 sdrgb_tapered_capsule(vec3 p, vec3 a, vec3 b, float r1, float r2) {
    return vec4(1.0, 1.0, 1.0, sd_tapered_capsule(p, a, b, r1, r2));
}
vec4 sdrgb_cone(vec3 p, float r, float h) {
    return vec4(1.0, 1.0, 1.0, sd_cone(p, r, h));
}
vec4 sdrgb_rounded_box(vec3 p, vec3 half_size, float rounding_radius) {
    return vec4(1.0, 1.0, 1.0, sd_rounded_box(p, half_size, rounding_radius));
}
vec4 sdrgb_torus(vec3 p, float big_r, float small_r) {
    return vec4(1.0, 1.0, 1.0, sd_torus(p, big_r, small_r));
}
vec4 sdrgb_torus_sector(vec3 p, float big_r, float small_r, vec2 sin_cos_half_angle) {
    return vec4(1.0, 1.0, 1.0, sd_torus_sector(p, big_r, small_r, sin_cos_half_angle));
}
vec4 sdrgb_biconvex_lens(vec3 p, float lower_sagitta, float upper_sagitta, float chord) {
    return vec4(1.0, 1.0, 1.0, sd_biconvex_lens(p, lower_sagitta, upper_sagitta, chord));
}
vec4 sdrgb_material(vec4 sd, vec3 rgb) {
    return vec4(rgb, sd.w);
}
vec4 sdrgb_op_union(vec4 d1, vec4 d2) {
    return (d1.w < d2.w) ? d1 : d2;
}
vec4 sdrgb_op_subtract(vec4 d1, vec4 d2) {
    return (-d1.w > d2.w) ? vec4(d1.rgb, -d1.w) : d2;
}
vec4 sdrgb_op_intersect(vec4 d1, vec4 d2) {
    return (d1.w > d2.w) ? d1 : d2;
}
vec4 sdrgb_op_union_smooth(vec4 d1, vec4 d2, float k) {
    float h = clamp(0.5 + 0.5 * (d2.w - d1.w) / k, 0.0, 1.0);
    vec4 m = mix(d2, d1, h);
    return vec4(m.rgb, m.w - k * h * (1.0 - h));
}
vec4 sdrgb_op_subtract_smooth(vec4 d1, vec4 d2, float k) {
    float h = clamp(0.5 - 0.5 * (d2.w + d1.w) / k, 0.0, 1.0);
    vec4 m = mix(d2, vec4(d1.rgb, -d1.w), h);
    return vec4(m.rgb, m.w + k * h * (1.0 - h));
}
vec4 sdrgb_op_intersect_smooth(vec4 d1, vec4 d2, float k) {
    float h = clamp(0.5 - 0.5 * (d2.w - d1.w) / k, 0.0, 1.0);
    vec4 m = mix(d2, d1, h);
    return vec4(m.rgb, m.w + k * h * (1.0 - h));
}
vec4 sdrgb_op_scale_distance(vec4 sd, float scale) {
    return vec4(sd.rgb, sd.w * scale);
}
";

/// A GLSL interpreter over the wire form: walks the opcode stream with a
/// fixed-depth value stack and position stack, mirroring the host
/// interpreter opcode for opcode. The caller declares `sdf_opcodes`,
/// `sdf_constants` and the cursor offsets before this source.
pub const GLSL_SDF_INTERPRETER_CODE: &'static str = "// Opcode interpreter over (sdf_opcodes[], sdf_constants[]).
#define SDF_STACK_DEPTH 64

float sdf_read_float(inout uint ci) {
    return uintBitsToFloat(sdf_constants[ci++]);
}
vec3 sdf_read_vec3(inout uint ci) {
    float x = sdf_read_float(ci);
    float y = sdf_read_float(ci);
    float z = sdf_read_float(ci);
    return vec3(x, y, z);
}
vec4 sdf_read_vec4(inout uint ci) {
    float x = sdf_read_float(ci);
    float y = sdf_read_float(ci);
    float z = sdf_read_float(ci);
    float w = sdf_read_float(ci);
    return vec4(x, y, z, w);
}
vec4 sdf_interpret(vec3 position) {
    vec4 stack[SDF_STACK_DEPTH];
    vec3 position_stack[SDF_STACK_DEPTH];
    uint sp = 0u;
    uint psp = 0u;
    uint pc = 0u;
    uint ci = 0u;
    vec3 pos = position;
    for (;;) {
        uint opcode = sdf_opcodes[pc++];
        if (opcode == 0u) { // Plane
            stack[sp++] = sdrgb_plane(pos, sdf_read_vec4(ci));
        } else if (opcode == 1u) { // Sphere
            vec3 center = sdf_read_vec3(ci);
            stack[sp++] = sdrgb_sphere(pos, center, sdf_read_float(ci));
        } else if (opcode == 2u) { // Capsule
            vec3 p0 = sdf_read_vec3(ci);
            vec3 p1 = sdf_read_vec3(ci);
            stack[sp++] = sdrgb_capsule(pos, p0, p1, sdf_read_float(ci));
        } else if (opcode == 3u) { // TaperedCapsule
            vec3 p0 = sdf_read_vec3(ci);
            float r0 = sdf_read_float(ci);
            vec3 p1 = sdf_read_vec3(ci);
            float r1 = sdf_read_float(ci);
            stack[sp++] = sdrgb_tapered_capsule(pos, p0, p1, r0, r1);
        } else if (opcode == 4u) { // Material
            vec4 sd = stack[--sp];
            stack[sp++] = sdrgb_material(sd, sdf_read_vec3(ci));
        } else if (opcode == 5u) { // Union
            vec4 sd1 = stack[--sp];
            vec4 sd2 = stack[--sp];
            stack[sp++] = sdrgb_op_union(sd1, sd2);
        } else if (opcode == 6u) { // UnionSmooth
            vec4 sd1 = stack[--sp];
            vec4 sd2 = stack[--sp];
            stack[sp++] = sdrgb_op_union_smooth(sd1, sd2, sdf_read_float(ci));
        } else if (opcode == 7u) { // Subtract
            vec4 sd1 = stack[--sp];
            vec4 sd2 = stack[--sp];
            stack[sp++] = sdrgb_op_subtract(sd1, sd2);
        } else if (opcode == 8u) { // SubtractSmooth
            vec4 sd1 = stack[--sp];
            vec4 sd2 = stack[--sp];
            stack[sp++] = sdrgb_op_subtract_smooth(sd1, sd2, sdf_read_float(ci));
        } else if (opcode == 9u) { // Intersect
            vec4 sd1 = stack[--sp];
            vec4 sd2 = stack[--sp];
            stack[sp++] = sdrgb_op_intersect(sd1, sd2);
        } else if (opcode == 10u) { // IntersectSmooth
            vec4 sd1 = stack[--sp];
            vec4 sd2 = stack[--sp];
            stack[sp++] = sdrgb_op_intersect_smooth(sd1, sd2, sdf_read_float(ci));
        } else if (opcode == 11u) { // PushTranslation
            position_stack[psp++] = pos;
            pos += sdf_read_vec3(ci);
        } else if (opcode == 12u) { // PushRotation
            vec4 rotation = sdf_read_vec4(ci);
            position_stack[psp++] = pos;
            pos = mul_quat(rotation, pos);
        } else if (opcode == 13u) { // PopTransform
            pos = position_stack[--psp];
        } else if (opcode == 14u) { // PushScale
            position_stack[psp++] = pos;
            pos *= sdf_read_float(ci);
        } else if (opcode == 15u) { // PopScale
            pos = position_stack[--psp];
            float scale = sdf_read_float(ci);
            vec4 sd = stack[--sp];
            stack[sp++] = sdrgb_op_scale_distance(sd, scale);
        } else if (opcode == 16u) { // End
            break;
        } else if (opcode == 17u) { // RoundedBox
            vec3 half_size = sdf_read_vec3(ci);
            stack[sp++] = sdrgb_rounded_box(pos, half_size, sdf_read_float(ci));
        } else if (opcode == 18u) { // BiconvexLens
            float lower_sagitta = sdf_read_float(ci);
            float upper_sagitta = sdf_read_float(ci);
            stack[sp++] = sdrgb_biconvex_lens(pos, lower_sagitta, upper_sagitta, sdf_read_float(ci));
        } else if (opcode == 19u) { // RoundedCylinder
            float cylinder_radius = sdf_read_float(ci);
            float half_height = sdf_read_float(ci);
            stack[sp++] = sdrgb_rounded_cylinder(pos, cylinder_radius, half_height, sdf_read_float(ci));
        } else if (opcode == 20u) { // Torus
            float big_r = sdf_read_float(ci);
            stack[sp++] = sdrgb_torus(pos, big_r, sdf_read_float(ci));
        } else if (opcode == 21u) { // TorusSector
            float big_r = sdf_read_float(ci);
            float small_r = sdf_read_float(ci);
            float sin_half = sdf_read_float(ci);
            float cos_half = sdf_read_float(ci);
            stack[sp++] = sdrgb_torus_sector(pos, big_r, small_r, vec2(sin_half, cos_half));
        } else { // Cone
            float r = sdf_read_float(ci);
            stack[sp++] = sdrgb_cone(pos, r, sdf_read_float(ci));
        }
    }
    return stack[--sp];
}
";

/// The GLSL distance-function library; always the same text,
/// [`GLSL_SDF_LIBRARY_CODE`].
pub fn get_glsl_sdf_library_code() -> (r: &'static str)
    ensures
        r@ == GLSL_SDF_LIBRARY_CODE@,
{
    GLSL_SDF_LIBRARY_CODE
}

/// The GLSL opcode interpreter; always the same text,
/// [`GLSL_SDF_INTERPRETER_CODE`].
pub fn get_glsl_sdf_interpreter_code() -> (r: &'static str)
    ensures
        r@ == GLSL_SDF_INTERPRETER_CODE@,
{
    GLSL_SDF_INTERPRETER_CODE
}

} // verus!
