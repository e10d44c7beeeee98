//! Scene data: triangles, models and materials, and their GPU encoding.
//!
//! Vector and matrix components are held as 32-bit IEEE-754 bit patterns;
//! the renderer core never computes with them, it only validates indices and
//! lays the data out byte for byte as the GPU-side structures expect it:
//! little-endian 32-bit words, a 64-bit index, and tail padding to the
//! 16-byte alignment of the element.

use vstd::prelude::*;

use crate::buffers::{upload_elements, UploadPlan};

verus! {

/// Byte stride of one triangle in its storage buffer.
pub const TRIANGLE_STRIDE: usize = 64;

/// Byte stride of one model in its storage buffer.
pub const MODEL_STRIDE: usize = 80;

/// Byte stride of one material in its storage buffer.
pub const MATERIAL_STRIDE: usize = 16;

/// Bit pattern of the 32-bit float 1.0.
pub const F32_ONE_BITS: u32 = 0x3f80_0000;

/// Bit pattern of the 32-bit float -1.0.
pub const F32_NEG_ONE_BITS: u32 = 0xbf80_0000;

/// A four-component vector, each component the bit pattern of a 32-bit
/// float.
#[derive(Clone, Copy, PartialEq, Eq, Structural, Debug)]
pub struct Vec4Bits {
    pub x: u32,
    pub y: u32,
    pub z: u32,
    pub w: u32,
}

/// A column-major 4x4 matrix of 32-bit float bit patterns.
#[derive(Clone, Copy, PartialEq, Eq, Structural, Debug)]
pub struct Mat4Bits {
    pub x_axis: Vec4Bits,
    pub y_axis: Vec4Bits,
    pub z_axis: Vec4Bits,
    pub w_axis: Vec4Bits,
}

/// The identity matrix's bit patterns.
pub open spec fn mat4_identity() -> Mat4Bits {
    Mat4Bits {
        x_axis: Vec4Bits { x: F32_ONE_BITS, y: 0, z: 0, w: 0 },
        y_axis: Vec4Bits { x: 0, y: F32_ONE_BITS, z: 0, w: 0 },
        z_axis: Vec4Bits { x: 0, y: 0, z: F32_ONE_BITS, w: 0 },
        w_axis: Vec4Bits { x: 0, y: 0, z: 0, w: F32_ONE_BITS },
    }
}

/// One triangle: three corners and the model it belongs to.
#[derive(Clone, Copy, PartialEq, Eq, Structural, Debug)]
pub struct Triangle {
    pub p0: Vec4Bits,
    pub p1: Vec4Bits,
    pub p2: Vec4Bits,
    pub model_index: usize,
}

/// The stock triangle: corners (-1,0,0,1), (1,0,0,1), (0,1,0,1) on model 0.
pub open spec fn default_triangle() -> Triangle {
    Triangle {
        p0: Vec4Bits { x: F32_NEG_ONE_BITS, y: 0, z: 0, w: F32_ONE_BITS },
        p1: Vec4Bits { x: F32_ONE_BITS, y: 0, z: 0, w: F32_ONE_BITS },
        p2: Vec4Bits { x: 0, y: F32_ONE_BITS, z: 0, w: F32_ONE_BITS },
        model_index: 0,
    }
}

impl Default for Triangle {
    /// The stock triangle.
    fn default() -> (r: Self)
        ensures
            r == default_triangle(),
    {
        Triangle {
            p0: Vec4Bits { x: F32_NEG_ONE_BITS, y: 0, z: 0, w: F32_ONE_BITS },
            p1: Vec4Bits { x: F32_ONE_BITS, y: 0, z: 0, w: F32_ONE_BITS },
            p2: Vec4Bits { x: 0, y: F32_ONE_BITS, z: 0, w: F32_ONE_BITS },
            model_index: 0,
        }
    }
}

/// One model: its transform and the material it references.
#[derive(Clone, Copy, PartialEq, Eq, Structural, Debug)]
pub struct Model {
    pub model_matrix: Mat4Bits,
    pub material_index: usize,
}

impl Default for Model {
    /// The identity transform on material 0.
    fn default() -> (r: Self)
        ensures
            r.model_matrix == mat4_identity(),
            r.material_index == 0,
    {
        Model {
            model_matrix: Mat4Bits {
                x_axis: Vec4Bits { x: F32_ONE_BITS, y: 0, z: 0, w: 0 },
                y_axis: Vec4Bits { x: 0, y: F32_ONE_BITS, z: 0, w: 0 },
                z_axis: Vec4Bits { x: 0, y: 0, z: F32_ONE_BITS, w: 0 },
                w_axis: Vec4Bits { x: 0, y: 0, z: 0, w: F32_ONE_BITS },
            },
            material_index: 0,
        }
    }
}

impl Model {
    /// The built-in one-triangle model.
    pub fn triangle() -> (r: (Model, Vec<Triangle>))
        ensures
            r.0.model_matrix == mat4_identity(),
            r.0.material_index == 0,
            r.1@ == seq![default_triangle()],
    {
        let model = Model::default();
        let mut triangles: Vec<Triangle> = Vec::new();
        triangles.push(Triangle::default());
        assert(triangles@ =~= seq![default_triangle()]);
        (model, triangles)
    }
}

/// One material: its albedo color.
#[derive(Clone, Copy, PartialEq, Eq, Structural, Debug)]
pub struct Material {
    pub albedo: Vec4Bits,
}

/// Opaque white.
pub open spec fn default_material() -> Material {
    Material {
        albedo: Vec4Bits {
            x: F32_ONE_BITS,
            y: F32_ONE_BITS,
            z: F32_ONE_BITS,
            w: F32_ONE_BITS,
        },
    }
}

impl Default for Material {
    /// Opaque white.
    fn default() -> (r: Self)
        ensures
            r == default_material(),
    {
        Material {
            albedo: Vec4Bits {
                x: F32_ONE_BITS,
                y: F32_ONE_BITS,
                z: F32_ONE_BITS,
                w: F32_ONE_BITS,
            },
        }
    }
}

// ---------------------------------------------------------------------------
// Byte encoding
// ---------------------------------------------------------------------------

/// The four little-endian bytes of a 32-bit word.
#[verifier::opaque]
pub open spec fn u32_le(x: u32) -> Seq<u8> {
    seq![
        (x % 0x100) as u8,
        ((x / 0x100) % 0x100) as u8,
        ((x / 0x10000) % 0x100) as u8,
        ((x / 0x1000000) % 0x100) as u8,
    ]
}

/// The eight little-endian bytes of a 64-bit word.
pub open spec fn u64_le(x: u64) -> Seq<u8> {
    u32_le((x % 0x100000000) as u32) + u32_le((x / 0x100000000) as u32)
}

/// Eight bytes of tail padding.
pub open spec fn pad8() -> Seq<u8> {
    seq![0u8, 0u8, 0u8, 0u8, 0u8, 0u8, 0u8, 0u8]
}

/// The sixteen bytes of a vector.
pub open spec fn vec4_bytes(v: Vec4Bits) -> Seq<u8> {
    u32_le(v.x) + u32_le(v.y) + u32_le(v.z) + u32_le(v.w)
}

/// The sixty-four bytes of a matrix, column by column.
pub open spec fn mat4_bytes(m: Mat4Bits) -> Seq<u8> {
    vec4_bytes(m.x_axis) + vec4_bytes(m.y_axis) + vec4_bytes(m.z_axis) + vec4_bytes(m.w_axis)
}

/// The sixty-four bytes of one triangle: three corners, the model index,
/// and eight bytes of padding.
pub open spec fn triangle_bytes(t: Triangle) -> Seq<u8> {
    vec4_bytes(t.p0) + vec4_bytes(t.p1) + vec4_bytes(t.p2) + u64_le(t.model_index as u64) + pad8()
}

/// The eighty bytes of one model: the matrix, the material index, and eight
/// bytes of padding.
pub open spec fn model_bytes(m: Model) -> Seq<u8> {
    mat4_bytes(m.model_matrix) + u64_le(m.material_index as u64) + pad8()
}

/// The sixteen bytes of one material.
pub open spec fn material_bytes(m: Material) -> Seq<u8> {
    vec4_bytes(m.albedo)
}

/// All triangles, densely packed in order.
pub open spec fn triangles_bytes(ts: Seq<Triangle>) -> Seq<u8>
    decreases ts.len(),
{
    if ts.len() == 0 {
        Seq::empty()
    } else {
        triangle_bytes(ts[0]) + triangles_bytes(ts.drop_first())
    }
}

/// All models, densely packed in order.
pub open spec fn models_bytes(ms: Seq<Model>) -> Seq<u8>
    decreases ms.len(),
{
    if ms.len() == 0 {
        Seq::empty()
    } else {
        model_bytes(ms[0]) + models_bytes(ms.drop_first())
    }
}

/// All materials, densely packed in order.
pub open spec fn materials_bytes(ms: Seq<Material>) -> Seq<u8>
    decreases ms.len(),
{
    if ms.len() == 0 {
        Seq::empty()
    } else {
        material_bytes(ms[0]) + materials_bytes(ms.drop_first())
    }
}

proof fn lemma_seq_add_assoc<A>(a: Seq<A>, b: Seq<A>, c: Seq<A>)
    ensures
        (a + b) + c == a + (b + c),
{
    assert((a + b) + c =~= a + (b + c));
}

proof fn lemma_seq_add_empty<A>(a: Seq<A>)
    ensures
        a + Seq::<A>::empty() == a,
        Seq::<A>::empty() + a == a,
{
    assert(a + Seq::<A>::empty() =~= a);
    assert(Seq::<A>::empty() + a =~= a);
}

proof fn lemma_u32_le_len(x: u32)
    ensures
        u32_le(x).len() == 4,
{
    reveal(u32_le);
}

proof fn lemma_u64_le_len(x: u64)
    ensures
        u64_le(x).len() == 8,
{
    lemma_u32_le_len((x % 0x100000000) as u32);
    lemma_u32_le_len((x / 0x100000000) as u32);
}

proof fn lemma_vec4_bytes_len(v: Vec4Bits)
    ensures
        vec4_bytes(v).len() == 16,
{
    lemma_u32_le_len(v.x);
    lemma_u32_le_len(v.y);
    lemma_u32_le_len(v.z);
    lemma_u32_le_len(v.w);
}

proof fn lemma_mat4_bytes_len(m: Mat4Bits)
    ensures
        mat4_bytes(m).len() == 64,
{
    lemma_vec4_bytes_len(m.x_axis);
    lemma_vec4_bytes_len(m.y_axis);
    lemma_vec4_bytes_len(m.z_axis);
    lemma_vec4_bytes_len(m.w_axis);
}

proof fn lemma_triangle_bytes_len(t: Triangle)
    ensures
        triangle_bytes(t).len() == TRIANGLE_STRIDE,
{
    lemma_vec4_bytes_len(t.p0);
    lemma_vec4_bytes_len(t.p1);
    lemma_vec4_bytes_len(t.p2);
    lemma_u64_le_len(t.model_index as u64);
    assert(pad8().len() == 8);
}

proof fn lemma_model_bytes_len(m: Model)
    ensures
        model_bytes(m).len() == MODEL_STRIDE,
{
    lemma_mat4_bytes_len(m.model_matrix);
    lemma_u64_le_len(m.material_index as u64);
    assert(pad8().len() == 8);
}

proof fn lemma_material_bytes_len(m: Material)
    ensures
        material_bytes(m).len() == MATERIAL_STRIDE,
{
    lemma_vec4_bytes_len(m.albedo);
}

/// Packed triangles occupy exactly their count times the stride.
pub proof fn lemma_triangles_bytes_len(ts: Seq<Triangle>)
    ensures
        triangles_bytes(ts).len() == ts.len() * TRIANGLE_STRIDE,
    decreases ts.len(),
{
    if ts.len() > 0 {
        lemma_triangle_bytes_len(ts[0]);
        lemma_triangles_bytes_len(ts.drop_first());
    }
}

/// Packed models occupy exactly their count times the stride.
pub proof fn lemma_models_bytes_len(ms: Seq<Model>)
    ensures
        models_bytes(ms).len() == ms.len() * MODEL_STRIDE,
    decreases ms.len(),
{
    if ms.len() > 0 {
        lemma_model_bytes_len(ms[0]);
        lemma_models_bytes_len(ms.drop_first());
    }
}

/// Packed materials occupy exactly their count times the stride.
pub proof fn lemma_materials_bytes_len(ms: Seq<Material>)
    ensures
        materials_bytes(ms).len() == ms.len() * MATERIAL_STRIDE,
    decreases ms.len(),
{
    if ms.len() > 0 {
        lemma_material_bytes_len(ms[0]);
        lemma_materials_bytes_len(ms.drop_first());
    }
}

proof fn lemma_triangles_bytes_push(ts: Seq<Triangle>, t: Triangle)
    ensures
        triangles_bytes(ts.push(t)) == triangles_bytes(ts) + triangle_bytes(t),
    decreases ts.len(),
{
    let s = ts.push(t);
    assert(s.len() == ts.len() + 1);
    if ts.len() == 0 {
        assert(s[0] == t);
        assert(s.drop_first() =~= Seq::<Triangle>::empty());
        assert(triangles_bytes(s) == triangle_bytes(t) + triangles_bytes(Seq::<Triangle>::empty()));
        assert(triangles_bytes(Seq::<Triangle>::empty()) == Seq::<u8>::empty());
        lemma_seq_add_empty(triangle_bytes(t));
        assert(triangles_bytes(ts) == Seq::<u8>::empty());
        assert(triangles_bytes(ts) + triangle_bytes(t) == triangle_bytes(t));
    } else {
        assert(s[0] == ts[0]);
        assert(s.drop_first() =~= ts.drop_first().push(t));
        assert(triangles_bytes(s) == triangle_bytes(ts[0]) + triangles_bytes(ts.drop_first().push(t)));
        lemma_triangles_bytes_push(ts.drop_first(), t);
        lemma_seq_add_assoc(
            triangle_bytes(ts[0]),
            triangles_bytes(ts.drop_first()),
            triangle_bytes(t),
        );
        assert(triangles_bytes(ts) == triangle_bytes(ts[0]) + triangles_bytes(ts.drop_first()));
    }
}

proof fn lemma_models_bytes_push(ms: Seq<Model>, m: Model)
    ensures
        models_bytes(ms.push(m)) == models_bytes(ms) + model_bytes(m),
    decreases ms.len(),
{
    let s = ms.push(m);
    assert(s.len() == ms.len() + 1);
    if ms.len() == 0 {
        assert(s[0] == m);
        assert(s.drop_first() =~= Seq::<Model>::empty());
        assert(models_bytes(s) == model_bytes(m) + models_bytes(Seq::<Model>::empty()));
        assert(models_bytes(Seq::<Model>::empty()) == Seq::<u8>::empty());
        lemma_seq_add_empty(model_bytes(m));
        assert(models_bytes(ms) == Seq::<u8>::empty());
        assert(models_bytes(ms) + model_bytes(m) == model_bytes(m));
    } else {
        assert(s[0] == ms[0]);
        assert(s.drop_first() =~= ms.drop_first().push(m));
        assert(models_bytes(s) == model_bytes(ms[0]) + models_bytes(ms.drop_first().push(m)));
        lemma_models_bytes_push(ms.drop_first(), m);
        lemma_seq_add_assoc(
            model_bytes(ms[0]),
            models_bytes(ms.drop_first()),
            model_bytes(m),
        );
        assert(models_bytes(ms) == model_bytes(ms[0]) + models_bytes(ms.drop_first()));
    }
}

proof fn lemma_materials_bytes_push(ms: Seq<Material>, m: Material)
    ensures
        materials_bytes(ms.push(m)) == materials_bytes(ms) + material_bytes(m),
    decreases ms.len(),
{
    let s = ms.push(m);
    assert(s.len() == ms.len() + 1);
    if ms.len() == 0 {
        assert(s[0] == m);
        assert(s.drop_first() =~= Seq::<Material>::empty());
        assert(materials_bytes(s) == material_bytes(m) + materials_bytes(Seq::<Material>::empty()));
        assert(materials_bytes(Seq::<Material>::empty()) == Seq::<u8>::empty());
        lemma_seq_add_empty(material_bytes(m));
        assert(materials_bytes(s) == material_bytes(m));
        assert(materials_bytes(ms) == Seq::<u8>::empty());
        assert(materials_bytes(ms) + material_bytes(m) == material_bytes(m));
    } else {
        assert(s[0] == ms[0]);
        assert(s.drop_first() =~= ms.drop_first().push(m));
        assert(materials_bytes(s) == material_bytes(ms[0]) + materials_bytes(ms.drop_first().push(m)));
        lemma_materials_bytes_push(ms.drop_first(), m);
        lemma_seq_add_assoc(
            material_bytes(ms[0]),
            materials_bytes(ms.drop_first()),
            material_bytes(m),
        );
        assert(materials_bytes(ms) == material_bytes(ms[0]) + materials_bytes(ms.drop_first()));
    }
}

/// Appends the four little-endian bytes of `x`.
fn push_u32_le(out: &mut Vec<u8>, x: u32)
    ensures
        final(out)@ == old(out)@ + u32_le(x),
{
    out.push((x % 0x100) as u8);
    out.push(((x / 0x100) % 0x100) as u8);
    out.push(((x / 0x10000) % 0x100) as u8);
    out.push(((x / 0x1000000) % 0x100) as u8);
    proof {
        reveal(u32_le);
        assert(out@ =~= old(out)@ + u32_le(x));
    }
}

/// Appends the eight little-endian bytes of `x`.
fn push_u64_le(out: &mut Vec<u8>, x: u64)
    ensures
        final(out)@ == old(out)@ + u64_le(x),
{
    push_u32_le(out, (x % 0x100000000) as u32);
    push_u32_le(out, (x / 0x100000000) as u32);
    proof {
        lemma_seq_add_assoc(old(out)@, u32_le((x % 0x100000000) as u32), u32_le((x / 0x100000000) as u32));
    }
}

/// Appends eight bytes of padding.
fn push_pad8(out: &mut Vec<u8>)
    ensures
        final(out)@ == old(out)@ + pad8(),
{
    let mut i: usize = 0;
    while i < 8
        invariant
            i <= 8,
            out@ == old(out)@ + pad8().subrange(0, i as int),
        decreases 8 - i,
    {
        out.push(0u8);
        assert(out@ =~= old(out)@ + pad8().subrange(0, i + 1 as int));
        i = i + 1;
    }
    assert(pad8().subrange(0, 8) =~= pad8());
}

/// Appends a vector's sixteen bytes.
fn push_vec4(out: &mut Vec<u8>, v: &Vec4Bits)
    ensures
        final(out)@ == old(out)@ + vec4_bytes(*v),
{
    push_u32_le(out, v.x);
    push_u32_le(out, v.y);
    push_u32_le(out, v.z);
    push_u32_le(out, v.w);
    proof {
        let a = u32_le(v.x);
        let b = u32_le(v.y);
        let c = u32_le(v.z);
        let d = u32_le(v.w);
        lemma_seq_add_assoc(old(out)@, a, b);
        lemma_seq_add_assoc(old(out)@, a + b, c);
        lemma_seq_add_assoc(old(out)@, (a + b) + c, d);
    }
}

/// Appends a matrix's sixty-four bytes.
fn push_mat4(out: &mut Vec<u8>, m: &Mat4Bits)
    ensures
        final(out)@ == old(out)@ + mat4_bytes(*m),
{
    push_vec4(out, &m.x_axis);
    push_vec4(out, &m.y_axis);
    push_vec4(out, &m.z_axis);
    push_vec4(out, &m.w_axis);
    proof {
        let a = vec4_bytes(m.x_axis);
        let b = vec4_bytes(m.y_axis);
        let c = vec4_bytes(m.z_axis);
        let d = vec4_bytes(m.w_axis);
        lemma_seq_add_assoc(old(out)@, a, b);
        lemma_seq_add_assoc(old(out)@, a + b, c);
        lemma_seq_add_assoc(old(out)@, (a + b) + c, d);
    }
}

/// Appends one triangle's sixty-four bytes.
fn push_triangle(out: &mut Vec<u8>, t: &Triangle)
    ensures
        final(out)@ == old(out)@ + triangle_bytes(*t),
{
    push_vec4(out, &t.p0);
    push_vec4(out, &t.p1);
    push_vec4(out, &t.p2);
    push_u64_le(out, t.model_index as u64);
    push_pad8(out);
    proof {
        let a = vec4_bytes(t.p0);
        let b = vec4_bytes(t.p1);
        let c = vec4_bytes(t.p2);
        let d = u64_le(t.model_index as u64);
        let e = pad8();
        lemma_seq_add_assoc(old(out)@, a, b);
        lemma_seq_add_assoc(old(out)@, a + b, c);
        lemma_seq_add_assoc(old(out)@, (a + b) + c, d);
        lemma_seq_add_assoc(old(out)@, ((a + b) + c) + d, e);
    }
}

/// Appends one model's eighty bytes.
fn push_model(out: &mut Vec<u8>, m: &Model)
    ensures
        final(out)@ == old(out)@ + model_bytes(*m),
{
    push_mat4(out, &m.model_matrix);
    push_u64_le(out, m.material_index as u64);
    push_pad8(out);
    proof {
        let a = mat4_bytes(m.model_matrix);
        let b = u64_le(m.material_index as u64);
        let c = pad8();
        lemma_seq_add_assoc(old(out)@, a, b);
        lemma_seq_add_assoc(old(out)@, a + b, c);
    }
}

/// Appends one material's sixteen bytes.
fn push_material(out: &mut Vec<u8>, m: &Material)
    ensures
        final(out)@ == old(out)@ + material_bytes(*m),
{
    push_vec4(out, &m.albedo);
}

/// Encodes all triangles densely, in order.
pub fn encode_triangles(ts: &Vec<Triangle>) -> (r: Vec<u8>)
    ensures
        r@ == triangles_bytes(ts@),
        r@.len() == ts@.len() * TRIANGLE_STRIDE,
{
    let mut out: Vec<u8> = Vec::new();
    let n = ts.len();
    let mut i: usize = 0;
    assert(ts@.subrange(0, 0) =~= Seq::<Triangle>::empty());
    while i < n
        invariant
            n == ts@.len(),
            i <= n,
            out@ == triangles_bytes(ts@.subrange(0, i as int)),
        decreases n - i,
    {
        push_triangle(&mut out, &ts[i]);
        proof {
            lemma_triangles_bytes_push(ts@.subrange(0, i as int), ts@[i as int]);
            assert(ts@.subrange(0, i + 1 as int) =~= ts@.subrange(0, i as int).push(ts@[i as int]));
        }
        i = i + 1;
    }
    assert(ts@.subrange(0, n as int) =~= ts@);
    proof { lemma_triangles_bytes_len(ts@); }
    out
}

/// Encodes all models densely, in order.
pub fn encode_models(ms: &Vec<Model>) -> (r: Vec<u8>)
    ensures
        r@ == models_bytes(ms@),
        r@.len() == ms@.len() * MODEL_STRIDE,
{
    let mut out: Vec<u8> = Vec::new();
    let n = ms.len();
    let mut i: usize = 0;
    assert(ms@.subrange(0, 0) =~= Seq::<Model>::empty());
    while i < n
        invariant
            n == ms@.len(),
            i <= n,
            out@ == models_bytes(ms@.subrange(0, i as int)),
        decreases n - i,
    {
        push_model(&mut out, &ms[i]);
        proof {
            lemma_models_bytes_push(ms@.subrange(0, i as int), ms@[i as int]);
            assert(ms@.subrange(0, i + 1 as int) =~= ms@.subrange(0, i as int).push(ms@[i as int]));
        }
        i = i + 1;
    }
    assert(ms@.subrange(0, n as int) =~= ms@);
    proof { lemma_models_bytes_len(ms@); }
    out
}

/// Encodes all materials densely, in order.
pub fn encode_materials(ms: &Vec<Material>) -> (r: Vec<u8>)
    ensures
        r@ == materials_bytes(ms@),
        r@.len() == ms@.len() * MATERIAL_STRIDE,
{
    let mut out: Vec<u8> = Vec::new();
    let n = ms.len();
    let mut i: usize = 0;
    assert(ms@.subrange(0, 0) =~= Seq::<Material>::empty());
    while i < n
        invariant
            n == ms@.len(),
            i <= n,
            out@ == materials_bytes(ms@.subrange(0, i as int)),
        decreases n - i,
    {
        push_material(&mut out, &ms[i]);
        proof {
            lemma_materials_bytes_push(ms@.subrange(0, i as int), ms@[i as int]);
            assert(ms@.subrange(0, i + 1 as int) =~= ms@.subrange(0, i as int).push(ms@[i as int]));
        }
        i = i + 1;
    }
    assert(ms@.subrange(0, n as int) =~= ms@);
    proof { lemma_materials_bytes_len(ms@); }
    out
}

// ---------------------------------------------------------------------------
// The scene
// ---------------------------------------------------------------------------

/// The whole scene: flat arrays of triangles, models and materials.
pub struct Scene {
    pub triangles: Vec<Triangle>,
    pub models: Vec<Model>,
    pub materials: Vec<Material>,
}

/// The upload plans of the three scene buffers, in upload order.
pub struct SceneBuffers {
    pub triangles_buffer: UploadPlan,
    pub models_buffer: UploadPlan,
    pub materials_buffer: UploadPlan,
}

impl Scene {
    /// Every model's material index and every triangle's model index point
    /// into their lists.  Violations are a caller error, never repaired
    /// here.
    pub open spec fn wf(&self) -> bool {
        &&& forall|i: int| 0 <= i < self.triangles@.len()
            ==> (#[trigger] self.triangles@[i]).model_index < self.models@.len()
        &&& forall|i: int| 0 <= i < self.models@.len()
            ==> (#[trigger] self.models@[i]).material_index < self.materials@.len()
    }

    /// An empty scene.
    pub fn new() -> (r: Self)
        ensures
            r.triangles@.len() == 0,
            r.models@.len() == 0,
            r.materials@.len() == 0,
            r.wf(),
    {
        Scene { triangles: Vec::new(), models: Vec::new(), materials: Vec::new() }
    }

    /// Fills the stock scene: one default material, the built-in triangle
    /// model, and its one triangle.
    pub fn init(&mut self)
        requires
            old(self).triangles@.len() == 0,
            old(self).models@.len() == 0,
            old(self).materials@.len() == 0,
        ensures
            final(self).materials@ == seq![default_material()],
            final(self).models@.len() == 1,
            final(self).models@[0].material_index == 0,
            final(self).models@[0].model_matrix == mat4_identity(),
            final(self).triangles@ == seq![default_triangle()],
            final(self).wf(),
    {
        self.add_material(Material::default());
        let (model, triangles) = Model::triangle();
        self.models.push(model);
        self.triangles = triangles;
        assert(self.materials@ =~= seq![default_material()]);
    }

    /// Appends one material.
    pub fn add_material(&mut self, material: Material)
        ensures
            final(self).materials@ == old(self).materials@.push(material),
            final(self).models@ == old(self).models@,
            final(self).triangles@ == old(self).triangles@,
    {
        self.materials.push(material);
    }

    /// Plans the upload of the packed triangle buffer.
    pub fn upload_triangles(&self) -> (r: UploadPlan)
        ensures
            r.uploads(triangles_bytes(self.triangles@)),
            r.destination.size == self.triangles@.len() * TRIANGLE_STRIDE,
    {
        let bytes = encode_triangles(&self.triangles);
        upload_elements(&bytes)
    }

    /// Plans the upload of the packed model buffer.
    pub fn upload_models(&self) -> (r: UploadPlan)
        ensures
            r.uploads(models_bytes(self.models@)),
            r.destination.size == self.models@.len() * MODEL_STRIDE,
    {
        let bytes = encode_models(&self.models);
        upload_elements(&bytes)
    }

    /// Plans the upload of the packed material buffer.
    pub fn upload_materials(&self) -> (r: UploadPlan)
        ensures
            r.uploads(materials_bytes(self.materials@)),
            r.destination.size == self.materials@.len() * MATERIAL_STRIDE,
    {
        let bytes = encode_materials(&self.materials);
        upload_elements(&bytes)
    }

    /// Plans all three uploads, triangles before models before materials.
    /// Each destination buffer is sized count times element stride.
    pub fn upload_buffers(&self) -> (r: SceneBuffers)
        ensures
            r.triangles_buffer.uploads(triangles_bytes(self.triangles@)),
            r.triangles_buffer.destination.size == self.triangles@.len() * TRIANGLE_STRIDE,
            r.models_buffer.uploads(models_bytes(self.models@)),
            r.models_buffer.destination.size == self.models@.len() * MODEL_STRIDE,
            r.materials_buffer.uploads(materials_bytes(self.materials@)),
            r.materials_buffer.destination.size == self.materials@.len() * MATERIAL_STRIDE,
    {
        SceneBuffers {
            triangles_buffer: self.upload_triangles(),
            models_buffer: self.upload_models(),
            materials_buffer: self.upload_materials(),
        }
    }
}

} // verus!
