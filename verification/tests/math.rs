//! Numeric behaviour of the vector and matrix types, exercised through the
//! real software floating-point backend.

use cloudmath::{Matrix2, Matrix3, Matrix4, Vector2, Vector3, Vector4};
use rand::{Rng, SeedableRng};

fn mat2(d: [f32; 4]) -> Matrix2 {
    Matrix2 { data: d.map(f32::to_bits) }
}

fn arr2(m: &Matrix2) -> [f32; 4] {
    m.data.map(f32::from_bits)
}

fn mat3(d: [f32; 9]) -> Matrix3 {
    Matrix3 { data: d.map(f32::to_bits) }
}

fn arr3(m: &Matrix3) -> [f32; 9] {
    m.data.map(f32::from_bits)
}

fn mat4(d: [f32; 16]) -> Matrix4 {
    Matrix4 { data: d.map(f32::to_bits) }
}

fn arr4(m: &Matrix4) -> [f32; 16] {
    m.data.map(f32::from_bits)
}

fn vec3(x: f32, y: f32, z: f32) -> Vector3 {
    Vector3::new(x.to_bits(), y.to_bits(), z.to_bits())
}

fn rand_mat4(rng: &mut rand::rngs::StdRng) -> [f32; 16] {
    let mut d = [0.0f32; 16];
    for e in d.iter_mut() {
        *e = rng.gen_range(-5.0..5.0);
    }
    d
}

#[test]
fn identity_law_matrix2() {
    let mut rng = rand::rngs::StdRng::seed_from_u64(11);
    for _ in 0..20 {
        let d = [
            rng.gen_range(-5.0..5.0f32),
            rng.gen_range(-5.0..5.0),
            rng.gen_range(-5.0..5.0),
            rng.gen_range(-5.0..5.0),
        ];
        let m = mat2(d);
        let i = Matrix2::new();
        assert_eq!(arr2(&i.mul(m)), d);
        assert_eq!(arr2(&m.mul(i)), d);
    }
    let hand = mat2([1.5, -2.0, 0.25, 8.0]);
    assert_eq!(arr2(&Matrix2::new().mul(hand)), [1.5, -2.0, 0.25, 8.0]);
}

#[test]
fn identity_law_matrix3() {
    let mut rng = rand::rngs::StdRng::seed_from_u64(12);
    for _ in 0..20 {
        let mut d = [0.0f32; 9];
        for e in d.iter_mut() {
            *e = rng.gen_range(-5.0..5.0);
        }
        let m = mat3(d);
        let i = Matrix3::new();
        assert_eq!(arr3(&i.mul(m)), d);
        assert_eq!(arr3(&m.mul(i)), d);
    }
}

#[test]
fn identity_law_matrix4() {
    let mut rng = rand::rngs::StdRng::seed_from_u64(13);
    for _ in 0..20 {
        let d = rand_mat4(&mut rng);
        let m = mat4(d);
        let i = Matrix4::new();
        assert_eq!(arr4(&i.mul(m)), d);
        assert_eq!(arr4(&m.mul(i)), d);
    }
}

#[test]
fn matrix2_product_concrete() {
    let a = mat2([1.0, 2.0, 3.0, 4.0]);
    let b = mat2([5.0, 6.0, 7.0, 8.0]);
    assert_eq!(arr2(&a.mul(b)), [19.0, 22.0, 43.0, 50.0]);
}

#[test]
fn matrix_product_not_assumed_commutative() {
    let a = mat4(translation_entries(1.0, 2.0, 3.0));
    let b = mat4(scale_entries(2.0, 2.0, 2.0));
    let ab = arr4(&a.mul(b));
    let ba = arr4(&b.mul(a));
    assert_ne!(ab, ba);
}

fn translation_entries(x: f32, y: f32, z: f32) -> [f32; 16] {
    [
        1.0, 0.0, 0.0, 0.0,
        0.0, 1.0, 0.0, 0.0,
        0.0, 0.0, 1.0, 0.0,
        x, y, z, 1.0,
    ]
}

fn scale_entries(x: f32, y: f32, z: f32) -> [f32; 16] {
    [
        x, 0.0, 0.0, 0.0,
        0.0, y, 0.0, 0.0,
        0.0, 0.0, z, 0.0,
        0.0, 0.0, 0.0, 1.0,
    ]
}

#[test]
fn determinant_of_identity_is_one() {
    assert_eq!(f32::from_bits(Matrix2::new().determinant()), 1.0);
    assert_eq!(f32::from_bits(Matrix3::new().determinant()), 1.0);
    assert_eq!(f32::from_bits(Matrix4::new().determinant()), 1.0);
}

#[test]
fn transpose_is_involutive() {
    let mut rng = rand::rngs::StdRng::seed_from_u64(14);
    let d2 = [
        rng.gen_range(-5.0..5.0f32),
        rng.gen_range(-5.0..5.0),
        rng.gen_range(-5.0..5.0),
        rng.gen_range(-5.0..5.0),
    ];
    let m = mat2(d2);
    assert_eq!(m.transpose().transpose().data, m.data);
    let mut d3 = [0.0f32; 9];
    for e in d3.iter_mut() {
        *e = rng.gen_range(-5.0..5.0);
    }
    let m = mat3(d3);
    assert_eq!(m.transpose().transpose().data, m.data);
    let m = mat4(rand_mat4(&mut rng));
    assert_eq!(m.transpose().transpose().data, m.data);
}

#[test]
fn transpose_concrete() {
    let m = mat2([1.0, 2.0, 3.0, 4.0]);
    assert_eq!(arr2(&m.transpose()), [1.0, 3.0, 2.0, 4.0]);
}

#[test]
fn matrix3_determinant_examples() {
    let m = mat3([1.0, 0.0, 0.0, 0.0, 1.0, 0.0, 0.0, 0.0, 1.0]);
    assert_eq!(f32::from_bits(m.determinant()), 1.0);
    let m = mat3([2.0, 0.0, 0.0, 0.0, 3.0, 0.0, 0.0, 0.0, 1.0]);
    assert_eq!(f32::from_bits(m.determinant()), 6.0);
}

#[test]
fn matrix3_determinant_general() {
    let m = mat3([1.0, 2.0, 3.0, 0.0, 1.0, 4.0, 5.0, 6.0, 0.0]);
    assert_eq!(f32::from_bits(m.determinant()), 1.0);
}

#[test]
fn matrix4_determinant_of_scale() {
    let m = mat4(scale_entries(2.0, 3.0, 4.0));
    assert_eq!(f32::from_bits(m.determinant()), 24.0);
    let m = mat4(translation_entries(7.0, -2.0, 9.0));
    assert_eq!(f32::from_bits(m.determinant()), 1.0);
}

#[test]
fn matrix4_minor_of_identity_is_identity3() {
    let i = Matrix4::new();
    assert_eq!(i.minor(0, 0).data, Matrix3::new().data);
}

#[test]
fn matrix4_minor_picks_submatrix() {
    let d: [f32; 16] = [
        0.0, 1.0, 2.0, 3.0,
        4.0, 5.0, 6.0, 7.0,
        8.0, 9.0, 10.0, 11.0,
        12.0, 13.0, 14.0, 15.0,
    ];
    let m = mat4(d);
    // Key (0, 0) removes the first row and the first column.
    assert_eq!(arr3(&m.minor(0, 0)), [5.0, 6.0, 7.0, 9.0, 10.0, 11.0, 13.0, 14.0, 15.0]);
    // Key (1, 0) removes the first row and the second column.
    assert_eq!(arr3(&m.minor(1, 0)), [4.0, 6.0, 7.0, 8.0, 10.0, 11.0, 12.0, 14.0, 15.0]);
    // Key (0, 3) removes the last row and the first column.
    assert_eq!(arr3(&m.minor(0, 3)), [1.0, 2.0, 3.0, 5.0, 6.0, 7.0, 9.0, 10.0, 11.0]);
}

#[test]
fn matrix3_cofactor_of_identity() {
    let c = Matrix3::new().cofactor();
    assert_eq!(arr3(&c), [1.0, 0.0, 0.0, 0.0, 1.0, 0.0, 0.0, 0.0, 1.0]);
}

#[test]
fn inverse_of_diagonal_is_exact() {
    let m = mat4(scale_entries(2.0, 4.0, 8.0));
    let inv = m.inverse().unwrap();
    assert_eq!(arr4(&inv), scale_entries(0.5, 0.25, 0.125));
}

#[test]
fn inverse_round_trip_within_tolerance() {
    let mut rng = rand::rngs::StdRng::seed_from_u64(15);
    let mut checked = 0;
    while checked < 5 {
        let d = rand_mat4(&mut rng);
        let m = mat4(d);
        let det = f32::from_bits(m.determinant());
        if det.abs() < 1.0 {
            continue;
        }
        checked += 1;
        let inv = m.inverse().unwrap();
        let prod = arr4(&m.mul(inv));
        let identity: [f32; 16] = scale_entries(1.0, 1.0, 1.0);
        for k in 0..16 {
            assert!(
                (prod[k] - identity[k]).abs() < 1e-4,
                "entry {} of round trip was {}",
                k,
                prod[k]
            );
        }
    }
}

#[test]
fn inverse_of_singular_matrix_fails() {
    let mut d = scale_entries(3.0, 5.0, 2.0);
    // Zero out one row: the determinant is exactly zero.
    d[4] = 0.0;
    d[5] = 0.0;
    d[6] = 0.0;
    d[7] = 0.0;
    let m = mat4(d);
    assert_eq!(f32::from_bits(m.determinant()), 0.0);
    assert_eq!(m.inverse().unwrap_err(), "Matrix does not have an inverse");
}

#[test]
fn normalize_gives_unit_length() {
    let cases = [
        (3.0f32, 4.0f32, 0.0f32),
        (1.0, 1.0, 1.0),
        (-2.5, 0.5, 10.0),
        (0.001, -0.002, 0.004),
    ];
    for (x, y, z) in cases {
        let v = vec3(x, y, z);
        let n = v.normalize();
        let len = f32::from_bits(n.length());
        assert!((len - 1.0).abs() < 1e-5, "length was {}", len);
    }
    let v = Vector2::new(3.0f32.to_bits(), (-4.0f32).to_bits());
    let len = f32::from_bits(v.normalize().length());
    assert!((len - 1.0).abs() < 1e-5);
}

#[test]
fn normalize_zero_vector_is_non_finite() {
    let v = vec3(0.0, 0.0, 0.0);
    let n = v.normalize();
    assert!(f32::from_bits(n.x).is_nan());
    let z4 = Vector4::new();
    assert_eq!(f32::from_bits(z4.length()), 0.0);
    let n4 = z4.normalize();
    assert!(f32::from_bits(n4.x).is_nan());
}

#[test]
fn vector2_length_is_euclidean() {
    let v = Vector2::new(3.0f32.to_bits(), 4.0f32.to_bits());
    assert_eq!(f32::from_bits(v.length()), 5.0);
}

#[test]
fn cross_product_is_right_handed() {
    let x = vec3(1.0, 0.0, 0.0);
    let y = vec3(0.0, 1.0, 0.0);
    let c = x.cross(y);
    assert_eq!(
        (f32::from_bits(c.x), f32::from_bits(c.y), f32::from_bits(c.z)),
        (0.0, 0.0, 1.0)
    );
}

#[test]
fn cross_product_anti_commutes() {
    let mut rng = rand::rngs::StdRng::seed_from_u64(16);
    for _ in 0..20 {
        let a = vec3(
            rng.gen_range(-5.0..5.0),
            rng.gen_range(-5.0..5.0),
            rng.gen_range(-5.0..5.0),
        );
        let b = vec3(
            rng.gen_range(-5.0..5.0),
            rng.gen_range(-5.0..5.0),
            rng.gen_range(-5.0..5.0),
        );
        let ab = a.cross(b);
        let ba = b.cross(a);
        assert_eq!(f32::from_bits(ab.x), -f32::from_bits(ba.x));
        assert_eq!(f32::from_bits(ab.y), -f32::from_bits(ba.y));
        assert_eq!(f32::from_bits(ab.z), -f32::from_bits(ba.z));
    }
}

#[test]
fn vector3_componentwise_arithmetic() {
    let a = vec3(1.0, 2.0, 3.0);
    let b = vec3(10.0, 20.0, 30.0);
    let sum = a.add(b);
    assert_eq!(f32::from_bits(sum.x), 11.0);
    assert_eq!(f32::from_bits(sum.y), 22.0);
    assert_eq!(f32::from_bits(sum.z), 33.0);
    let diff = b.sub(a);
    assert_eq!(f32::from_bits(diff.x), 9.0);
    assert_eq!(f32::from_bits(diff.y), 18.0);
    assert_eq!(f32::from_bits(diff.z), 27.0);
    let prod = a.mul(b);
    assert_eq!(f32::from_bits(prod.x), 10.0);
    assert_eq!(f32::from_bits(prod.y), 40.0);
    assert_eq!(f32::from_bits(prod.z), 90.0);
    let scaled = a.scale(2.0f32.to_bits());
    assert_eq!(f32::from_bits(scaled.x), 2.0);
    assert_eq!(f32::from_bits(scaled.y), 4.0);
    assert_eq!(f32::from_bits(scaled.z), 6.0);
    assert_eq!(f32::from_bits(a.dot(b)), 140.0);
}

#[test]
fn vector3_negate_flips_every_component() {
    let mut v = vec3(1.5, -2.0, 0.0);
    v.negate();
    assert_eq!(f32::from_bits(v.x), -1.5);
    assert_eq!(f32::from_bits(v.y), 2.0);
    assert_eq!(f32::from_bits(v.z), -0.0);
    assert!(f32::from_bits(v.z).is_sign_negative());
}

#[test]
fn vector3_normal_of_triangle() {
    // Triangle in the xy plane, counter-clockwise: the normal is +z.
    let origin = vec3(0.0, 0.0, 0.0);
    let a = vec3(1.0, 0.0, 0.0);
    let b = vec3(0.0, 1.0, 0.0);
    let n = origin.normal(a, b);
    assert_eq!(f32::from_bits(n.x), 0.0);
    assert_eq!(f32::from_bits(n.y), 0.0);
    assert_eq!(f32::from_bits(n.z), 1.0);
}

#[test]
fn point_construction() {
    let p = cloudmath::Point3D::new();
    assert_eq!(f32::from_bits(p.x), 0.0);
    assert_eq!(f32::from_bits(p.y), 0.0);
    assert_eq!(f32::from_bits(p.z), 0.0);
    let q = cloudmath::Point3D::from([1.0f32.to_bits(), 2.0f32.to_bits(), 3.0f32.to_bits()]);
    assert_eq!(f32::from_bits(q.x), 1.0);
    assert_eq!(f32::from_bits(q.y), 2.0);
    assert_eq!(f32::from_bits(q.z), 3.0);
}

#[test]
fn shader_source_text() {
    let v = cloudmath::shader::GLSLSource::Vertex(String::from("void main() {}"));
    assert_eq!(v.text(), "void main() {}");
    let f = cloudmath::shader::GLSLSource::Fragment(String::from("// frag"));
    assert_eq!(f.text(), "// frag");
}
