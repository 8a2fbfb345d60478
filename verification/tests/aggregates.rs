//! Aggregate field layout, the value constructors, and the typed interface.

use shader_layout::reflect::{struct_layout, try_struct_layout};
use shader_layout::table::{Dialect, ScalarKind, Sublayout};
use shader_layout::types::{
    half, mat2x2, mat3, mat4x4, vec2, vec3, vec3u, vec4, vector_value_of_bool,
    vector_value_of_u32,
};
use shader_layout::value::Value;
use shader_layout::wire::repr_bytes;
use shader_layout::value::ValueType;
use shader_layout::{Aligned, Align16, ShaderRepr, Wgsl};

#[test]
fn std140_struct_scenario() {
    // A struct of (f32, vec3<f32>, f32, vec3<f32>, vec3<f32>) under GLSL
    // std140: offsets 0, 16, 28, 32, 48; the cursor ends at 60 and the total
    // size is rounded up to the struct's own 16-byte alignment.
    let fields = vec![
        ValueType::Scalar(ScalarKind::F32),
        ValueType::Vector(ScalarKind::F32, 3),
        ValueType::Scalar(ScalarKind::F32),
        ValueType::Vector(ScalarKind::F32, 3),
        ValueType::Vector(ScalarKind::F32, 3),
    ];
    let (layouts, size, align) = struct_layout(Dialect::Glsl, Sublayout::Std140, &fields);
    let offsets: Vec<usize> = layouts.iter().map(|f| f.offset).collect();
    assert_eq!(offsets, vec![0, 16, 28, 32, 48]);
    let sizes: Vec<usize> = layouts.iter().map(|f| f.size).collect();
    assert_eq!(sizes, vec![4, 12, 4, 12, 12]);
    assert_eq!(align, 16);
    assert_eq!(size, 64);
}

#[test]
fn std430_struct_packs_tighter() {
    let fields = vec![
        ValueType::Scalar(ScalarKind::F32),
        ValueType::Vector(ScalarKind::F32, 2),
    ];
    let (layouts, size, align) = struct_layout(Dialect::Glsl, Sublayout::Std430, &fields);
    assert_eq!(layouts[0].offset, 0);
    assert_eq!(layouts[1].offset, 8);
    assert_eq!(align, 8);
    assert_eq!(size, 16);
    // std140 floors the struct alignment at 16 even with 8-byte members.
    let fields = vec![
        ValueType::Scalar(ScalarKind::F32),
        ValueType::Vector(ScalarKind::F32, 2),
    ];
    let (_, size, align) = struct_layout(Dialect::Glsl, Sublayout::Std140, &fields);
    assert_eq!(align, 16);
    assert_eq!(size, 16);
}

#[test]
fn try_struct_layout_accepts_and_rejects() {
    let good = vec![
        ValueType::Scalar(ScalarKind::F32),
        ValueType::Vector(ScalarKind::F32, 3),
    ];
    let r = try_struct_layout(Dialect::Glsl, Sublayout::Std140, &good);
    assert!(r.is_some());
    let (layouts, size, align) = r.unwrap();
    assert_eq!(layouts[1].offset, 16);
    assert_eq!(size, 32);
    assert_eq!(align, 16);
    // A five-component vector is no supported type.
    let bad = vec![ValueType::Vector(ScalarKind::F32, 5)];
    assert!(try_struct_layout(Dialect::Glsl, Sublayout::Std140, &bad).is_none());
    // An array too large for any address space.
    let huge = vec![ValueType::Array(
        Box::new(ValueType::Scalar(ScalarKind::F64)),
        usize::MAX / 2,
    )];
    assert!(try_struct_layout(Dialect::Glsl, Sublayout::Std140, &huge).is_none());
}

#[test]
fn vector_constructors() {
    let v = vec2(1u32, 2u32);
    assert_eq!(v.0, [1, 2]);
    let v = vec3(1i32, 2, 3);
    assert_eq!(v.0, [1, 2, 3]);
    let v = vec4(1.0f32, 2.0, 3.0, 4.0);
    assert_eq!(v.0, [1.0, 2.0, 3.0, 4.0]);
}

#[test]
fn matrix_constructors() {
    let m = mat2x2(1u32, 2, 3, 4);
    assert_eq!(m.0, [[1, 2], [3, 4]]);
    let m = mat3(1u32, 2, 3, 4, 5, 6, 7, 8, 9);
    assert_eq!(m.0, [[1, 2, 3], [4, 5, 6], [7, 8, 9]]);
    let m = mat4x4(
        1u32, 2, 3, 4, 5, 6, 7, 8, 9, 10, 11, 12, 13, 14, 15, 16,
    );
    assert_eq!(m.0, [[1, 2, 3, 4], [5, 6, 7, 8], [9, 10, 11, 12], [13, 14, 15, 16]]);
}

#[test]
fn aligned_wrapper_keeps_value() {
    let a: Aligned<Align16, u32> = Aligned::new(7);
    assert_eq!(a.value, 7);
}

#[test]
fn typed_vectors_bridge_to_the_engine() {
    let v: vec3u = vec3(1u32, 2, 3);
    let vv = vector_value_of_u32(&v);
    let bytes = repr_bytes(Dialect::Wgsl, Sublayout::Std140, &Value::Vector(vv));
    let mut want = Vec::new();
    for x in [1u32, 2, 3] {
        want.extend_from_slice(&x.to_le_bytes());
    }
    assert_eq!(bytes, want);
    let b = vec2(true, false);
    let vv = vector_value_of_bool(&b);
    let bytes = repr_bytes(Dialect::Glsl, Sublayout::Std430, &Value::Vector(vv));
    assert_eq!(bytes, vec![1u8, 0]);
}

#[test]
fn half_carries_bits() {
    let h = half(0x3c00);
    assert_eq!(h.0, 0x3c00);
}

#[test]
fn typed_scalar_and_vector_repr_are_identity() {
    let x: u32 = 12345;
    let r = <u32 as ShaderRepr<Wgsl>>::repr(&x);
    assert_eq!(r, 12345);
    let v = vec3(1u32, 2, 3);
    let r = <shader_layout::types::vec3<u32> as ShaderRepr<Wgsl>>::repr(&v);
    assert_eq!(r.0, [1, 2, 3]);
    let b = true;
    let r = <bool as ShaderRepr<Wgsl>>::repr(&b);
    assert!(r);
}
