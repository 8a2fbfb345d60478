//! The wire-byte conversion: scalar round trips, dense vectors, padded
//! matrix columns and array elements, the fast path against the elementwise
//! path, and idempotent re-conversion.

use shader_layout::table::{Dialect, ScalarKind, Sublayout};
use shader_layout::value::{ArrayValue, MatrixValue, ScalarValue, Value, ValueType, VectorValue};
use shader_layout::wire::{
    array_fast_path_ok, array_repr, array_repr_elementwise, array_repr_fast, matrix_repr,
    repr_bytes, scalar_repr, try_repr_bytes, vector_repr,
};

const DIALECTS: [Dialect; 4] = [Dialect::Glsl, Dialect::Wgsl, Dialect::Hlsl, Dialect::Msl];
const SUBLAYOUTS: [Sublayout; 2] = [Sublayout::Std140, Sublayout::Std430];

fn f32_bits(x: f32) -> u64 {
    x.to_bits() as u64
}

fn f64_bits(x: f64) -> u64 {
    x.to_bits()
}

#[test]
fn scalar_round_trip() {
    let samples = [
        ScalarValue { kind: ScalarKind::Bool, bits: 1 },
        ScalarValue { kind: ScalarKind::I32, bits: (-7i32 as u32) as u64 },
        ScalarValue { kind: ScalarKind::U32, bits: 0xdead_beef },
        ScalarValue { kind: ScalarKind::F32, bits: f32_bits(1.5) },
        ScalarValue { kind: ScalarKind::F64, bits: f64_bits(-2.25) },
    ];
    for d in DIALECTS {
        for sub in SUBLAYOUTS {
            for s in samples {
                assert_eq!(scalar_repr(d, sub, &s), s);
            }
        }
    }
}

#[test]
fn scalar_bytes_are_host_bytes() {
    let s = ScalarValue { kind: ScalarKind::F32, bits: f32_bits(1.0) };
    for d in DIALECTS {
        for sub in SUBLAYOUTS {
            let bytes = repr_bytes(d, sub, &Value::Scalar(s));
            assert_eq!(bytes, 1.0f32.to_le_bytes().to_vec());
        }
    }
    let b = ScalarValue { kind: ScalarKind::Bool, bits: 1 };
    assert_eq!(
        repr_bytes(Dialect::Glsl, Sublayout::Std140, &Value::Scalar(b)),
        vec![1u8]
    );
    let d64 = ScalarValue { kind: ScalarKind::F64, bits: f64_bits(3.5) };
    assert_eq!(
        repr_bytes(Dialect::Msl, Sublayout::Std140, &Value::Scalar(d64)),
        3.5f64.to_le_bytes().to_vec()
    );
}

#[test]
fn vector_bytes_are_dense() {
    let v = VectorValue {
        kind: ScalarKind::F32,
        comps: vec![f32_bits(1.0), f32_bits(2.0), f32_bits(3.0)],
    };
    let mut want = Vec::new();
    want.extend_from_slice(&1.0f32.to_le_bytes());
    want.extend_from_slice(&2.0f32.to_le_bytes());
    want.extend_from_slice(&3.0f32.to_le_bytes());
    for d in DIALECTS {
        for sub in SUBLAYOUTS {
            let (_, bytes) = vector_repr(d, sub, &v);
            assert_eq!(bytes, want);
            assert_eq!(repr_bytes(d, sub, &Value::Vector(v_clone(&v))), want);
        }
    }
}

fn v_clone(v: &VectorValue) -> VectorValue {
    VectorValue { kind: v.kind, comps: v.comps.clone() }
}

#[test]
fn vector_alignments_reported() {
    let v2 = VectorValue { kind: ScalarKind::F32, comps: vec![f32_bits(1.0), f32_bits(2.0)] };
    let (a, _) = vector_repr(Dialect::Glsl, Sublayout::Std140, &v2);
    assert_eq!(a, 8);
    let (a, _) = vector_repr(Dialect::Hlsl, Sublayout::Std140, &v2);
    assert_eq!(a, 4);
}

#[test]
fn matrix_columns_are_padded_under_std140() {
    // A 2x2 f32 matrix: each 8-byte column is padded to the 16-byte stride.
    let m = MatrixValue {
        kind: ScalarKind::F32,
        cols: vec![
            vec![f32_bits(1.0), f32_bits(2.0)],
            vec![f32_bits(3.0), f32_bits(4.0)],
        ],
    };
    let (align, bytes) = matrix_repr(Dialect::Glsl, Sublayout::Std140, &m);
    assert_eq!(align, 16);
    assert_eq!(bytes.len(), 32);
    let mut want = Vec::new();
    want.extend_from_slice(&1.0f32.to_le_bytes());
    want.extend_from_slice(&2.0f32.to_le_bytes());
    want.extend_from_slice(&[0u8; 8]);
    want.extend_from_slice(&3.0f32.to_le_bytes());
    want.extend_from_slice(&4.0f32.to_le_bytes());
    want.extend_from_slice(&[0u8; 8]);
    assert_eq!(bytes, want);
}

#[test]
fn matrix_columns_unpadded_under_std430_and_dense_under_hlsl() {
    let m = MatrixValue {
        kind: ScalarKind::F32,
        cols: vec![
            vec![f32_bits(1.0), f32_bits(2.0)],
            vec![f32_bits(3.0), f32_bits(4.0)],
        ],
    };
    let mut dense = Vec::new();
    dense.extend_from_slice(&1.0f32.to_le_bytes());
    dense.extend_from_slice(&2.0f32.to_le_bytes());
    dense.extend_from_slice(&3.0f32.to_le_bytes());
    dense.extend_from_slice(&4.0f32.to_le_bytes());
    let (align, bytes) = matrix_repr(Dialect::Glsl, Sublayout::Std430, &m);
    assert_eq!(align, 8);
    assert_eq!(bytes, dense);
    let (align, bytes) = matrix_repr(Dialect::Hlsl, Sublayout::Std140, &m);
    assert_eq!(align, 4);
    assert_eq!(bytes, dense);
}

fn f32_array(values: &[f32]) -> ArrayValue {
    ArrayValue {
        elem_ty: ValueType::Scalar(ScalarKind::F32),
        elems: values
            .iter()
            .map(|x| Value::Scalar(ScalarValue { kind: ScalarKind::F32, bits: f32_bits(*x) }))
            .collect(),
    }
}

#[test]
fn array_of_scalars_padded_under_std140() {
    let av = f32_array(&[1.0, 2.0]);
    let (align, bytes) = array_repr(Dialect::Glsl, Sublayout::Std140, &av);
    assert_eq!(align, 16);
    assert_eq!(bytes.len(), 32);
    let mut want = Vec::new();
    want.extend_from_slice(&1.0f32.to_le_bytes());
    want.extend_from_slice(&[0u8; 12]);
    want.extend_from_slice(&2.0f32.to_le_bytes());
    want.extend_from_slice(&[0u8; 12]);
    assert_eq!(bytes, want);
}

#[test]
fn array_fast_path_matches_elementwise() {
    // An f32 array under std430 introduces no padding: the fast-path guard
    // holds, and both paths must produce byte-identical output.
    let av = f32_array(&[0.5, -1.25, 3.75, 100.0, -0.0]);
    assert!(array_fast_path_ok(Dialect::Glsl, Sublayout::Std430, &av));
    let fast = array_repr_fast(Dialect::Glsl, Sublayout::Std430, &av);
    let slow = array_repr_elementwise(Dialect::Glsl, Sublayout::Std430, &av);
    assert_eq!(fast, slow);
    assert_eq!(fast.len(), 20);

    // A vector array under WGSL: four-component vectors stay dense too.
    let vecs = ArrayValue {
        elem_ty: ValueType::Vector(ScalarKind::U32, 4),
        elems: (0..3)
            .map(|i| {
                Value::Vector(VectorValue {
                    kind: ScalarKind::U32,
                    comps: vec![i, i + 1, i + 2, i + 3],
                })
            })
            .collect(),
    };
    assert!(array_fast_path_ok(Dialect::Wgsl, Sublayout::Std140, &vecs));
    let fast = array_repr_fast(Dialect::Wgsl, Sublayout::Std140, &vecs);
    let slow = array_repr_elementwise(Dialect::Wgsl, Sublayout::Std140, &vecs);
    assert_eq!(fast, slow);
    assert_eq!(fast.len(), 48);
}

#[test]
fn array_fast_path_guard_rejects_padded_layouts() {
    // Under std140 the same array needs padding, so the guard must refuse.
    let av = f32_array(&[1.0, 2.0]);
    assert!(!array_fast_path_ok(Dialect::Glsl, Sublayout::Std140, &av));
    // A three-component vector element leaves a 4-byte tail gap everywhere
    // but HLSL: stride 16, size 12.
    let vecs = ArrayValue {
        elem_ty: ValueType::Vector(ScalarKind::F32, 3),
        elems: vec![Value::Vector(VectorValue {
            kind: ScalarKind::F32,
            comps: vec![f32_bits(1.0), f32_bits(2.0), f32_bits(3.0)],
        })],
    };
    assert!(!array_fast_path_ok(Dialect::Wgsl, Sublayout::Std140, &vecs));
    assert!(array_fast_path_ok(Dialect::Hlsl, Sublayout::Std140, &vecs));
}

#[test]
fn empty_array_is_legal() {
    let av = ArrayValue { elem_ty: ValueType::Scalar(ScalarKind::F64), elems: Vec::new() };
    let (align, bytes) = array_repr(Dialect::Glsl, Sublayout::Std140, &av);
    assert_eq!(align, 16);
    assert_eq!(bytes.len(), 0);
}

#[test]
fn nested_array_elements_use_inner_stride() {
    // An array of two [f32; 2] arrays under std430: inner stride 4, inner
    // size 8, outer stride 8 — fully dense, but converted elementwise since
    // an array is never its own wire type.
    let inner_ty = ValueType::Array(Box::new(ValueType::Scalar(ScalarKind::F32)), 2);
    let inner = |a: f32, b: f32| {
        Value::Array(f32_array(&[a, b]))
    };
    let av = ArrayValue { elem_ty: inner_ty, elems: vec![inner(1.0, 2.0), inner(3.0, 4.0)] };
    assert!(!array_fast_path_ok(Dialect::Glsl, Sublayout::Std430, &av));
    let (_, bytes) = array_repr(Dialect::Glsl, Sublayout::Std430, &av);
    let mut want = Vec::new();
    for x in [1.0f32, 2.0, 3.0, 4.0] {
        want.extend_from_slice(&x.to_le_bytes());
    }
    assert_eq!(bytes, want);
}

#[test]
fn idempotent_reconversion() {
    // Converting an already-converted value again yields identical results:
    // for scalars and vectors the conversion returns the value unchanged.
    let s = ScalarValue { kind: ScalarKind::U32, bits: 41 };
    for d in DIALECTS {
        for sub in SUBLAYOUTS {
            let once = scalar_repr(d, sub, &s);
            let twice = scalar_repr(d, sub, &once);
            assert_eq!(once, twice);
        }
    }
    let v = VectorValue { kind: ScalarKind::I32, comps: vec![5, 6] };
    let (_, once) = vector_repr(Dialect::Glsl, Sublayout::Std140, &v);
    // The wire value of a vector is the vector itself, so re-converting it is
    // converting the same value again.
    let (_, twice) = vector_repr(Dialect::Glsl, Sublayout::Std140, &v);
    assert_eq!(once, twice);
}

#[test]
fn bool_vector_bytes() {
    let v = VectorValue { kind: ScalarKind::Bool, comps: vec![1, 0, 1] };
    let bytes = repr_bytes(Dialect::Glsl, Sublayout::Std430, &Value::Vector(v));
    assert_eq!(bytes, vec![1u8, 0, 1]);
}

#[test]
fn try_repr_bytes_accepts_and_rejects() {
    let good = Value::Vector(VectorValue { kind: ScalarKind::U32, comps: vec![1, 2] });
    let r = try_repr_bytes(Dialect::Glsl, Sublayout::Std430, &good);
    assert_eq!(r.unwrap(), vec![1u8, 0, 0, 0, 2, 0, 0, 0]);
    // A component pattern wider than the scalar is not a well-formed value.
    let bad = Value::Vector(VectorValue {
        kind: ScalarKind::U32,
        comps: vec![0x1_0000_0000u64, 2],
    });
    assert!(try_repr_bytes(Dialect::Glsl, Sublayout::Std430, &bad).is_none());
    // A one-component vector is no supported shape.
    let bad = Value::Vector(VectorValue { kind: ScalarKind::U32, comps: vec![1] });
    assert!(try_repr_bytes(Dialect::Glsl, Sublayout::Std430, &bad).is_none());
    // A boolean must be 0 or 1.
    let bad = Value::Scalar(ScalarValue { kind: ScalarKind::Bool, bits: 2 });
    assert!(try_repr_bytes(Dialect::Glsl, Sublayout::Std430, &bad).is_none());
}

#[test]
fn typed_entry_point_selects_rules() {
    let av = f32_array(&[1.0, 2.0]);
    let via_markers =
        shader_layout::repr_in::<shader_layout::Glsl, shader_layout::Std430>(&Value::Array(av));
    let av2 = f32_array(&[1.0, 2.0]);
    let direct = repr_bytes(Dialect::Glsl, Sublayout::Std430, &Value::Array(av2));
    assert_eq!(via_markers, direct);
}
