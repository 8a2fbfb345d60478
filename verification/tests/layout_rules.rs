//! The alignment tables and the derived vector, matrix and array rules, held
//! to the literal values the shading-language specifications mandate.

use shader_layout::layout::{align_of_type, array_stride, matrix_col_stride, wire_size_of};
use shader_layout::table::{
    doubled_align, quadrupled_align, scalar_size, single_align, Dialect, ScalarKind, Sublayout,
};
use shader_layout::value::ValueType;

const DIALECTS: [Dialect; 4] = [Dialect::Glsl, Dialect::Wgsl, Dialect::Hlsl, Dialect::Msl];
const SUBLAYOUTS: [Sublayout; 2] = [Sublayout::Std140, Sublayout::Std430];
const KINDS: [ScalarKind; 5] = [
    ScalarKind::Bool,
    ScalarKind::I32,
    ScalarKind::U32,
    ScalarKind::F32,
    ScalarKind::F64,
];

#[test]
fn alignment_table_fidelity() {
    for d in DIALECTS {
        assert_eq!(single_align(d, ScalarKind::F64), 8);
        assert_eq!(doubled_align(d, ScalarKind::F64), 16);
        assert_eq!(quadrupled_align(d, ScalarKind::F64), 32);
        assert_eq!(single_align(d, ScalarKind::Bool), 1);
        assert_eq!(doubled_align(d, ScalarKind::Bool), 2);
        assert_eq!(quadrupled_align(d, ScalarKind::Bool), 4);
        assert_eq!(single_align(d, ScalarKind::I32), 4);
        assert_eq!(doubled_align(d, ScalarKind::I32), 8);
        assert_eq!(quadrupled_align(d, ScalarKind::I32), 16);
        assert_eq!(single_align(d, ScalarKind::U32), 4);
        assert_eq!(single_align(d, ScalarKind::F32), 4);
        assert_eq!(doubled_align(d, ScalarKind::F32), 8);
        assert_eq!(quadrupled_align(d, ScalarKind::F32), 16);
    }
}

#[test]
fn scalar_sizes() {
    assert_eq!(scalar_size(ScalarKind::Bool), 1);
    assert_eq!(scalar_size(ScalarKind::I32), 4);
    assert_eq!(scalar_size(ScalarKind::U32), 4);
    assert_eq!(scalar_size(ScalarKind::F32), 4);
    assert_eq!(scalar_size(ScalarKind::F64), 8);
}

#[test]
fn vector_alignment_law() {
    for d in DIALECTS {
        for sub in SUBLAYOUTS {
            for k in KINDS {
                for n in [2usize, 3, 4] {
                    let got = align_of_type(d, sub, &ValueType::Vector(k, n));
                    let want = if d == Dialect::Hlsl {
                        single_align(d, k)
                    } else if n == 2 {
                        doubled_align(d, k)
                    } else {
                        quadrupled_align(d, k)
                    };
                    assert_eq!(got, want);
                }
            }
        }
    }
}

#[test]
fn std140_matrix_floor() {
    // A matrix of 64-bit floats with 2-component columns: stride
    // max(16, doubled(f64)) = 16.
    assert_eq!(
        matrix_col_stride(Dialect::Glsl, Sublayout::Std140, ScalarKind::F64, 2),
        16
    );
    // A matrix of 32-bit floats with 3-component columns: stride
    // max(16, quadrupled(f32)) = 16.
    assert_eq!(
        matrix_col_stride(Dialect::Glsl, Sublayout::Std140, ScalarKind::F32, 3),
        16
    );
    // The floor shows: a 2-column f32 matrix would pack at 8 without it.
    assert_eq!(
        matrix_col_stride(Dialect::Glsl, Sublayout::Std140, ScalarKind::F32, 2),
        16
    );
}

#[test]
fn std430_matrix_no_floor() {
    // Under std430 the stride is the raw column alignment: 8, not 16.
    assert_eq!(
        matrix_col_stride(Dialect::Glsl, Sublayout::Std430, ScalarKind::F32, 2),
        8
    );
    assert_eq!(
        matrix_col_stride(Dialect::Glsl, Sublayout::Std430, ScalarKind::F64, 2),
        16
    );
    assert_eq!(
        matrix_col_stride(Dialect::Glsl, Sublayout::Std430, ScalarKind::F32, 3),
        16
    );
}

#[test]
fn array_stride_rounding() {
    let f32_elem = ValueType::Scalar(ScalarKind::F32);
    // std140 rounds a 4-byte element up to a 16-byte stride.
    assert_eq!(
        array_stride(Dialect::Glsl, Sublayout::Std140, &f32_elem),
        16
    );
    // std430 and the non-GLSL dialects keep the natural 4-byte stride.
    assert_eq!(array_stride(Dialect::Glsl, Sublayout::Std430, &f32_elem), 4);
    assert_eq!(array_stride(Dialect::Wgsl, Sublayout::Std140, &f32_elem), 4);
    assert_eq!(array_stride(Dialect::Hlsl, Sublayout::Std140, &f32_elem), 4);
    assert_eq!(array_stride(Dialect::Msl, Sublayout::Std140, &f32_elem), 4);
}

#[test]
fn array_alignment_ignores_count() {
    let empty = ValueType::Array(Box::new(ValueType::Scalar(ScalarKind::F32)), 0);
    let five = ValueType::Array(Box::new(ValueType::Scalar(ScalarKind::F32)), 5);
    assert_eq!(
        align_of_type(Dialect::Glsl, Sublayout::Std140, &empty),
        align_of_type(Dialect::Glsl, Sublayout::Std140, &five)
    );
    assert_eq!(align_of_type(Dialect::Glsl, Sublayout::Std140, &empty), 16);
    assert_eq!(
        wire_size_of(Dialect::Glsl, Sublayout::Std140, &empty),
        0
    );
    assert_eq!(wire_size_of(Dialect::Glsl, Sublayout::Std140, &five), 80);
}

#[test]
fn wire_sizes() {
    // A three-component f32 vector is dense: 12 bytes.
    let v3 = ValueType::Vector(ScalarKind::F32, 3);
    for d in DIALECTS {
        for sub in SUBLAYOUTS {
            assert_eq!(wire_size_of(d, sub, &v3), 12);
        }
    }
    // A 2x2 f32 matrix: two 16-byte columns under std140, two 8-byte columns
    // under std430, dense 16 bytes under HLSL.
    let m22 = ValueType::Matrix(ScalarKind::F32, 2, 2);
    assert_eq!(wire_size_of(Dialect::Glsl, Sublayout::Std140, &m22), 32);
    assert_eq!(wire_size_of(Dialect::Glsl, Sublayout::Std430, &m22), 16);
    assert_eq!(wire_size_of(Dialect::Hlsl, Sublayout::Std140, &m22), 16);
}
