//! Host-side value types shared by every dialect: a 16-bit float carrier, the
//! generic fixed-size vector and matrix, and the usual constructor helpers.

#![allow(non_camel_case_types)]

use vstd::prelude::*;

use crate::table::ScalarKind;
use crate::value::VectorValue;

verus! {

/// A 16-bit floating point value, carried as its bit pattern.
#[derive(Clone, Copy, Debug, PartialEq, Eq)]
pub struct half(pub u16);

/// A fixed-size vector of `N` scalars, densely packed as on the GPU.
#[derive(Clone, Copy, Debug)]
pub struct vec<T, const N: usize>(pub [T; N]);

/// A matrix of `N` columns, each an `M`-component vector, densely packed.
#[derive(Clone, Copy, Debug)]
pub struct mat<T, const N: usize, const M: usize>(pub [[T; M]; N]);

/// Two-component vector.
pub type vec2<T> = vec<T, 2>;

/// Three-component vector.
pub type vec3<T> = vec<T, 3>;

/// Four-component vector.
pub type vec4<T> = vec<T, 4>;

/// Build a two-component vector.
pub fn vec2<T>(x: T, y: T) -> (r: vec2<T>)
    ensures
        r.0@ == seq![x, y],
{
    let r = vec([x, y]);
    proof {
        assert(r.0@ =~= seq![x, y]);
    }
    r
}

/// Build a three-component vector.
pub fn vec3<T>(x: T, y: T, z: T) -> (r: vec3<T>)
    ensures
        r.0@ == seq![x, y, z],
{
    let r = vec([x, y, z]);
    proof {
        assert(r.0@ =~= seq![x, y, z]);
    }
    r
}

/// Build a four-component vector.
pub fn vec4<T>(x: T, y: T, z: T, w: T) -> (r: vec4<T>)
    ensures
        r.0@ == seq![x, y, z, w],
{
    let r = vec([x, y, z, w]);
    proof {
        assert(r.0@ =~= seq![x, y, z, w]);
    }
    r
}

/// Two-component boolean vector.
pub type vec2b = vec<bool, 2>;

/// Three-component boolean vector.
pub type vec3b = vec<bool, 3>;

/// Four-component boolean vector.
pub type vec4b = vec<bool, 4>;

/// Two-component unsigned-integer vector.
pub type vec2u = vec<u32, 2>;

/// Three-component unsigned-integer vector.
pub type vec3u = vec<u32, 3>;

/// Four-component unsigned-integer vector.
pub type vec4u = vec<u32, 4>;

/// Two-component signed-integer vector.
pub type vec2i = vec<i32, 2>;

/// Three-component signed-integer vector.
pub type vec3i = vec<i32, 3>;

/// Four-component signed-integer vector.
pub type vec4i = vec<i32, 4>;

/// Two-component vector of 16-bit floats.
pub type vec2h = vec<half, 2>;

/// Three-component vector of 16-bit floats.
pub type vec3h = vec<half, 3>;

/// Four-component vector of 16-bit floats.
pub type vec4h = vec<half, 4>;

/// 2x2 matrix.
pub type mat2x2<T> = mat<T, 2, 2>;

/// Matrix of 2 columns of 3 components.
pub type mat2x3<T> = mat<T, 2, 3>;

/// Matrix of 2 columns of 4 components.
pub type mat2x4<T> = mat<T, 2, 4>;

/// Matrix of 3 columns of 2 components.
pub type mat3x2<T> = mat<T, 3, 2>;

/// 3x3 matrix.
pub type mat3x3<T> = mat<T, 3, 3>;

/// Matrix of 3 columns of 4 components.
pub type mat3x4<T> = mat<T, 3, 4>;

/// Matrix of 4 columns of 2 components.
pub type mat4x2<T> = mat<T, 4, 2>;

/// Matrix of 4 columns of 3 components.
pub type mat4x3<T> = mat<T, 4, 3>;

/// 4x4 matrix.
pub type mat4x4<T> = mat<T, 4, 4>;

/// Short-hand for `mat2x2`.
pub type mat2<T> = mat2x2<T>;

/// Short-hand for `mat3x3`.
pub type mat3<T> = mat3x3<T>;

/// Short-hand for `mat4x4`.
pub type mat4<T> = mat4x4<T>;

/// Build a 2x2 matrix from its entries, column by column.
pub fn mat2x2<T>(m00: T, m01: T, m10: T, m11: T) -> (r: mat2x2<T>)
    ensures
        r.0@.len() == 2,
        r.0@[0]@ == seq![m00, m01],
        r.0@[1]@ == seq![m10, m11],
{
    let r = mat([[m00, m01], [m10, m11]]);
    proof {
        assert(r.0@[0]@ =~= seq![m00, m01]);
        assert(r.0@[1]@ =~= seq![m10, m11]);
    }
    r
}

/// Build a matrix of 2 columns of 3 components, column by column.
pub fn mat2x3<T>(m00: T, m01: T, m02: T, m10: T, m11: T, m12: T) -> (r: mat2x3<T>)
    ensures
        r.0@.len() == 2,
        r.0@[0]@ == seq![m00, m01, m02],
        r.0@[1]@ == seq![m10, m11, m12],
{
    let r = mat([[m00, m01, m02], [m10, m11, m12]]);
    proof {
        assert(r.0@[0]@ =~= seq![m00, m01, m02]);
        assert(r.0@[1]@ =~= seq![m10, m11, m12]);
    }
    r
}

/// Build a matrix of 2 columns of 4 components, column by column.
pub fn mat2x4<T>(m00: T, m01: T, m02: T, m03: T, m10: T, m11: T, m12: T, m13: T) -> (r: mat2x4<
    T,
>)
    ensures
        r.0@.len() == 2,
        r.0@[0]@ == seq![m00, m01, m02, m03],
        r.0@[1]@ == seq![m10, m11, m12, m13],
{
    let r = mat([[m00, m01, m02, m03], [m10, m11, m12, m13]]);
    proof {
        assert(r.0@[0]@ =~= seq![m00, m01, m02, m03]);
        assert(r.0@[1]@ =~= seq![m10, m11, m12, m13]);
    }
    r
}

/// Build a matrix of 3 columns of 2 components, column by column.
pub fn mat3x2<T>(m00: T, m01: T, m10: T, m11: T, m20: T, m21: T) -> (r: mat3x2<T>)
    ensures
        r.0@.len() == 3,
        r.0@[0]@ == seq![m00, m01],
        r.0@[1]@ == seq![m10, m11],
        r.0@[2]@ == seq![m20, m21],
{
    let r = mat([[m00, m01], [m10, m11], [m20, m21]]);
    proof {
        assert(r.0@[0]@ =~= seq![m00, m01]);
        assert(r.0@[1]@ =~= seq![m10, m11]);
        assert(r.0@[2]@ =~= seq![m20, m21]);
    }
    r
}

/// Build a 3x3 matrix from its entries, column by column.
pub fn mat3x3<T>(
    m00: T,
    m01: T,
    m02: T,
    m10: T,
    m11: T,
    m12: T,
    m20: T,
    m21: T,
    m22: T,
) -> (r: mat3x3<T>)
    ensures
        r.0@.len() == 3,
        r.0@[0]@ == seq![m00, m01, m02],
        r.0@[1]@ == seq![m10, m11, m12],
        r.0@[2]@ == seq![m20, m21, m22],
{
    let r = mat([[m00, m01, m02], [m10, m11, m12], [m20, m21, m22]]);
    proof {
        assert(r.0@[0]@ =~= seq![m00, m01, m02]);
        assert(r.0@[1]@ =~= seq![m10, m11, m12]);
        assert(r.0@[2]@ =~= seq![m20, m21, m22]);
    }
    r
}

/// Build a matrix of 3 columns of 4 components, column by column.
pub fn mat3x4<T>(
    m00: T,
    m01: T,
    m02: T,
    m03: T,
    m10: T,
    m11: T,
    m12: T,
    m13: T,
    m20: T,
    m21: T,
    m22: T,
    m23: T,
) -> (r: mat3x4<T>)
    ensures
        r.0@.len() == 3,
        r.0@[0]@ == seq![m00, m01, m02, m03],
        r.0@[1]@ == seq![m10, m11, m12, m13],
        r.0@[2]@ == seq![m20, m21, m22, m23],
{
    let r = mat([[m00, m01, m02, m03], [m10, m11, m12, m13], [m20, m21, m22, m23]]);
    proof {
        assert(r.0@[0]@ =~= seq![m00, m01, m02, m03]);
        assert(r.0@[1]@ =~= seq![m10, m11, m12, m13]);
        assert(r.0@[2]@ =~= seq![m20, m21, m22, m23]);
    }
    r
}

/// Build a matrix of 4 columns of 2 components, column by column.
pub fn mat4x2<T>(m00: T, m01: T, m10: T, m11: T, m20: T, m21: T, m30: T, m31: T) -> (r: mat4x2<
    T,
>)
    ensures
        r.0@.len() == 4,
        r.0@[0]@ == seq![m00, m01],
        r.0@[1]@ == seq![m10, m11],
        r.0@[2]@ == seq![m20, m21],
        r.0@[3]@ == seq![m30, m31],
{
    let r = mat([[m00, m01], [m10, m11], [m20, m21], [m30, m31]]);
    proof {
        assert(r.0@[0]@ =~= seq![m00, m01]);
        assert(r.0@[1]@ =~= seq![m10, m11]);
        assert(r.0@[2]@ =~= seq![m20, m21]);
        assert(r.0@[3]@ =~= seq![m30, m31]);
    }
    r
}

/// Build a matrix of 4 columns of 3 components, column by column.
pub fn mat4x3<T>(
    m00: T,
    m01: T,
    m02: T,
    m10: T,
    m11: T,
    m12: T,
    m20: T,
    m21: T,
    m22: T,
    m30: T,
    m31: T,
    m32: T,
) -> (r: mat4x3<T>)
    ensures
        r.0@.len() == 4,
        r.0@[0]@ == seq![m00, m01, m02],
        r.0@[1]@ == seq![m10, m11, m12],
        r.0@[2]@ == seq![m20, m21, m22],
        r.0@[3]@ == seq![m30, m31, m32],
{
    let r = mat([[m00, m01, m02], [m10, m11, m12], [m20, m21, m22], [m30, m31, m32]]);
    proof {
        assert(r.0@[0]@ =~= seq![m00, m01, m02]);
        assert(r.0@[1]@ =~= seq![m10, m11, m12]);
        assert(r.0@[2]@ =~= seq![m20, m21, m22]);
        assert(r.0@[3]@ =~= seq![m30, m31, m32]);
    }
    r
}

/// Build a 4x4 matrix from its entries, column by column.
pub fn mat4x4<T>(
    m00: T,
    m01: T,
    m02: T,
    m03: T,
    m10: T,
    m11: T,
    m12: T,
    m13: T,
    m20: T,
    m21: T,
    m22: T,
    m23: T,
    m30: T,
    m31: T,
    m32: T,
    m33: T,
) -> (r: mat4x4<T>)
    ensures
        r.0@.len() == 4,
        r.0@[0]@ == seq![m00, m01, m02, m03],
        r.0@[1]@ == seq![m10, m11, m12, m13],
        r.0@[2]@ == seq![m20, m21, m22, m23],
        r.0@[3]@ == seq![m30, m31, m32, m33],
{
    let r = mat(
        [
            [m00, m01, m02, m03],
            [m10, m11, m12, m13],
            [m20, m21, m22, m23],
            [m30, m31, m32, m33],
        ],
    );
    proof {
        assert(r.0@[0]@ =~= seq![m00, m01, m02, m03]);
        assert(r.0@[1]@ =~= seq![m10, m11, m12, m13]);
        assert(r.0@[2]@ =~= seq![m20, m21, m22, m23]);
        assert(r.0@[3]@ =~= seq![m30, m31, m32, m33]);
    }
    r
}

/// Build a 2x2 matrix: short-hand for `mat2x2`.
pub fn mat2<T>(m00: T, m01: T, m10: T, m11: T) -> (r: mat2<T>)
    ensures
        r.0@.len() == 2,
        r.0@[0]@ == seq![m00, m01],
        r.0@[1]@ == seq![m10, m11],
{
    mat2x2(m00, m01, m10, m11)
}

/// Build a 3x3 matrix: short-hand for `mat3x3`.
pub fn mat3<T>(
    m00: T,
    m01: T,
    m02: T,
    m10: T,
    m11: T,
    m12: T,
    m20: T,
    m21: T,
    m22: T,
) -> (r: mat3<T>)
    ensures
        r.0@.len() == 3,
        r.0@[0]@ == seq![m00, m01, m02],
        r.0@[1]@ == seq![m10, m11, m12],
        r.0@[2]@ == seq![m20, m21, m22],
{
    mat3x3(m00, m01, m02, m10, m11, m12, m20, m21, m22)
}

/// Build a 4x4 matrix: short-hand for `mat4x4`.
pub fn mat4<T>(
    m00: T,
    m01: T,
    m02: T,
    m03: T,
    m10: T,
    m11: T,
    m12: T,
    m13: T,
    m20: T,
    m21: T,
    m22: T,
    m23: T,
    m30: T,
    m31: T,
    m32: T,
    m33: T,
) -> (r: mat4<T>)
    ensures
        r.0@.len() == 4,
        r.0@[0]@ == seq![m00, m01, m02, m03],
        r.0@[1]@ == seq![m10, m11, m12, m13],
        r.0@[2]@ == seq![m20, m21, m22, m23],
        r.0@[3]@ == seq![m30, m31, m32, m33],
{
    mat4x4(
        m00,
        m01,
        m02,
        m03,
        m10,
        m11,
        m12,
        m13,
        m20,
        m21,
        m22,
        m23,
        m30,
        m31,
        m32,
        m33,
    )
}

/// The engine's view of an unsigned-integer vector: the same components as
/// bit patterns.
pub fn vector_value_of_u32<const N: usize>(v: &vec<u32, N>) -> (r: VectorValue)
    ensures
        r.kind == ScalarKind::U32,
        r.comps@.len() == N,
        forall|i: int| 0 <= i < N ==> r.comps@[i] == v.0@[i],
{
    let mut comps: Vec<u64> = Vec::new();
    let mut i: usize = 0;
    while i < N
        invariant
            i <= N,
            comps@.len() == i,
            forall|j: int| 0 <= j < i ==> comps@[j] == v.0@[j],
        decreases N - i,
    {
        comps.push(v.0[i] as u64);
        i = i + 1;
    }
    VectorValue { kind: ScalarKind::U32, comps }
}

/// The engine's view of a boolean vector: each component as the byte 0 or 1.
pub fn vector_value_of_bool<const N: usize>(v: &vec<bool, N>) -> (r: VectorValue)
    ensures
        r.kind == ScalarKind::Bool,
        r.comps@.len() == N,
        forall|i: int| 0 <= i < N ==> r.comps@[i] == (if v.0@[i] { 1u64 } else { 0u64 }),
{
    let mut comps: Vec<u64> = Vec::new();
    let mut i: usize = 0;
    while i < N
        invariant
            i <= N,
            comps@.len() == i,
            forall|j: int| 0 <= j < i ==> comps@[j] == (if v.0@[j] { 1u64 } else { 0u64 }),
        decreases N - i,
    {
        let b: u64 = if v.0[i] {
            1
        } else {
            0
        };
        comps.push(b);
        i = i + 1;
    }
    VectorValue { kind: ScalarKind::Bool, comps }
}
} // verus!
