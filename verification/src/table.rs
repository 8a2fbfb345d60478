//! The scalar alignment table: per dialect and scalar kind, the alignment of
//! a lone scalar and the widened alignments used by two- and by three- or
//! four-component vectors.

use vstd::prelude::*;

verus! {

/// A shading dialect whose layout rules the engine applies.
#[derive(Clone, Copy, PartialEq, Eq, Structural, Debug)]
pub enum Dialect {
    /// GLSL, with the `std140` and `std430` sub-layouts.
    Glsl,
    /// WGSL.
    Wgsl,
    /// HLSL.
    Hlsl,
    /// MSL.
    Msl,
}

/// A sub-layout within a dialect. Only GLSL distinguishes the two; the other
/// dialects ignore the choice.
#[derive(Clone, Copy, PartialEq, Eq, Structural, Debug)]
pub enum Sublayout {
    /// The uniform-buffer rules (`std140` for GLSL): array elements and
    /// matrix columns are padded to 16-byte strides.
    Std140,
    /// The storage-buffer rules (`std430` for GLSL): no 16-byte floor.
    Std430,
}

/// A scalar kind that may appear at the GPU boundary.
#[derive(Clone, Copy, PartialEq, Eq, Structural, Debug)]
pub enum ScalarKind {
    /// A boolean, one byte on the host.
    Bool,
    /// A 32-bit signed integer.
    I32,
    /// A 32-bit unsigned integer.
    U32,
    /// A 32-bit float.
    F32,
    /// A 64-bit float.
    F64,
}

/// Host byte size of a scalar of the given kind.
pub open spec fn spec_scalar_size(k: ScalarKind) -> nat {
    match k {
        ScalarKind::Bool => 1,
        ScalarKind::I32 => 4,
        ScalarKind::U32 => 4,
        ScalarKind::F32 => 4,
        ScalarKind::F64 => 8,
    }
}

/// Alignment of a lone scalar. Every supported dialect mandates the same
/// nominal scalar alignments; the dialects differ only in the vector, matrix
/// and array rules built on top of them.
pub open spec fn spec_single_align(d: Dialect, k: ScalarKind) -> nat {
    match k {
        ScalarKind::Bool => 1,
        ScalarKind::I32 => 4,
        ScalarKind::U32 => 4,
        ScalarKind::F32 => 4,
        ScalarKind::F64 => 8,
    }
}

/// Alignment of a scalar doubled: the alignment a two-component vector takes.
pub open spec fn spec_doubled_align(d: Dialect, k: ScalarKind) -> nat {
    match k {
        ScalarKind::Bool => 2,
        ScalarKind::I32 => 8,
        ScalarKind::U32 => 8,
        ScalarKind::F32 => 8,
        ScalarKind::F64 => 16,
    }
}

/// Alignment of a scalar quadrupled: the alignment a three- or four-component
/// vector takes.
pub open spec fn spec_quadrupled_align(d: Dialect, k: ScalarKind) -> nat {
    match k {
        ScalarKind::Bool => 4,
        ScalarKind::I32 => 16,
        ScalarKind::U32 => 16,
        ScalarKind::F32 => 16,
        ScalarKind::F64 => 32,
    }
}

/// Host byte size of a scalar of the given kind.
pub fn scalar_size(k: ScalarKind) -> (r: usize)
    ensures
        r == spec_scalar_size(k),
{
    match k {
        ScalarKind::Bool => 1,
        ScalarKind::I32 => 4,
        ScalarKind::U32 => 4,
        ScalarKind::F32 => 4,
        ScalarKind::F64 => 8,
    }
}

/// Alignment of a lone scalar under the given dialect.
pub fn single_align(d: Dialect, k: ScalarKind) -> (r: usize)
    ensures
        r == spec_single_align(d, k),
{
    match k {
        ScalarKind::Bool => 1,
        ScalarKind::I32 => 4,
        ScalarKind::U32 => 4,
        ScalarKind::F32 => 4,
        ScalarKind::F64 => 8,
    }
}

/// Doubled alignment of a scalar under the given dialect.
pub fn doubled_align(d: Dialect, k: ScalarKind) -> (r: usize)
    ensures
        r == spec_doubled_align(d, k),
{
    match k {
        ScalarKind::Bool => 2,
        ScalarKind::I32 => 8,
        ScalarKind::U32 => 8,
        ScalarKind::F32 => 8,
        ScalarKind::F64 => 16,
    }
}

/// Quadrupled alignment of a scalar under the given dialect.
pub fn quadrupled_align(d: Dialect, k: ScalarKind) -> (r: usize)
    ensures
        r == spec_quadrupled_align(d, k),
{
    match k {
        ScalarKind::Bool => 4,
        ScalarKind::I32 => 16,
        ScalarKind::U32 => 16,
        ScalarKind::F32 => 16,
        ScalarKind::F64 => 32,
    }
}

/// The alignment table holds the values the shading-language specifications
/// mandate, for every dialect and kind: a boolean at 1/2/4, the 32-bit
/// scalars at 4/8/16, a 64-bit float at 8/16/32 — the doubled and quadrupled
/// entries are exactly two and four times the scalar's lone alignment.
pub proof fn lemma_alignment_table(d: Dialect, k: ScalarKind)
    ensures
        spec_doubled_align(d, k) == 2 * spec_single_align(d, k),
        spec_quadrupled_align(d, k) == 4 * spec_single_align(d, k),
        k == ScalarKind::Bool ==> spec_single_align(d, k) == 1,
        k == ScalarKind::I32 || k == ScalarKind::U32 || k == ScalarKind::F32
            ==> spec_single_align(d, k) == 4,
        k == ScalarKind::F64 ==> spec_single_align(d, k) == 8,
        1 <= spec_single_align(d, k) <= 8,
        spec_quadrupled_align(d, k) <= 32,
{
}

} // verus!
