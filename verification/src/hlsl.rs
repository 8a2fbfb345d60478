//! The HLSL rules at the type level: the scalar alignment units and the
//! identity conversions for scalars, vectors and matrices — HLSL keeps
//! vectors and matrices dense at the scalar's own alignment.

use vstd::prelude::*;

use crate::types::mat;
use crate::{Align1, Align2, Align4, Align8, Align16, Hlsl, ShaderRepr, ShaderScalar};

verus! {

/// A `bool` scalar is its own wire representation in every layout.
impl ShaderRepr<Hlsl> for bool {
    type Align = Align1;

    type Repr = bool;

    open spec fn spec_repr(&self) -> bool {
        *self
    }

    fn repr(&self) -> (r: bool) {
        *self
    }
}

impl ShaderScalar<Hlsl> for bool {
    type AlignX2 = Align2;

    type AlignX4 = Align4;
}

/// A `i32` scalar is its own wire representation in every layout.
impl ShaderRepr<Hlsl> for i32 {
    type Align = Align4;

    type Repr = i32;

    open spec fn spec_repr(&self) -> i32 {
        *self
    }

    fn repr(&self) -> (r: i32) {
        *self
    }
}

impl ShaderScalar<Hlsl> for i32 {
    type AlignX2 = Align8;

    type AlignX4 = Align16;
}

/// A `u32` scalar is its own wire representation in every layout.
impl ShaderRepr<Hlsl> for u32 {
    type Align = Align4;

    type Repr = u32;

    open spec fn spec_repr(&self) -> u32 {
        *self
    }

    fn repr(&self) -> (r: u32) {
        *self
    }
}

impl ShaderScalar<Hlsl> for u32 {
    type AlignX2 = Align8;

    type AlignX4 = Align16;
}

/// Under HLSL every vector takes the scalar's own alignment, whatever the
/// component count, and is its own wire representation.
impl<T: ShaderScalar<Hlsl>, const N: usize> ShaderRepr<Hlsl> for crate::types::vec<T, N> {
    type Align = <T as ShaderRepr<Hlsl>>::Align;

    type Repr = crate::types::vec<T, N>;

    open spec fn spec_repr(&self) -> crate::types::vec<T, N> {
        *self
    }

    fn repr(&self) -> (r: crate::types::vec<T, N>) {
        *self
    }
}

/// Under HLSL a matrix maps onto a native dense matrix type: it takes the
/// scalar's own alignment and is its own wire representation.
impl<T: ShaderScalar<Hlsl>, const N: usize, const M: usize> ShaderRepr<Hlsl> for mat<T, N, M> {
    type Align = <T as ShaderRepr<Hlsl>>::Align;

    type Repr = mat<T, N, M>;

    open spec fn spec_repr(&self) -> mat<T, N, M> {
        *self
    }

    fn repr(&self) -> (r: mat<T, N, M>) {
        *self
    }
}

} // verus!
