//! The GLSL rules at the type level: the scalar alignment units and the
//! identity conversions for scalars and vectors, generic over the `std140`
//! and `std430` sub-layouts, which agree on everything but matrices and
//! arrays.

use vstd::prelude::*;

use crate::{Align1, Align2, Align4, Align8, Align16, Glsl, ShaderRepr, ShaderScalar};

verus! {

/// A `bool` scalar is its own wire representation in every layout.
impl<Layout> ShaderRepr<Glsl, Layout> for bool {
    type Align = Align1;

    type Repr = bool;

    open spec fn spec_repr(&self) -> bool {
        *self
    }

    fn repr(&self) -> (r: bool) {
        *self
    }
}

impl ShaderScalar<Glsl> for bool {
    type AlignX2 = Align2;

    type AlignX4 = Align4;
}

/// A `i32` scalar is its own wire representation in every layout.
impl<Layout> ShaderRepr<Glsl, Layout> for i32 {
    type Align = Align4;

    type Repr = i32;

    open spec fn spec_repr(&self) -> i32 {
        *self
    }

    fn repr(&self) -> (r: i32) {
        *self
    }
}

impl ShaderScalar<Glsl> for i32 {
    type AlignX2 = Align8;

    type AlignX4 = Align16;
}

/// A `u32` scalar is its own wire representation in every layout.
impl<Layout> ShaderRepr<Glsl, Layout> for u32 {
    type Align = Align4;

    type Repr = u32;

    open spec fn spec_repr(&self) -> u32 {
        *self
    }

    fn repr(&self) -> (r: u32) {
        *self
    }
}

impl ShaderScalar<Glsl> for u32 {
    type AlignX2 = Align8;

    type AlignX4 = Align16;
}

/// A vector is its own wire representation; two-component vectors take the scalar's doubled alignment.
impl<T: ShaderScalar<Glsl>, Layout> ShaderRepr<Glsl, Layout> for crate::types::vec<T, 2> {
    type Align = <T as ShaderScalar<Glsl>>::AlignX2;

    type Repr = crate::types::vec<T, 2>;

    open spec fn spec_repr(&self) -> crate::types::vec<T, 2> {
        *self
    }

    fn repr(&self) -> (r: crate::types::vec<T, 2>) {
        *self
    }
}

/// A vector is its own wire representation; three-component vectors take the scalar's quadrupled alignment.
impl<T: ShaderScalar<Glsl>, Layout> ShaderRepr<Glsl, Layout> for crate::types::vec<T, 3> {
    type Align = <T as ShaderScalar<Glsl>>::AlignX4;

    type Repr = crate::types::vec<T, 3>;

    open spec fn spec_repr(&self) -> crate::types::vec<T, 3> {
        *self
    }

    fn repr(&self) -> (r: crate::types::vec<T, 3>) {
        *self
    }
}

/// A vector is its own wire representation; four-component vectors take the scalar's quadrupled alignment.
impl<T: ShaderScalar<Glsl>, Layout> ShaderRepr<Glsl, Layout> for crate::types::vec<T, 4> {
    type Align = <T as ShaderScalar<Glsl>>::AlignX4;

    type Repr = crate::types::vec<T, 4>;

    open spec fn spec_repr(&self) -> crate::types::vec<T, 4> {
        *self
    }

    fn repr(&self) -> (r: crate::types::vec<T, 4>) {
        *self
    }
}

} // verus!
