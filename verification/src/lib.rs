//! Conversion of host values (scalars, vectors, matrices, arrays) into the
//! byte-exact layouts demanded by shading-language uniform and storage
//! buffers: the GLSL `std140` and `std430` packing rules and the layout
//! conventions of WGSL, HLSL and MSL.
//!
//! The layout rules are modelled explicitly: per-dialect scalar alignment
//! tables, derived vector, matrix and array alignments and strides, and a
//! wire-byte encoding whose padding is computed rather than forced through
//! the host compiler's alignment machinery.

use vstd::prelude::*;

pub mod table;
pub mod types;
pub mod glsl;
pub mod wgsl;
pub mod hlsl;
pub mod msl;
pub mod value;
pub mod layout;
pub mod wire;
pub mod reflect;

verus! {

/// The GLSL shading dialect. A zero-size marker type: layout rules are
/// selected per dialect at the type level.
pub struct Glsl;

/// The GLSL `std430` storage-buffer sub-layout marker.
pub struct Std430;

/// The WGSL shading dialect marker.
pub struct Wgsl;

/// The HLSL shading dialect marker.
pub struct Hlsl;

/// The MSL shading dialect marker.
pub struct Msl;

/// The default sub-layout of a dialect; for GLSL this is `std140`.
pub struct DefaultLayout;

/// The GLSL `std140` uniform-buffer sub-layout: the default.
pub type Std140 = DefaultLayout;

/// An alignment unit: a zero-size marker whose sole observable property is
/// the byte alignment it stands for. Composites embed one to record the
/// alignment their layout must carry; the padding itself is computed by the
/// layout engine.
pub trait AlignUnit: Sized {
    /// The byte alignment this unit stands for.
    spec fn alignment() -> nat;

    /// Produce the unit value.
    fn unit() -> Self;
}

/// Alignment unit of 1 byte.
#[derive(Clone, Copy, Debug, PartialEq, Eq)]
pub struct Align1;

/// Alignment unit of 2 bytes.
#[derive(Clone, Copy, Debug, PartialEq, Eq)]
pub struct Align2;

/// Alignment unit of 4 bytes.
#[derive(Clone, Copy, Debug, PartialEq, Eq)]
pub struct Align4;

/// Alignment unit of 8 bytes.
#[derive(Clone, Copy, Debug, PartialEq, Eq)]
pub struct Align8;

/// Alignment unit of 16 bytes.
#[derive(Clone, Copy, Debug, PartialEq, Eq)]
pub struct Align16;

/// Alignment unit of 32 bytes.
#[derive(Clone, Copy, Debug, PartialEq, Eq)]
pub struct Align32;

impl AlignUnit for Align1 {
    open spec fn alignment() -> nat {
        1
    }

    fn unit() -> Self {
        Align1
    }
}

impl AlignUnit for Align2 {
    open spec fn alignment() -> nat {
        2
    }

    fn unit() -> Self {
        Align2
    }
}

impl AlignUnit for Align4 {
    open spec fn alignment() -> nat {
        4
    }

    fn unit() -> Self {
        Align4
    }
}

impl AlignUnit for Align8 {
    open spec fn alignment() -> nat {
        8
    }

    fn unit() -> Self {
        Align8
    }
}

impl AlignUnit for Align16 {
    open spec fn alignment() -> nat {
        16
    }

    fn unit() -> Self {
        Align16
    }
}

impl AlignUnit for Align32 {
    open spec fn alignment() -> nat {
        32
    }

    fn unit() -> Self {
        Align32
    }
}

/// Couples an alignment unit with a value, forcing the pair to be laid out at
/// the unit's alignment while the payload itself is unchanged. The padding
/// this costs is what the layout engine computes: a value wrapped at
/// alignment `a` occupies the least multiple of `a` that holds it (see
/// `layout::lemma_round_up`).
#[derive(Clone, Copy, Debug)]
pub struct Aligned<A, T> {
    /// The alignment unit the pair carries.
    pub align: A,
    /// The payload, unchanged.
    pub value: T,
}

impl<A: AlignUnit, T> Aligned<A, T> {
    /// The byte alignment the wrapper forces: the unit's own, never less.
    pub open spec fn required_alignment() -> nat {
        A::alignment()
    }

    /// Wrap `value` with the alignment unit `A`; the payload is kept as it is.
    pub fn new(value: T) -> (r: Self)
        ensures
            r.value == value,
    {
        Aligned { align: A::unit(), value }
    }
}

/// A dialect marker selects one rule set at the type level; this trait hands
/// the engine the dialect the marker stands for.
pub trait ShaderLang {
    /// The dialect the marker stands for.
    spec fn spec_dialect() -> crate::table::Dialect;

    /// The dialect the marker stands for.
    fn dialect() -> (d: crate::table::Dialect)
        ensures
            d == Self::spec_dialect(),
    ;
}

impl ShaderLang for Glsl {
    open spec fn spec_dialect() -> crate::table::Dialect {
        crate::table::Dialect::Glsl
    }

    fn dialect() -> (d: crate::table::Dialect) {
        crate::table::Dialect::Glsl
    }
}

impl ShaderLang for Wgsl {
    open spec fn spec_dialect() -> crate::table::Dialect {
        crate::table::Dialect::Wgsl
    }

    fn dialect() -> (d: crate::table::Dialect) {
        crate::table::Dialect::Wgsl
    }
}

impl ShaderLang for Hlsl {
    open spec fn spec_dialect() -> crate::table::Dialect {
        crate::table::Dialect::Hlsl
    }

    fn dialect() -> (d: crate::table::Dialect) {
        crate::table::Dialect::Hlsl
    }
}

impl ShaderLang for Msl {
    open spec fn spec_dialect() -> crate::table::Dialect {
        crate::table::Dialect::Msl
    }

    fn dialect() -> (d: crate::table::Dialect) {
        crate::table::Dialect::Msl
    }
}

/// A sub-layout marker selects the layout variant within a dialect at the
/// type level.
pub trait LayoutRule {
    /// The sub-layout the marker stands for.
    spec fn spec_sublayout() -> crate::table::Sublayout;

    /// The sub-layout the marker stands for.
    fn sublayout() -> (s: crate::table::Sublayout)
        ensures
            s == Self::spec_sublayout(),
    ;
}

impl LayoutRule for DefaultLayout {
    open spec fn spec_sublayout() -> crate::table::Sublayout {
        crate::table::Sublayout::Std140
    }

    fn sublayout() -> (s: crate::table::Sublayout) {
        crate::table::Sublayout::Std140
    }
}

impl LayoutRule for Std430 {
    open spec fn spec_sublayout() -> crate::table::Sublayout {
        crate::table::Sublayout::Std430
    }

    fn sublayout() -> (s: crate::table::Sublayout) {
        crate::table::Sublayout::Std430
    }
}

/// The conversion entry point with the dialect and sub-layout chosen at the
/// type level, as callers of the typed interface select them.
pub fn repr_in<Lang: ShaderLang, Layout: LayoutRule>(v: &crate::value::Value) -> (r: Vec<u8>)
    requires
        crate::value::wf_value(*v),
        crate::layout::spec_size_fits(
            Lang::spec_dialect(),
            Layout::spec_sublayout(),
            crate::value::spec_type_of(*v),
        ),
    ensures
        r@ == crate::wire::spec_wire_bytes(Lang::spec_dialect(), Layout::spec_sublayout(), *v),
{
    crate::wire::repr_bytes(Lang::dialect(), Layout::sublayout(), v)
}

/// Trait for types that can be sent to the shaders: per shading language and
/// layout it gives an alignment unit, a wire representation type, and the
/// conversion producing the wire value from `&self`.
pub trait ShaderRepr<Lang, Layout = DefaultLayout> {
    /// Alignment unit for the type: a composite embeds it to carry the
    /// alignment the shading language demands.
    type Align;

    /// Wire representation of the type under `Lang` and `Layout`.
    type Repr;

    /// What the conversion returns.
    spec fn spec_repr(&self) -> Self::Repr;

    /// Create the wire value from `&self`.
    fn repr(&self) -> (r: Self::Repr)
        ensures
            r == self.spec_repr(),
    ;
}

/// Trait for scalar types of the shader languages: their wire representation
/// is themselves in every layout, and they carry the doubled and quadrupled
/// alignment units the vector rules use.
pub trait ShaderScalar<Lang>: ShaderRepr<Lang, Repr = Self> + Copy {
    /// Doubled alignment unit for the type.
    type AlignX2;

    /// Quadrupled alignment unit for the type.
    type AlignX4;
}

/// Trait for emitting the shader-language name and definition of a type, for
/// the optional source-generation facility; purely descriptive, with no
/// bearing on layout.
pub trait CodeGen<Lang> {
    /// Name of the type in the shader language.
    fn name() -> String;

    /// Shader-language definition of the type, for types that need one;
    /// built-in types need none.
    fn definition() -> Option<String>;
}
} // verus!
