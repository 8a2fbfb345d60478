//! The values the layout engine converts: scalars carried as bit patterns,
//! vectors and matrices of them, and arrays of any layout-capable value.
//!
//! Floating-point scalars are carried as their bit patterns; no layout rule
//! ever alters a scalar's bits, so the engine never needs float arithmetic.

use vstd::prelude::*;

use crate::table::ScalarKind;

verus! {

broadcast use vstd::std_specs::vec::group_vec_axioms, vstd::seq::group_seq_axioms;

/// A scalar value: its kind and its bit pattern, in the low bits.
#[derive(Clone, Copy, Debug, PartialEq, Eq)]
pub struct ScalarValue {
    /// The scalar kind.
    pub kind: ScalarKind,
    /// The bit pattern, in the low `8 * size` bits.
    pub bits: u64,
}

/// A vector value: two to four components of one scalar kind, each carried as
/// a bit pattern.
#[derive(Clone, Debug, PartialEq, Eq)]
pub struct VectorValue {
    /// The scalar kind of every component.
    pub kind: ScalarKind,
    /// The component bit patterns, in order.
    pub comps: Vec<u64>,
}

/// A matrix value: two to four columns, each a column vector of one fixed
/// component count, carried as bit patterns.
#[derive(Clone, Debug, PartialEq, Eq)]
pub struct MatrixValue {
    /// The scalar kind of every entry.
    pub kind: ScalarKind,
    /// The columns, in order; every column has the same length.
    pub cols: Vec<Vec<u64>>,
}

/// The type of a layout-capable value: the shape a host value has, with the
/// scalar kind and the dimensions made explicit.
#[derive(Debug)]
pub enum ValueType {
    /// A lone scalar.
    Scalar(ScalarKind),
    /// A vector of the given component count.
    Vector(ScalarKind, usize),
    /// A matrix of the given column count and components per column.
    Matrix(ScalarKind, usize, usize),
    /// An array of the given element type and length.
    Array(Box<ValueType>, usize),
}

/// An array value: the element type (kept explicitly, so an empty array still
/// has one) and the elements.
#[derive(Debug)]
pub struct ArrayValue {
    /// The type every element has.
    pub elem_ty: ValueType,
    /// The elements, in order.
    pub elems: Vec<Value>,
}

/// A layout-capable value.
#[derive(Debug)]
pub enum Value {
    /// A lone scalar.
    Scalar(ScalarValue),
    /// A vector.
    Vector(VectorValue),
    /// A matrix.
    Matrix(MatrixValue),
    /// An array.
    Array(ArrayValue),
}

/// Whether `bits` fits in the host width of scalar kind `k`.
pub open spec fn scalar_fits(k: ScalarKind, bits: u64) -> bool {
    match k {
        ScalarKind::Bool => bits <= 1,
        ScalarKind::I32 => bits < 0x1_0000_0000,
        ScalarKind::U32 => bits < 0x1_0000_0000,
        ScalarKind::F32 => bits < 0x1_0000_0000,
        ScalarKind::F64 => true,
    }
}

/// Well-formed scalar: the bit pattern fits the kind's width.
pub open spec fn wf_scalar(s: ScalarValue) -> bool {
    scalar_fits(s.kind, s.bits)
}

/// Well-formed vector: two to four components, each fitting the kind.
pub open spec fn wf_vector(v: VectorValue) -> bool {
    &&& 2 <= v.comps@.len() <= 4
    &&& forall|i: int|
        0 <= i < v.comps@.len() ==> scalar_fits(v.kind, #[trigger] v.comps@[i])
}

/// Well-formed matrix: two to four columns, all of one length that is itself
/// two to four, every entry fitting the kind.
pub open spec fn wf_matrix(m: MatrixValue) -> bool {
    &&& 2 <= m.cols@.len() <= 4
    &&& 2 <= m.cols@[0]@.len() <= 4
    &&& forall|i: int|
        0 <= i < m.cols@.len() ==> (#[trigger] m.cols@[i])@.len() == m.cols@[0]@.len()
    &&& forall|i: int, j: int|
        0 <= i < m.cols@.len() && 0 <= j < m.cols@[i]@.len() ==> scalar_fits(
            m.kind,
            #[trigger] m.cols@[i]@[j],
        )
}

/// Well-formed type: vector and matrix dimensions lie in the supported range.
/// Array lengths are unrestricted; an empty array is legal.
pub open spec fn wf_type(t: ValueType) -> bool
    decreases t,
{
    match t {
        ValueType::Scalar(_) => true,
        ValueType::Vector(_, n) => 2 <= n <= 4,
        ValueType::Matrix(_, n, m) => 2 <= n <= 4 && 2 <= m <= 4,
        ValueType::Array(t2, _) => wf_type(*t2),
    }
}

/// The type of a value. Shallow: an array value carries its element type, so
/// no recursion is needed.
pub open spec fn spec_type_of(v: Value) -> ValueType {
    match v {
        Value::Scalar(s) => ValueType::Scalar(s.kind),
        Value::Vector(vv) => ValueType::Vector(vv.kind, vv.comps@.len() as usize),
        Value::Matrix(mv) => ValueType::Matrix(
            mv.kind,
            mv.cols@.len() as usize,
            if mv.cols@.len() > 0 {
                mv.cols@[0]@.len() as usize
            } else {
                0
            },
        ),
        Value::Array(av) => ValueType::Array(Box::new(av.elem_ty), av.elems@.len() as usize),
    }
}

/// Well-formed value: each part is well-formed, and every array element has
/// exactly the array's declared element type.
pub open spec fn wf_value(v: Value) -> bool
    decreases v,
{
    match v {
        Value::Scalar(s) => wf_scalar(s),
        Value::Vector(vv) => wf_vector(vv),
        Value::Matrix(mv) => wf_matrix(mv),
        Value::Array(av) => {
            &&& wf_type(av.elem_ty)
            &&& forall|i: int|
                0 <= i < av.elems@.len() ==> wf_value(#[trigger] av.elems@[i]) && spec_type_of(
                    av.elems@[i],
                ) == av.elem_ty
        },
    }
}

/// Structural equality of two value types.
pub fn types_equal(a: &ValueType, b: &ValueType) -> (r: bool)
    ensures
        r == (*a == *b),
    decreases *a,
{
    match (a, b) {
        (ValueType::Scalar(k1), ValueType::Scalar(k2)) => k1 == k2,
        (ValueType::Vector(k1, n1), ValueType::Vector(k2, n2)) => k1 == k2 && n1 == n2,
        (ValueType::Matrix(k1, n1, m1), ValueType::Matrix(k2, n2, m2)) => k1 == k2 && n1 == n2
            && m1 == m2,
        (ValueType::Array(t1, n1), ValueType::Array(t2, n2)) => n1 == n2 && types_equal(t1, t2),
        _ => false,
    }
}

/// Whether the value's type is exactly `t`.
pub fn value_has_type(v: &Value, t: &ValueType) -> (r: bool)
    ensures
        r == (spec_type_of(*v) == *t),
{
    match (v, t) {
        (Value::Scalar(s), ValueType::Scalar(k)) => s.kind == *k,
        (Value::Vector(vv), ValueType::Vector(k, n)) => vv.kind == *k && vv.comps.len() == *n,
        (Value::Matrix(mv), ValueType::Matrix(k, n, m)) => {
            let m0 = if mv.cols.len() > 0 {
                mv.cols[0].len()
            } else {
                0
            };
            mv.kind == *k && mv.cols.len() == *n && m0 == *m
        },
        (Value::Array(av), ValueType::Array(t2, n)) => av.elems.len() == *n && types_equal(
            &av.elem_ty,
            t2,
        ),
        _ => false,
    }
}

/// Check that a value type is well-formed.
pub fn check_type(t: &ValueType) -> (r: bool)
    ensures
        r == wf_type(*t),
    decreases *t,
{
    match t {
        ValueType::Scalar(_) => true,
        ValueType::Vector(_, n) => 2 <= *n && *n <= 4,
        ValueType::Matrix(_, n, m) => 2 <= *n && *n <= 4 && 2 <= *m && *m <= 4,
        ValueType::Array(t2, _) => check_type(t2),
    }
}

/// Whether `bits` fits in the host width of scalar kind `k`.
fn check_scalar_fits(k: ScalarKind, bits: u64) -> (r: bool)
    ensures
        r == scalar_fits(k, bits),
{
    match k {
        ScalarKind::Bool => bits <= 1,
        ScalarKind::I32 => bits < 0x1_0000_0000,
        ScalarKind::U32 => bits < 0x1_0000_0000,
        ScalarKind::F32 => bits < 0x1_0000_0000,
        ScalarKind::F64 => true,
    }
}

/// Check that every component of a run of scalars fits the kind's width.
fn check_comps_fit(k: ScalarKind, comps: &Vec<u64>) -> (r: bool)
    ensures
        r == forall|i: int| 0 <= i < comps@.len() ==> scalar_fits(k, #[trigger] comps@[i]),
{
    let mut i: usize = 0;
    while i < comps.len()
        invariant
            i <= comps@.len(),
            forall|j: int| 0 <= j < i ==> scalar_fits(k, #[trigger] comps@[j]),
        decreases comps@.len() - i,
    {
        if !check_scalar_fits(k, comps[i]) {
            return false;
        }
        i = i + 1;
    }
    true
}

/// Check that a value is well-formed: its shape lies in the supported range,
/// every bit pattern fits its scalar width, and every array element has the
/// array's declared element type.
#[verifier::rlimit(30)]
pub fn check_value(v: &Value) -> (r: bool)
    ensures
        r == wf_value(*v),
    decreases *v, 1int,
{
    match v {
        Value::Scalar(s) => check_scalar_fits(s.kind, s.bits),
        Value::Vector(vv) => 2 <= vv.comps.len() && vv.comps.len() <= 4 && check_comps_fit(
            vv.kind,
            &vv.comps,
        ),
        Value::Matrix(mv) => check_matrix_value(mv),
        Value::Array(av) => check_array_value(av),
    }
}

/// Check the matrix part of `check_value`: two to four columns of one length
/// that is itself two to four, every entry fitting the kind.
fn check_matrix_value(mv: &MatrixValue) -> (r: bool)
    ensures
        r == wf_matrix(*mv),
{
    if !(2 <= mv.cols.len() && mv.cols.len() <= 4) {
        return false;
    }
    let m = mv.cols[0].len();
    if !(2 <= m && m <= 4) {
        return false;
    }
    let mut i: usize = 0;
    while i < mv.cols.len()
        invariant
            i <= mv.cols@.len(),
            2 <= mv.cols@.len() <= 4,
            m == mv.cols@[0]@.len(),
            2 <= m <= 4,
            forall|j: int|
                0 <= j < i ==> (#[trigger] mv.cols@[j])@.len() == m && forall|l: int|
                    0 <= l < mv.cols@[j]@.len() ==> scalar_fits(
                        mv.kind,
                        #[trigger] mv.cols@[j]@[l],
                    ),
        decreases mv.cols@.len() - i,
    {
        if mv.cols[i].len() != m {
            return false;
        }
        if !check_comps_fit(mv.kind, &mv.cols[i]) {
            return false;
        }
        i = i + 1;
    }
    true
}

/// Check the array part of `check_value`: a well-formed element type, and
/// every element well-formed and of exactly that type.
fn check_array_value(av: &ArrayValue) -> (r: bool)
    ensures
        r == wf_value(Value::Array(*av)),
    decreases *av, 0int,
{
    if !check_type(&av.elem_ty) {
        return false;
    }
    let mut i: usize = 0;
    while i < av.elems.len()
        invariant
            i <= av.elems@.len(),
            wf_type(av.elem_ty),
            forall|j: int|
                0 <= j < i ==> wf_value(#[trigger] av.elems@[j]) && spec_type_of(av.elems@[j])
                    == av.elem_ty,
        decreases av.elems@.len() - i,
    {
        if !check_value(&av.elems[i]) {
            return false;
        }
        if !value_has_type(&av.elems[i], &av.elem_ty) {
            return false;
        }
        i = i + 1;
    }
    true
}

} // verus!
