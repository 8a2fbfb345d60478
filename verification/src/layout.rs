//! The layout rules: the alignment a value type must carry under a dialect
//! and sub-layout, the stride of matrix columns and of array elements, and
//! the total wire size of a converted value.

use vstd::prelude::*;

use crate::table::{
    Dialect, ScalarKind, Sublayout, doubled_align, lemma_alignment_table, quadrupled_align,
    scalar_size, single_align, spec_doubled_align, spec_quadrupled_align, spec_scalar_size,
    spec_single_align,
};
use crate::value::{ValueType, wf_type};

verus! {

broadcast use vstd::std_specs::vec::group_vec_axioms, vstd::seq::group_seq_axioms;

/// The larger of two alignments.
pub open spec fn align_max(a: nat, b: nat) -> nat {
    if a >= b {
        a
    } else {
        b
    }
}

/// The least multiple of `a` that is at least `x`.
pub open spec fn spec_round_up(x: nat, a: nat) -> nat
    recommends
        a >= 1,
{
    (((x + a - 1) as int / a as int) * a as int) as nat
}

/// Rounding up lands on a multiple of `a`, within `a - 1` bytes above `x`,
/// and on no multiple earlier than the first one at or above `x`.
pub proof fn lemma_round_up(x: nat, a: nat)
    requires
        a >= 1,
    ensures
        x <= spec_round_up(x, a) <= x + a - 1,
        spec_round_up(x, a) % a == 0,
        forall|y: nat| #[trigger] (y % a) == 0 && y >= x ==> y >= spec_round_up(x, a),
{
    let yv = (x + a - 1) as int;
    let ai = a as int;
    let q = yv / ai;
    vstd::arithmetic::div_mod::lemma_fundamental_div_mod(yv, ai);
    vstd::arithmetic::div_mod::lemma_mod_division_less_than_divisor(yv, ai);
    vstd::arithmetic::div_mod::lemma_mod_multiples_basic(q, ai);
    let r = spec_round_up(x, a);
    assert(r == q * ai);
    assert(r == yv - yv % ai);
    assert(x <= r <= x + a - 1);
    assert forall|y: nat| #[trigger] (y % a) == 0 && y >= x implies y >= r by {
        if y < r {
            vstd::arithmetic::div_mod::lemma_fundamental_div_mod(y as int, ai);
            let qy = y as int / ai;
            assert(y == qy * ai);
            assert(qy * ai < q * ai);
            assert(qy < q) by (nonlinear_arith)
                requires
                    qy * ai < q * ai,
                    ai > 0,
            ;
            assert((qy + 1) * ai <= q * ai) by (nonlinear_arith)
                requires
                    qy + 1 <= q,
                    ai > 0,
            ;
            assert((qy + 1) * ai == qy * ai + ai) by (nonlinear_arith);
            assert(y + a <= r);
            assert(y < x);
        }
    }
}

/// Round `x` up to the next multiple of `a`.
pub fn round_up(x: usize, a: usize) -> (r: usize)
    requires
        a >= 1,
        x + a - 1 <= usize::MAX,
    ensures
        r == spec_round_up(x as nat, a as nat),
        x <= r <= x + a - 1,
        r % a == 0,
{
    proof {
        lemma_round_up(x as nat, a as nat);
    }
    ((x + (a - 1)) / a) * a
}

/// The alignment a vector of `n` components of kind `k` must carry: the
/// doubled scalar alignment for two components and the quadrupled one for
/// three or four — except under HLSL, where every vector takes the scalar's
/// own alignment.
pub open spec fn spec_vector_align(d: Dialect, k: ScalarKind, n: usize) -> nat
    recommends
        2 <= n <= 4,
{
    if d == Dialect::Hlsl {
        spec_single_align(d, k)
    } else if n == 2 {
        spec_doubled_align(d, k)
    } else {
        spec_quadrupled_align(d, k)
    }
}

/// The alignment a matrix with `m`-component columns must carry. Each column
/// aligns as an `m`-component vector; under GLSL `std140` the whole matrix is
/// floored at 16 bytes; HLSL keeps the matrix dense at the scalar's own
/// alignment.
pub open spec fn spec_matrix_align(d: Dialect, sub: Sublayout, k: ScalarKind, m: usize) -> nat
    recommends
        2 <= m <= 4,
{
    if d == Dialect::Hlsl {
        spec_single_align(d, k)
    } else if d == Dialect::Glsl && sub == Sublayout::Std140 {
        align_max(16, spec_vector_align(d, k, m))
    } else {
        spec_vector_align(d, k, m)
    }
}

/// The alignment a value of type `t` must carry under the given dialect and
/// sub-layout. An array aligns as one of its elements, floored at 16 bytes
/// under GLSL `std140`; the element count plays no part.
pub open spec fn spec_align_of(d: Dialect, sub: Sublayout, t: ValueType) -> nat
    decreases t,
{
    match t {
        ValueType::Scalar(k) => spec_single_align(d, k),
        ValueType::Vector(k, n) => spec_vector_align(d, k, n),
        ValueType::Matrix(k, _, m) => spec_matrix_align(d, sub, k, m),
        ValueType::Array(t2, _) => {
            if d == Dialect::Glsl && sub == Sublayout::Std140 {
                align_max(16, spec_align_of(d, sub, *t2))
            } else {
                spec_align_of(d, sub, *t2)
            }
        },
    }
}

/// The stride of one matrix column: the column's bytes rounded up to the
/// matrix alignment. HLSL matrices are dense, so there the stride is the
/// column's own size.
pub open spec fn spec_matrix_col_stride(
    d: Dialect,
    sub: Sublayout,
    k: ScalarKind,
    m: usize,
) -> nat
    recommends
        2 <= m <= 4,
{
    if d == Dialect::Hlsl {
        (m as nat) * spec_scalar_size(k)
    } else {
        spec_round_up((m as nat) * spec_scalar_size(k), spec_matrix_align(d, sub, k, m))
    }
}

/// The wire size of a value of type `t`: scalars and vectors are dense;
/// matrices occupy one column stride per column; arrays one element stride
/// per element.
pub open spec fn spec_wire_size(d: Dialect, sub: Sublayout, t: ValueType) -> nat
    decreases t,
{
    match t {
        ValueType::Scalar(k) => spec_scalar_size(k),
        ValueType::Vector(k, n) => (n as nat) * spec_scalar_size(k),
        ValueType::Matrix(k, n, m) => (n as nat) * spec_matrix_col_stride(d, sub, k, m),
        ValueType::Array(t2, n) => (n as nat) * spec_round_up(
            spec_wire_size(d, sub, *t2),
            spec_align_of(d, sub, ValueType::Array(t2, n)),
        ),
    }
}

/// The effective alignment of an element of an array of `t2`: the element's
/// own alignment, rounded up to a multiple of 16 under GLSL `std140`.
pub open spec fn spec_array_elem_align(d: Dialect, sub: Sublayout, t2: ValueType) -> nat {
    if d == Dialect::Glsl && sub == Sublayout::Std140 {
        align_max(16, spec_align_of(d, sub, t2))
    } else {
        spec_align_of(d, sub, t2)
    }
}

/// The stride of one element of an array of `t2`.
pub open spec fn spec_array_stride(d: Dialect, sub: Sublayout, t2: ValueType) -> nat {
    spec_round_up(spec_wire_size(d, sub, t2), spec_array_elem_align(d, sub, t2))
}

/// An array's alignment is the effective alignment of one of its elements,
/// and its wire size is one stride per element, whatever the count — an empty
/// array still aligns as one element would.
pub proof fn lemma_array_layout(d: Dialect, sub: Sublayout, t2: ValueType, n: usize)
    ensures
        spec_align_of(d, sub, ValueType::Array(Box::new(t2), n)) == spec_array_elem_align(
            d,
            sub,
            t2,
        ),
        spec_wire_size(d, sub, ValueType::Array(Box::new(t2), n)) == (n as nat) * spec_array_stride(
            d,
            sub,
            t2,
        ),
{
}

/// Every alignment the rules produce lies between 1 and 32 bytes.
pub proof fn lemma_align_bounds(d: Dialect, sub: Sublayout, t: ValueType)
    ensures
        1 <= spec_align_of(d, sub, t) <= 32,
    decreases t,
{
    match t {
        ValueType::Scalar(_) => {},
        ValueType::Vector(_, _) => {},
        ValueType::Matrix(_, _, _) => {},
        ValueType::Array(t2, _) => {
            lemma_align_bounds(d, sub, *t2);
        },
    }
}

/// Whether the wire sizes of `t` and of its nested element types fit the
/// machine; the conversion routines ask for this margin so that stride
/// arithmetic cannot overflow.
pub open spec fn spec_size_fits(d: Dialect, sub: Sublayout, t: ValueType) -> bool
    decreases t,
{
    &&& spec_wire_size(d, sub, t) + 128 <= usize::MAX
    &&& match t {
        ValueType::Array(t2, _) => spec_size_fits(d, sub, *t2),
        _ => true,
    }
}

/// The alignment a value of type `t` must carry.
pub fn align_of_type(d: Dialect, sub: Sublayout, t: &ValueType) -> (r: usize)
    ensures
        r == spec_align_of(d, sub, *t),
        1 <= r <= 32,
    decreases *t,
{
    proof {
        lemma_align_bounds(d, sub, *t);
    }
    match t {
        ValueType::Scalar(k) => single_align(d, *k),
        ValueType::Vector(k, n) => {
            if d == Dialect::Hlsl {
                single_align(d, *k)
            } else if *n == 2 {
                doubled_align(d, *k)
            } else {
                quadrupled_align(d, *k)
            }
        },
        ValueType::Matrix(k, _, m) => matrix_align(d, sub, *k, *m),
        ValueType::Array(t2, _) => {
            let ea = align_of_type(d, sub, t2);
            if d == Dialect::Glsl && sub == Sublayout::Std140 {
                if ea >= 16 {
                    ea
                } else {
                    16
                }
            } else {
                ea
            }
        },
    }
}

/// The alignment a matrix with `m`-component columns must carry.
pub fn matrix_align(d: Dialect, sub: Sublayout, k: ScalarKind, m: usize) -> (r: usize)
    ensures
        r == spec_matrix_align(d, sub, k, m),
{
    if d == Dialect::Hlsl {
        single_align(d, k)
    } else {
        let va = if m == 2 {
            doubled_align(d, k)
        } else {
            quadrupled_align(d, k)
        };
        if d == Dialect::Glsl && sub == Sublayout::Std140 {
            if va >= 16 {
                va
            } else {
                16
            }
        } else {
            va
        }
    }
}

/// The stride of one matrix column.
pub fn matrix_col_stride(d: Dialect, sub: Sublayout, k: ScalarKind, m: usize) -> (r: usize)
    requires
        2 <= m <= 4,
    ensures
        r == spec_matrix_col_stride(d, sub, k, m),
{
    let s = scalar_size(k);
    if d == Dialect::Hlsl {
        m * s
    } else {
        let a = matrix_align(d, sub, k, m);
        proof {
            lemma_alignment_table(d, k);
        }
        round_up(m * s, a)
    }
}

/// The wire size of a value of type `t`.
pub fn wire_size_of(d: Dialect, sub: Sublayout, t: &ValueType) -> (r: usize)
    requires
        spec_size_fits(d, sub, *t),
        wf_type(*t),
    ensures
        r == spec_wire_size(d, sub, *t),
    decreases *t,
{
    match t {
        ValueType::Scalar(k) => scalar_size(*k),
        ValueType::Vector(k, n) => {
            let s = scalar_size(*k);
            *n * s
        },
        ValueType::Matrix(k, n, m) => {
            let st = matrix_col_stride(d, sub, *k, *m);
            *n * st
        },
        ValueType::Array(t2, n) => {
            let es = wire_size_of(d, sub, t2);
            let ea = align_of_type(d, sub, t2);
            let a = if d == Dialect::Glsl && sub == Sublayout::Std140 {
                if ea >= 16 {
                    ea
                } else {
                    16
                }
            } else {
                ea
            };
            proof {
                assert(spec_size_fits(d, sub, **t2));
                assert(es + 128 <= usize::MAX);
            }
            let stride = round_up(es, a);
            *n * stride
        },
    }
}

/// The stride of one element of an array of `t2`.
pub fn array_stride(d: Dialect, sub: Sublayout, t2: &ValueType) -> (r: usize)
    requires
        spec_size_fits(d, sub, *t2),
        wf_type(*t2),
    ensures
        r == spec_array_stride(d, sub, *t2),
{
    let es = wire_size_of(d, sub, t2);
    let ea = align_of_type(d, sub, t2);
    let a = if d == Dialect::Glsl && sub == Sublayout::Std140 {
        if ea >= 16 {
            ea
        } else {
            16
        }
    } else {
        ea
    };
    round_up(es, a)
}

/// Rounding a positive quantity no larger than `a` up to a multiple of `a`
/// gives exactly `a`.
pub proof fn lemma_round_up_le(x: nat, a: nat)
    requires
        1 <= x <= a,
    ensures
        spec_round_up(x, a) == a,
{
    lemma_round_up(x, a);
    let r = spec_round_up(x, a);
    vstd::arithmetic::div_mod::lemma_mod_self_0(a as int);
    assert(a >= r);
    if r < a {
        vstd::arithmetic::div_mod::lemma_small_mod(r, a);
    }
}

/// The vector alignment law: under every dialect and sub-layout, a vector
/// aligns at the scalar's doubled alignment for two components and at the
/// quadrupled one for three or four — except HLSL, where every vector takes
/// the scalar's own alignment.
pub proof fn lemma_vector_alignment(d: Dialect, sub: Sublayout, k: ScalarKind, n: usize)
    requires
        2 <= n <= 4,
    ensures
        d != Dialect::Hlsl && n == 2 ==> spec_align_of(d, sub, ValueType::Vector(k, n))
            == spec_doubled_align(d, k),
        d != Dialect::Hlsl && n != 2 ==> spec_align_of(d, sub, ValueType::Vector(k, n))
            == spec_quadrupled_align(d, k),
        d == Dialect::Hlsl ==> spec_align_of(d, sub, ValueType::Vector(k, n))
            == spec_single_align(d, k),
{
}

/// The `std140` matrix floor: under GLSL `std140` a matrix column's stride is
/// the column alignment floored at 16 bytes, whatever the scalar kind — the
/// column's bytes never exceed that alignment, so rounding lands exactly on
/// it.
pub proof fn lemma_std140_matrix_floor(k: ScalarKind, m: usize)
    requires
        2 <= m <= 4,
    ensures
        spec_matrix_align(Dialect::Glsl, Sublayout::Std140, k, m) == align_max(
            16,
            spec_vector_align(Dialect::Glsl, k, m),
        ),
        spec_matrix_col_stride(Dialect::Glsl, Sublayout::Std140, k, m) == align_max(
            16,
            spec_vector_align(Dialect::Glsl, k, m),
        ),
        spec_matrix_col_stride(Dialect::Glsl, Sublayout::Std140, k, m) >= 16,
{
    let s = spec_scalar_size(k);
    let va = spec_vector_align(Dialect::Glsl, k, m);
    assert((m as nat) * s <= align_max(16, va));
    lemma_round_up_le((m as nat) * s, align_max(16, va));
}

/// No floor under `std430`: the column stride of a GLSL `std430` matrix is
/// the raw column alignment, with no 16-byte floor.
pub proof fn lemma_std430_matrix_no_floor(k: ScalarKind, m: usize)
    requires
        2 <= m <= 4,
    ensures
        spec_matrix_align(Dialect::Glsl, Sublayout::Std430, k, m) == spec_vector_align(
            Dialect::Glsl,
            k,
            m,
        ),
        spec_matrix_col_stride(Dialect::Glsl, Sublayout::Std430, k, m) == spec_vector_align(
            Dialect::Glsl,
            k,
            m,
        ),
{
    let s = spec_scalar_size(k);
    let va = spec_vector_align(Dialect::Glsl, k, m);
    assert((m as nat) * s <= va);
    lemma_round_up_le((m as nat) * s, va);
}

/// The array stride rule for scalar elements: under GLSL `std140` the
/// per-element stride is rounded up to 16 bytes; under every other dialect or
/// sub-layout it is the scalar's own size, unchanged.
pub proof fn lemma_scalar_array_stride(d: Dialect, sub: Sublayout, k: ScalarKind)
    ensures
        spec_array_stride(Dialect::Glsl, Sublayout::Std140, ValueType::Scalar(k)) == 16,
        !(d == Dialect::Glsl && sub == Sublayout::Std140) ==> spec_array_stride(
            d,
            sub,
            ValueType::Scalar(k),
        ) == spec_scalar_size(k),
{
    let s = spec_scalar_size(k);
    lemma_round_up_le(s, 16);
    lemma_round_up_le(s, s);
}

/// Check that the wire sizes of `t` and its nested element types fit the
/// machine, so that every conversion routine can run on values of `t`.
#[verifier::rlimit(30)]
pub fn check_size_fits(d: Dialect, sub: Sublayout, t: &ValueType) -> (r: bool)
    requires
        wf_type(*t),
    ensures
        r == spec_size_fits(d, sub, *t),
    decreases *t,
{
    match t {
        ValueType::Scalar(_) => true,
        ValueType::Vector(k, n) => {
            proof {
                assert((*n as nat) * spec_scalar_size(*k) <= 32) by (nonlinear_arith)
                    requires
                        2 <= *n <= 4,
                        spec_scalar_size(*k) <= 8,
                ;
            }
            true
        },
        ValueType::Matrix(k, n, m) => {
            proof {
                assert((*m as nat) * spec_scalar_size(*k) <= 32) by (nonlinear_arith)
                    requires
                        2 <= *m <= 4,
                        spec_scalar_size(*k) <= 8,
                ;
                if d != Dialect::Hlsl {
                    lemma_round_up(
                        (*m as nat) * spec_scalar_size(*k),
                        spec_matrix_align(d, sub, *k, *m),
                    );
                }
                assert((*n as nat) * spec_matrix_col_stride(d, sub, *k, *m) <= 4 * 64)
                    by (nonlinear_arith)
                    requires
                        2 <= *n <= 4,
                        0 <= spec_matrix_col_stride(d, sub, *k, *m) <= 64,
                ;
            }
            true
        },
        ValueType::Array(t2, n) => {
            if !check_size_fits(d, sub, t2) {
                return false;
            }
            let stride = array_stride(d, sub, t2);
            proof {
                if *n != 0 {
                    assert(stride <= (*n as nat) * stride) by (nonlinear_arith)
                        requires
                            1 <= *n,
                            0 <= stride,
                    ;
                }
            }
            match n.checked_mul(stride) {
                Option::None => false,
                Option::Some(total) => total <= usize::MAX - 128,
            }
        },
    }
}
} // verus!
