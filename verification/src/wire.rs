//! The wire representation: the padded little-endian bytes a converted value
//! occupies in a GPU buffer, and the conversion routines that produce them.

use vstd::prelude::*;

use crate::layout::{
    array_stride, lemma_round_up, matrix_col_stride, spec_align_of, spec_array_stride,
    spec_matrix_col_stride, spec_size_fits, spec_wire_size, wire_size_of,
};
use crate::table::{Dialect, ScalarKind, Sublayout, scalar_size, spec_scalar_size};
use crate::value::{
    ArrayValue, MatrixValue, ScalarValue, Value, ValueType, VectorValue, spec_type_of, wf_matrix,
    wf_value, wf_vector,
};

verus! {

broadcast use vstd::std_specs::vec::group_vec_axioms, vstd::seq::group_seq_axioms;

/// Byte `i` of the little-endian encoding of `bits`.
pub open spec fn le_byte(bits: u64, i: nat) -> u8 {
    ((bits >> ((8 * i) as u64)) & 0xff) as u8
}

/// The `w`-byte little-endian encoding of `bits`.
pub open spec fn le_bytes(bits: u64, w: nat) -> Seq<u8> {
    Seq::new(w, |i: int| le_byte(bits, i as nat))
}

/// `n` zero padding bytes.
pub open spec fn zero_bytes(n: nat) -> Seq<u8> {
    Seq::new(n, |i: int| 0u8)
}

/// `b` followed by zero padding up to `stride` bytes.
pub open spec fn pad_to(b: Seq<u8>, stride: nat) -> Seq<u8>
    recommends
        b.len() <= stride,
{
    b + zero_bytes((stride - b.len()) as nat)
}

/// The dense bytes of a run of scalar components, each `w` bytes.
pub open spec fn comps_bytes(comps: Seq<u64>, w: nat) -> Seq<u8>
    decreases comps.len(),
{
    if comps.len() == 0 {
        Seq::empty()
    } else {
        comps_bytes(comps.subrange(0, comps.len() - 1), w) + le_bytes(comps[comps.len() - 1], w)
    }
}

/// The bytes of a run of matrix columns, each padded to `stride` bytes.
pub open spec fn cols_bytes(cols: Seq<Vec<u64>>, w: nat, stride: nat) -> Seq<u8>
    decreases cols.len(),
{
    if cols.len() == 0 {
        Seq::empty()
    } else {
        cols_bytes(cols.subrange(0, cols.len() - 1), w, stride) + pad_to(
            comps_bytes(cols[cols.len() - 1]@, w),
            stride,
        )
    }
}

/// A run of components occupies exactly `w` bytes per component.
pub proof fn lemma_comps_bytes_len(comps: Seq<u64>, w: nat)
    ensures
        comps_bytes(comps, w).len() == comps.len() * w,
    decreases comps.len(),
{
    if comps.len() == 0 {
    } else {
        lemma_comps_bytes_len(comps.subrange(0, comps.len() - 1), w);
        assert((comps.len() - 1) * w + w == comps.len() * w) by (nonlinear_arith);
    }
}

/// A run of padded columns occupies exactly `stride` bytes per column, as
/// long as no column's bytes exceed the stride.
pub proof fn lemma_cols_bytes_len(cols: Seq<Vec<u64>>, w: nat, stride: nat)
    requires
        forall|i: int| 0 <= i < cols.len() ==> (#[trigger] cols[i])@.len() * w <= stride,
    ensures
        cols_bytes(cols, w, stride).len() == cols.len() * stride,
    decreases cols.len(),
{
    if cols.len() == 0 {
    } else {
        let head = cols.subrange(0, cols.len() - 1);
        assert(forall|i: int| 0 <= i < head.len() ==> (#[trigger] head[i])@.len() * w <= stride);
        lemma_cols_bytes_len(head, w, stride);
        lemma_comps_bytes_len(cols[cols.len() - 1]@, w);
        assert((cols.len() - 1) * stride + stride == cols.len() * stride) by (nonlinear_arith);
    }
}

/// Append the `w`-byte little-endian encoding of `bits`.
fn push_le_bytes(out: &mut Vec<u8>, bits: u64, w: usize)
    requires
        w <= 8,
        old(out)@.len() + w <= usize::MAX,
    ensures
        final(out)@ == old(out)@ + le_bytes(bits, w as nat),
{
    let mut j: usize = 0;
    while j < w
        invariant
            j <= w <= 8,
            out@ == old(out)@ + le_bytes(bits, j as nat),
            out@.len() == old(out)@.len() + j,
        decreases w - j,
    {
        let shift: u64 = 8 * (j as u64);
        let masked: u64 = (bits >> shift) & 0xff;
        assert(masked < 256) by (bit_vector)
            requires
                masked == (bits >> shift) & 0xff,
        ;
        out.push(masked as u8);
        proof {
            assert(masked as u8 == le_byte(bits, j as nat));
            assert(le_bytes(bits, (j + 1) as nat) =~= le_bytes(bits, j as nat) + seq![
                le_byte(bits, j as nat),
            ]);
            assert(out@ =~= old(out)@ + le_bytes(bits, (j + 1) as nat));
        }
        j = j + 1;
    }
    proof {
        assert(out@ =~= old(out)@ + le_bytes(bits, w as nat));
    }
}

/// Append `n` zero padding bytes.
fn push_zero_bytes(out: &mut Vec<u8>, n: usize)
    requires
        old(out)@.len() + n <= usize::MAX,
    ensures
        final(out)@ == old(out)@ + zero_bytes(n as nat),
{
    let mut j: usize = 0;
    while j < n
        invariant
            j <= n,
            out@ == old(out)@ + zero_bytes(j as nat),
            out@.len() == old(out)@.len() + j,
        decreases n - j,
    {
        out.push(0u8);
        proof {
            assert(out@ =~= old(out)@ + zero_bytes((j + 1) as nat));
        }
        j = j + 1;
    }
    proof {
        assert(out@ =~= old(out)@ + zero_bytes(n as nat));
    }
}

/// Append the dense bytes of the components, each as a scalar of kind `k`.
fn push_comps(out: &mut Vec<u8>, comps: &Vec<u64>, k: ScalarKind)
    requires
        old(out)@.len() + comps@.len() * 8 <= usize::MAX,
    ensures
        final(out)@ == old(out)@ + comps_bytes(comps@, spec_scalar_size(k)),
{
    let w = scalar_size(k);
    let ghost wg = spec_scalar_size(k);
    let mut i: usize = 0;
    while i < comps.len()
        invariant
            i <= comps@.len(),
            w == wg,
            w <= 8,
            out@ == old(out)@ + comps_bytes(comps@.subrange(0, i as int), wg),
            out@.len() == old(out)@.len() + i * wg,
            old(out)@.len() + comps@.len() * 8 <= usize::MAX,
        decreases comps@.len() - i,
    {
        proof {
            lemma_comps_bytes_len(comps@.subrange(0, i as int), wg);
            assert(i * wg <= comps@.len() * 8 && (i + 1) * wg <= comps@.len() * 8 && (i + 1) * wg
                == i * wg + wg) by (nonlinear_arith)
                requires
                    0 <= i < comps@.len(),
                    0 <= wg <= 8,
            ;
        }
        push_le_bytes(out, comps[i], w);
        proof {
            let pre = comps@.subrange(0, i as int);
            let post = comps@.subrange(0, i + 1);
            assert(post.subrange(0, post.len() - 1) =~= pre);
            assert(comps_bytes(post, wg) == comps_bytes(pre, wg) + le_bytes(comps@[i as int], wg));
            assert(out@ =~= old(out)@ + comps_bytes(post, wg));
            lemma_comps_bytes_len(post, wg);
        }
        i = i + 1;
    }
    proof {
        assert(comps@.subrange(0, comps@.len() as int) =~= comps@);
    }
}

/// The wire bytes of a value under a dialect and sub-layout: scalars are
/// their little-endian bit patterns, vectors are dense runs of components,
/// matrices are columns padded to the column stride, arrays are elements
/// padded to the element stride.
pub open spec fn spec_wire_bytes(d: Dialect, sub: Sublayout, v: Value) -> Seq<u8>
    decreases v, 1int,
{
    match v {
        Value::Scalar(s) => le_bytes(s.bits, spec_scalar_size(s.kind)),
        Value::Vector(vv) => comps_bytes(vv.comps@, spec_scalar_size(vv.kind)),
        Value::Matrix(mv) => {
            let m = if mv.cols@.len() > 0 {
                mv.cols@[0]@.len() as usize
            } else {
                0
            };
            cols_bytes(
                mv.cols@,
                spec_scalar_size(mv.kind),
                spec_matrix_col_stride(d, sub, mv.kind, m),
            )
        },
        Value::Array(av) => elems_bytes(d, sub, av.elems@, spec_array_stride(d, sub, av.elem_ty)),
    }
}

/// The wire bytes of a run of array elements, each padded to `stride`.
pub open spec fn elems_bytes(d: Dialect, sub: Sublayout, elems: Seq<Value>, stride: nat) -> Seq<
    u8,
>
    decreases elems, 0int,
{
    if elems.len() == 0 {
        Seq::empty()
    } else {
        elems_bytes(d, sub, elems.subrange(0, elems.len() - 1), stride) + pad_to(
            spec_wire_bytes(d, sub, elems[elems.len() - 1]),
            stride,
        )
    }
}

/// The host bytes of a value: the same scalars, dense, with no dialect
/// padding anywhere — what the value occupies in host memory.
pub open spec fn spec_host_bytes(v: Value) -> Seq<u8>
    decreases v, 1int,
{
    match v {
        Value::Scalar(s) => le_bytes(s.bits, spec_scalar_size(s.kind)),
        Value::Vector(vv) => comps_bytes(vv.comps@, spec_scalar_size(vv.kind)),
        Value::Matrix(mv) => {
            let m = if mv.cols@.len() > 0 {
                mv.cols@[0]@.len() as nat
            } else {
                0
            };
            cols_bytes(mv.cols@, spec_scalar_size(mv.kind), m * spec_scalar_size(mv.kind))
        },
        Value::Array(av) => elems_host_bytes(av.elems@),
    }
}

/// The host bytes of a run of array elements: dense, no padding.
pub open spec fn elems_host_bytes(elems: Seq<Value>) -> Seq<u8>
    decreases elems, 0int,
{
    if elems.len() == 0 {
        Seq::empty()
    } else {
        elems_host_bytes(elems.subrange(0, elems.len() - 1)) + spec_host_bytes(
            elems[elems.len() - 1],
        )
    }
}

/// Whether a value of type `t` is its own wire representation: its wire type
/// equals its host type. True of scalars and vectors everywhere, of matrices
/// only under HLSL (where they stay dense), never of arrays, whose wire type
/// wraps each element even when no padding results.
pub open spec fn spec_identity_repr(d: Dialect, t: ValueType) -> bool {
    match t {
        ValueType::Scalar(_) => true,
        ValueType::Vector(_, _) => true,
        ValueType::Matrix(_, _, _) => d == Dialect::Hlsl,
        ValueType::Array(_, _) => false,
    }
}

/// The wire bytes of a well-formed value are exactly its wire size.
pub proof fn lemma_wire_bytes_len(d: Dialect, sub: Sublayout, v: Value)
    requires
        wf_value(v),
    ensures
        spec_wire_bytes(d, sub, v).len() == spec_wire_size(d, sub, spec_type_of(v)),
    decreases v, 1int,
{
    match v {
        Value::Scalar(s) => {},
        Value::Vector(vv) => {
            lemma_comps_bytes_len(vv.comps@, spec_scalar_size(vv.kind));
        },
        Value::Matrix(mv) => {
            let w = spec_scalar_size(mv.kind);
            let m = mv.cols@[0]@.len() as usize;
            let stride = spec_matrix_col_stride(d, sub, mv.kind, m);
            assert((m as nat) * w <= stride) by {
                if d != Dialect::Hlsl {
                    lemma_round_up((m as nat) * w, crate::layout::spec_matrix_align(d, sub, mv.kind, m));
                }
            }
            assert forall|i: int| 0 <= i < mv.cols@.len() implies (#[trigger] mv.cols@[i])@.len()
                * w <= stride by {
                assert(mv.cols@[i]@.len() == m);
            }
            lemma_cols_bytes_len(mv.cols@, w, stride);
        },
        Value::Array(av) => {
            assert(av.elems.len() == av.elems@.len());
            let stride = spec_array_stride(d, sub, av.elem_ty);
            crate::layout::lemma_align_bounds(d, sub, av.elem_ty);
            lemma_round_up(
                spec_wire_size(d, sub, av.elem_ty),
                crate::layout::spec_array_elem_align(d, sub, av.elem_ty),
            );
            lemma_elems_bytes_len(d, sub, av.elems@, stride, av.elem_ty);
        },
    }
}

/// A run of padded elements of one type occupies exactly `stride` bytes per
/// element.
pub proof fn lemma_elems_bytes_len(
    d: Dialect,
    sub: Sublayout,
    elems: Seq<Value>,
    stride: nat,
    ty: ValueType,
)
    requires
        forall|i: int|
            0 <= i < elems.len() ==> wf_value(#[trigger] elems[i]) && spec_type_of(elems[i]) == ty,
        spec_wire_size(d, sub, ty) <= stride,
    ensures
        elems_bytes(d, sub, elems, stride).len() == elems.len() * stride,
    decreases elems, 0int,
{
    if elems.len() == 0 {
    } else {
        let head = elems.subrange(0, elems.len() - 1);
        lemma_elems_bytes_len(d, sub, head, stride, ty);
        lemma_wire_bytes_len(d, sub, elems[elems.len() - 1]);
        assert((elems.len() - 1) * stride + stride == elems.len() * stride) by (nonlinear_arith);
    }
}

/// For a value that is its own wire representation, the wire bytes equal the
/// host bytes: the conversion is the identity.
pub proof fn lemma_identity_wire_is_host(d: Dialect, sub: Sublayout, v: Value)
    requires
        wf_value(v),
        spec_identity_repr(d, spec_type_of(v)),
    ensures
        spec_wire_bytes(d, sub, v) == spec_host_bytes(v),
{
}

/// The fast-path equivalence law: when an array's element is its own wire
/// representation and the element stride equals the element's wire size (so
/// no padding is introduced), reinterpreting the dense host bytes gives
/// exactly the elementwise padded wire bytes.
pub proof fn lemma_fast_path_equivalence(d: Dialect, sub: Sublayout, av: ArrayValue)
    requires
        wf_value(Value::Array(av)),
        spec_identity_repr(d, av.elem_ty),
        spec_array_stride(d, sub, av.elem_ty) == spec_wire_size(d, sub, av.elem_ty),
    ensures
        elems_host_bytes(av.elems@) == spec_wire_bytes(d, sub, Value::Array(av)),
{
    lemma_elems_host_eq(
        d,
        sub,
        av.elems@,
        av.elem_ty,
        spec_array_stride(d, sub, av.elem_ty),
    );
}

/// Induction for the fast-path equivalence, over the run of elements.
proof fn lemma_elems_host_eq(
    d: Dialect,
    sub: Sublayout,
    elems: Seq<Value>,
    ty: ValueType,
    stride: nat,
)
    requires
        forall|i: int|
            0 <= i < elems.len() ==> wf_value(#[trigger] elems[i]) && spec_type_of(elems[i]) == ty,
        spec_identity_repr(d, ty),
        stride == spec_wire_size(d, sub, ty),
    ensures
        elems_host_bytes(elems) == elems_bytes(d, sub, elems, stride),
    decreases elems,
{
    if elems.len() == 0 {
    } else {
        let head = elems.subrange(0, elems.len() - 1);
        let last = elems[elems.len() - 1];
        lemma_elems_host_eq(d, sub, head, ty, stride);
        lemma_identity_wire_is_host(d, sub, last);
        lemma_wire_bytes_len(d, sub, last);
        assert(pad_to(spec_wire_bytes(d, sub, last), stride) =~= spec_wire_bytes(d, sub, last));
        assert(elems_host_bytes(elems) =~= elems_bytes(d, sub, elems, stride));
    }
}

/// Conversion entry point for a lone scalar: under every dialect and
/// sub-layout the scalar is returned unchanged — no rule alters a scalar's
/// bit pattern.
pub fn scalar_repr(d: Dialect, sub: Sublayout, s: &ScalarValue) -> (r: ScalarValue)
    ensures
        r == *s,
{
    *s
}

/// Conversion for a vector: its required alignment and its wire bytes, which
/// are the dense host bytes — a vector is never padded internally.
pub fn vector_repr(d: Dialect, sub: Sublayout, vv: &VectorValue) -> (r: (usize, Vec<u8>))
    requires
        wf_vector(*vv),
    ensures
        r.0 == spec_align_of(d, sub, spec_type_of(Value::Vector(*vv))),
        r.1@ == spec_wire_bytes(d, sub, Value::Vector(*vv)),
        r.1@ == spec_host_bytes(Value::Vector(*vv)),
{
    let align = crate::layout::align_of_type(
        d,
        sub,
        &ValueType::Vector(vv.kind, vv.comps.len()),
    );
    let mut out: Vec<u8> = Vec::new();
    push_comps(&mut out, &vv.comps, vv.kind);
    proof {
        assert(out@ =~= comps_bytes(vv.comps@, spec_scalar_size(vv.kind)));
    }
    (align, out)
}

/// Conversion for a matrix: its required alignment and its wire bytes, one
/// column stride per column, each column's bytes padded with zeros up to the
/// stride. Under HLSL the stride is the column's own size and the matrix
/// stays dense.
#[verifier::rlimit(30)]
pub fn matrix_repr(d: Dialect, sub: Sublayout, mv: &MatrixValue) -> (r: (usize, Vec<u8>))
    requires
        wf_matrix(*mv),
    ensures
        r.0 == spec_align_of(d, sub, spec_type_of(Value::Matrix(*mv))),
        r.1@ == spec_wire_bytes(d, sub, Value::Matrix(*mv)),
        r.1@.len() == spec_wire_size(d, sub, spec_type_of(Value::Matrix(*mv))),
{
    let m = mv.cols[0].len();
    let w = scalar_size(mv.kind);
    let align = crate::layout::matrix_align(d, sub, mv.kind, m);
    let stride = matrix_col_stride(d, sub, mv.kind, m);
    let ghost wg = spec_scalar_size(mv.kind);
    let ghost strideg = spec_matrix_col_stride(d, sub, mv.kind, m);
    proof {
        assert((m as nat) * wg <= 32) by (nonlinear_arith)
            requires
                0 <= m <= 4,
                0 <= wg <= 8,
        ;
        if d != Dialect::Hlsl {
            lemma_round_up((m as nat) * wg, crate::layout::spec_matrix_align(d, sub, mv.kind, m));
        }
        assert((m as nat) * wg <= strideg <= 64);
    }
    let mut out: Vec<u8> = Vec::new();
    let mut i: usize = 0;
    while i < mv.cols.len()
        invariant
            i <= mv.cols@.len() <= 4,
            wf_matrix(*mv),
            m == mv.cols@[0]@.len(),
            2 <= m <= 4,
            w == wg <= 8,
            wg == spec_scalar_size(mv.kind),
            stride == strideg <= 64,
            (m as nat) * wg <= strideg,
            out@ == cols_bytes(mv.cols@.subrange(0, i as int), wg, strideg),
            out@.len() == i * strideg,
        decreases mv.cols@.len() - i,
    {
        let col = &mv.cols[i];
        proof {
            assert(mv.cols@[i as int]@.len() == m);
            lemma_comps_bytes_len(mv.cols@[i as int]@, wg);
            assert(i * strideg + strideg <= 4 * 64 && (i + 1) * strideg == i * strideg + strideg
                && i * strideg <= 3 * 64) by (nonlinear_arith)
                requires
                    0 <= i < 4,
                    0 <= strideg <= 64,
            ;
            assert((m as nat) * wg <= 32) by (nonlinear_arith)
                requires
                    0 <= m <= 4,
                    0 <= wg <= 8,
            ;
        }
        push_comps(&mut out, col, mv.kind);
        let used = m * w;
        push_zero_bytes(&mut out, stride - used);
        proof {
            let pre = mv.cols@.subrange(0, i as int);
            let post = mv.cols@.subrange(0, i + 1);
            assert(post.subrange(0, post.len() - 1) =~= pre);
            let colb = comps_bytes(mv.cols@[i as int]@, wg);
            lemma_comps_bytes_len(mv.cols@[i as int]@, wg);
            assert(pad_to(colb, strideg) == colb + zero_bytes((strideg - (m as nat) * wg) as nat));
            assert(out@ =~= cols_bytes(post, wg, strideg));
        }
        i = i + 1;
    }
    proof {
        assert(mv.cols@.subrange(0, mv.cols@.len() as int) =~= mv.cols@);
        lemma_wire_bytes_len(d, sub, Value::Matrix(*mv));
    }
    (align, out)
}

/// Append the dense host bytes of a scalar, vector or matrix value.
fn push_host_value(out: &mut Vec<u8>, v: &Value)
    requires
        wf_value(*v),
        !(*v is Array),
        old(out)@.len() + 128 <= usize::MAX,
    ensures
        final(out)@ == old(out)@ + spec_host_bytes(*v),
{
    match v {
        Value::Scalar(s) => {
            push_le_bytes(out, s.bits, scalar_size(s.kind));
        },
        Value::Vector(vv) => {
            push_comps(out, &vv.comps, vv.kind);
        },
        Value::Matrix(mv) => {
            let ghost wg = spec_scalar_size(mv.kind);
            let ghost strideg = (mv.cols@[0]@.len() as nat) * wg;
            let ghost base = out@;
            proof {
                assert(strideg <= 32) by (nonlinear_arith)
                    requires
                        strideg == (mv.cols@[0]@.len() as nat) * wg,
                        0 <= mv.cols@[0]@.len() <= 4,
                        0 <= wg <= 8,
                ;
            }
            let mut i: usize = 0;
            while i < mv.cols.len()
                invariant
                    i <= mv.cols@.len() <= 4,
                    wf_matrix(*mv),
                    wg == spec_scalar_size(mv.kind),
                    wg <= 8,
                    strideg == (mv.cols@[0]@.len() as nat) * wg,
                    strideg <= 32,
                    out@ == base + cols_bytes(mv.cols@.subrange(0, i as int), wg, strideg),
                    out@.len() == base.len() + i * strideg,
                    base.len() + 128 <= usize::MAX,
                decreases mv.cols@.len() - i,
            {
                proof {
                    assert(mv.cols@[i as int]@.len() == mv.cols@[0]@.len());
                    lemma_comps_bytes_len(mv.cols@[i as int]@, wg);
                    assert(i * strideg + strideg <= 4 * 32 && (i + 1) * strideg == i * strideg
                        + strideg && i * strideg <= 3 * 32) by (nonlinear_arith)
                        requires
                            0 <= i < 4,
                            0 <= strideg <= 32,
                    ;
                }
                push_comps(out, &mv.cols[i], mv.kind);
                proof {
                    let pre = mv.cols@.subrange(0, i as int);
                    let post = mv.cols@.subrange(0, i + 1);
                    assert(post.subrange(0, post.len() - 1) =~= pre);
                    let colb = comps_bytes(mv.cols@[i as int]@, wg);
                    lemma_comps_bytes_len(mv.cols@[i as int]@, wg);
                    assert(pad_to(colb, strideg) =~= colb);
                    assert(out@ =~= base + cols_bytes(post, wg, strideg));
                }
                i = i + 1;
            }
            proof {
                assert(mv.cols@.subrange(0, mv.cols@.len() as int) =~= mv.cols@);
            }
        },
        Value::Array(_) => {
            proof {
                assert(false);
            }
        },
    }
}

/// The runtime guard of the array fast path: the element must be its own wire
/// representation and the element stride must equal the element's wire size,
/// so that the conversion introduces no padding at all.
pub fn array_fast_path_ok(d: Dialect, sub: Sublayout, av: &ArrayValue) -> (r: bool)
    requires
        crate::value::wf_type(av.elem_ty),
        spec_size_fits(d, sub, av.elem_ty),
    ensures
        r == (spec_identity_repr(d, av.elem_ty) && spec_array_stride(d, sub, av.elem_ty)
            == spec_wire_size(d, sub, av.elem_ty)),
{
    let ident = match &av.elem_ty {
        ValueType::Scalar(_) => true,
        ValueType::Vector(_, _) => true,
        ValueType::Matrix(_, _, _) => d == Dialect::Hlsl,
        ValueType::Array(_, _) => false,
    };
    if !ident {
        return false;
    }
    let stride = array_stride(d, sub, &av.elem_ty);
    let size = wire_size_of(d, sub, &av.elem_ty);
    stride == size
}

/// The array fast path: when the guard of `array_fast_path_ok` holds, the
/// wire bytes are exactly the dense host bytes, so the elements are copied
/// through without any per-element padding bookkeeping.
#[verifier::rlimit(30)]
pub fn array_repr_fast(d: Dialect, sub: Sublayout, av: &ArrayValue) -> (r: Vec<u8>)
    requires
        wf_value(Value::Array(*av)),
        spec_size_fits(d, sub, spec_type_of(Value::Array(*av))),
        spec_identity_repr(d, av.elem_ty),
        spec_array_stride(d, sub, av.elem_ty) == spec_wire_size(d, sub, av.elem_ty),
    ensures
        r@ == spec_wire_bytes(d, sub, Value::Array(*av)),
        r@ == elems_host_bytes(av.elems@),
{
    let ghost strideg = spec_array_stride(d, sub, av.elem_ty);
    proof {
        assert(av.elems.len() == av.elems@.len());
        assert(spec_size_fits(d, sub, av.elem_ty));
        crate::layout::lemma_align_bounds(d, sub, av.elem_ty);
        lemma_round_up(
            spec_wire_size(d, sub, av.elem_ty),
            crate::layout::spec_array_elem_align(d, sub, av.elem_ty),
        );
    }
    let mut out: Vec<u8> = Vec::new();
    let mut i: usize = 0;
    while i < av.elems.len()
        invariant
            i <= av.elems@.len(),
            wf_value(Value::Array(*av)),
            spec_identity_repr(d, av.elem_ty),
            strideg == spec_array_stride(d, sub, av.elem_ty),
            strideg == spec_wire_size(d, sub, av.elem_ty),
            (av.elems@.len() as nat) * strideg + 128 <= usize::MAX,
            out@ == elems_host_bytes(av.elems@.subrange(0, i as int)),
            out@.len() == i * strideg,
        decreases av.elems@.len() - i,
    {
        let elem = &av.elems[i];
        proof {
            assert(wf_value(av.elems@[i as int]) && spec_type_of(av.elems@[i as int])
                == av.elem_ty);
            lemma_identity_wire_is_host(d, sub, av.elems@[i as int]);
            lemma_wire_bytes_len(d, sub, av.elems@[i as int]);
            assert(i * strideg + strideg <= (av.elems@.len() as nat) * strideg && (i + 1) * strideg
                == i * strideg + strideg && i * strideg <= (av.elems@.len() as nat) * strideg)
                by (nonlinear_arith)
                requires
                    0 <= i < av.elems@.len(),
                    0 <= strideg,
            ;
        }
        push_host_value(&mut out, elem);
        proof {
            let pre = av.elems@.subrange(0, i as int);
            let post = av.elems@.subrange(0, i + 1);
            assert(post.subrange(0, post.len() - 1) =~= pre);
            assert(out@ =~= elems_host_bytes(post));
        }
        i = i + 1;
    }
    proof {
        assert(av.elems@.subrange(0, av.elems@.len() as int) =~= av.elems@);
        lemma_fast_path_equivalence(d, sub, *av);
    }
    out
}

/// The always-correct elementwise array conversion: each element is converted
/// in turn and padded with zeros up to the element stride.
#[verifier::rlimit(30)]
pub fn array_repr_elementwise(d: Dialect, sub: Sublayout, av: &ArrayValue) -> (r: Vec<u8>)
    requires
        wf_value(Value::Array(*av)),
        spec_size_fits(d, sub, spec_type_of(Value::Array(*av))),
    ensures
        r@ == spec_wire_bytes(d, sub, Value::Array(*av)),
    decreases Value::Array(*av), 0int,
{
    proof {
        assert(av.elems.len() == av.elems@.len());
        assert(spec_size_fits(d, sub, av.elem_ty));
        crate::layout::lemma_align_bounds(d, sub, av.elem_ty);
        lemma_round_up(
            spec_wire_size(d, sub, av.elem_ty),
            crate::layout::spec_array_elem_align(d, sub, av.elem_ty),
        );
    }
    let stride = array_stride(d, sub, &av.elem_ty);
    let esize = wire_size_of(d, sub, &av.elem_ty);
    let mut out: Vec<u8> = Vec::new();
    let mut i: usize = 0;
    while i < av.elems.len()
        invariant
            i <= av.elems@.len(),
            wf_value(Value::Array(*av)),
            spec_size_fits(d, sub, av.elem_ty),
            stride == spec_array_stride(d, sub, av.elem_ty),
            esize == spec_wire_size(d, sub, av.elem_ty),
            esize <= stride,
            (av.elems@.len() as nat) * stride + 128 <= usize::MAX,
            out@ == elems_bytes(d, sub, av.elems@.subrange(0, i as int), stride as nat),
            out@.len() == i * stride,
        decreases av.elems@.len() - i,
    {
        proof {
            assert(wf_value(av.elems@[i as int]) && spec_type_of(av.elems@[i as int])
                == av.elem_ty);
            assert(i * stride + stride <= (av.elems@.len() as nat) * stride && (i + 1) * stride
                == i * stride + stride && i * stride <= (av.elems@.len() as nat) * stride)
                by (nonlinear_arith)
                requires
                    0 <= i < av.elems@.len(),
                    0 <= stride,
            ;
            lemma_wire_bytes_len(d, sub, av.elems@[i as int]);
        }
        let mut eb = repr_bytes(d, sub, &av.elems[i]);
        out.append(&mut eb);
        push_zero_bytes(&mut out, stride - esize);
        proof {
            let pre = av.elems@.subrange(0, i as int);
            let post = av.elems@.subrange(0, i + 1);
            assert(post.subrange(0, post.len() - 1) =~= pre);
            let elemb = spec_wire_bytes(d, sub, av.elems@[i as int]);
            assert(pad_to(elemb, stride as nat) == elemb + zero_bytes((stride - esize) as nat));
            assert(out@ =~= elems_bytes(d, sub, post, stride as nat));
        }
        i = i + 1;
    }
    proof {
        assert(av.elems@.subrange(0, av.elems@.len() as int) =~= av.elems@);
    }
    out
}

/// Conversion for an array: its required alignment and its wire bytes. When
/// the fast-path guard holds — the element is its own wire representation and
/// no padding would be introduced — the dense host bytes are copied through;
/// otherwise each element is converted and padded in turn. Both paths produce
/// the same bytes.
pub fn array_repr(d: Dialect, sub: Sublayout, av: &ArrayValue) -> (r: (usize, Vec<u8>))
    requires
        wf_value(Value::Array(*av)),
        spec_size_fits(d, sub, spec_type_of(Value::Array(*av))),
    ensures
        r.0 == spec_align_of(d, sub, spec_type_of(Value::Array(*av))),
        r.1@ == spec_wire_bytes(d, sub, Value::Array(*av)),
    decreases Value::Array(*av), 1int,
{
    proof {
        assert(av.elems.len() == av.elems@.len());
        assert(spec_size_fits(d, sub, av.elem_ty));
    }
    let ea = crate::layout::align_of_type(d, sub, &av.elem_ty);
    let align = if d == Dialect::Glsl && sub == Sublayout::Std140 {
        if ea >= 16 {
            ea
        } else {
            16
        }
    } else {
        ea
    };
    let bytes = if array_fast_path_ok(d, sub, av) {
        array_repr_fast(d, sub, av)
    } else {
        array_repr_elementwise(d, sub, av)
    };
    (align, bytes)
}

/// The conversion entry point: the wire bytes of any layout-capable value
/// under the chosen dialect and sub-layout. Pure and total on well-formed
/// values; scalars pass through bit-identically, and padding bytes are zero.
#[verifier::rlimit(30)]
pub fn repr_bytes(d: Dialect, sub: Sublayout, v: &Value) -> (r: Vec<u8>)
    requires
        wf_value(*v),
        spec_size_fits(d, sub, spec_type_of(*v)),
    ensures
        r@ == spec_wire_bytes(d, sub, *v),
        r@.len() == spec_wire_size(d, sub, spec_type_of(*v)),
    decreases *v, 2int,
{
    proof {
        lemma_wire_bytes_len(d, sub, *v);
    }
    match v {
        Value::Scalar(s) => {
            let mut out: Vec<u8> = Vec::new();
            push_le_bytes(&mut out, s.bits, scalar_size(s.kind));
            proof {
                assert(out@ =~= le_bytes(s.bits, spec_scalar_size(s.kind)));
            }
            out
        },
        Value::Vector(vv) => {
            let r = vector_repr(d, sub, vv);
            r.1
        },
        Value::Matrix(mv) => {
            let r = matrix_repr(d, sub, mv);
            r.1
        },
        Value::Array(av) => {
            let r = array_repr(d, sub, av);
            r.1
        },
    }
}

/// The converted value itself, for a value whose type is its own wire
/// representation: the conversion is the identity, so the wire value equals
/// the host value. Stated as a function so laws about re-conversion can be
/// written down.
pub open spec fn spec_repr_value(d: Dialect, sub: Sublayout, v: Value) -> Value
    recommends
        spec_identity_repr(d, spec_type_of(v)),
{
    v
}

/// Scalar round-trip: under every dialect and sub-layout a scalar's wire
/// bytes equal its host bytes, and the converted scalar is the scalar itself
/// — no rule alters the bit pattern.
pub proof fn lemma_scalar_identity(d: Dialect, sub: Sublayout, s: ScalarValue)
    ensures
        spec_wire_bytes(d, sub, Value::Scalar(s)) == spec_host_bytes(Value::Scalar(s)),
        spec_repr_value(d, sub, Value::Scalar(s)) == Value::Scalar(s),
{
}

/// Idempotent re-conversion: for a value whose type is its own wire
/// representation, converting the already-converted value a second time
/// through the same rule yields the identical value and the identical wire
/// bytes. (The padded composites — non-HLSL matrices and arrays — have wire
/// types distinct from their host types, so no second conversion is defined
/// for them, as in any typed formulation of these rules.)
pub proof fn lemma_repr_idempotent(d: Dialect, sub: Sublayout, v: Value)
    requires
        wf_value(v),
        spec_identity_repr(d, spec_type_of(v)),
    ensures
        spec_repr_value(d, sub, spec_repr_value(d, sub, v)) == spec_repr_value(d, sub, v),
        spec_wire_bytes(d, sub, spec_repr_value(d, sub, v)) == spec_wire_bytes(d, sub, v),
        spec_wire_bytes(d, sub, v) == spec_host_bytes(v),
{
    lemma_identity_wire_is_host(d, sub, v);
}

/// Check that the conversion of `v` fits the machine: the wire size of its
/// type, and of every nested element type, leaves the margin the conversion
/// routines need.
pub fn check_value_fits(d: Dialect, sub: Sublayout, v: &Value) -> (r: bool)
    requires
        wf_value(*v),
    ensures
        r == spec_size_fits(d, sub, spec_type_of(*v)),
{
    match v {
        Value::Scalar(s) => crate::layout::check_size_fits(
            d,
            sub,
            &ValueType::Scalar(s.kind),
        ),
        Value::Vector(vv) => crate::layout::check_size_fits(
            d,
            sub,
            &ValueType::Vector(vv.kind, vv.comps.len()),
        ),
        Value::Matrix(mv) => crate::layout::check_size_fits(
            d,
            sub,
            &ValueType::Matrix(mv.kind, mv.cols.len(), mv.cols[0].len()),
        ),
        Value::Array(av) => {
            if !crate::layout::check_size_fits(d, sub, &av.elem_ty) {
                return false;
            }
            let stride = array_stride(d, sub, &av.elem_ty);
            proof {
                assert(av.elems.len() == av.elems@.len());
                if av.elems.len() != 0 {
                    assert(stride <= (av.elems@.len() as nat) * stride) by (nonlinear_arith)
                        requires
                            1 <= av.elems@.len(),
                            0 <= stride,
                    ;
                }
            }
            match av.elems.len().checked_mul(stride) {
                Option::None => false,
                Option::Some(total) => total <= usize::MAX - 128,
            }
        },
    }
}

/// The total conversion entry point: the wire bytes of `v`, or nothing when
/// `v` is not a well-formed value or its wire size does not fit the machine —
/// exactly then.
pub fn try_repr_bytes(d: Dialect, sub: Sublayout, v: &Value) -> (r: Option<Vec<u8>>)
    ensures
        r is Some <==> wf_value(*v) && spec_size_fits(d, sub, spec_type_of(*v)),
        r matches Some(b) ==> b@ == spec_wire_bytes(d, sub, *v),
{
    if !crate::value::check_value(v) {
        return Option::None;
    }
    if !check_value_fits(d, sub, v) {
        return Option::None;
    }
    Option::Some(repr_bytes(d, sub, v))
}
} // verus!
