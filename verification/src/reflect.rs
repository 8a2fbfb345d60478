//! The reflection surface for aggregates: given an ordered run of field
//! types, the byte offset and size of each field, the aggregate's alignment
//! and its padded total size, under a chosen dialect and sub-layout.
//!
//! Fields are laid out in declaration order: each field starts at its own
//! required alignment, and the aggregate's size is rounded up to the
//! aggregate's alignment.

use vstd::prelude::*;

use crate::layout::{
    align_max, align_of_type, lemma_align_bounds, lemma_round_up, round_up, spec_align_of,
    spec_round_up, spec_size_fits, spec_wire_size, wire_size_of,
};
use crate::table::{Dialect, Sublayout};
use crate::value::{ValueType, wf_type};

verus! {

broadcast use vstd::std_specs::vec::group_vec_axioms, vstd::seq::group_seq_axioms;

/// One field of an aggregate: where it starts, how many bytes it occupies,
/// and the alignment it required.
#[derive(Clone, Copy, Debug, PartialEq, Eq, Structural)]
pub struct FieldLayout {
    /// Byte offset of the field from the start of the aggregate.
    pub offset: usize,
    /// Wire size of the field in bytes.
    pub size: usize,
    /// Required alignment of the field in bytes.
    pub align: usize,
}

/// The cursor after laying out the given fields in order: each starts at its
/// own alignment and occupies its wire size.
pub open spec fn spec_offset_after(d: Dialect, sub: Sublayout, fields: Seq<ValueType>) -> nat
    decreases fields.len(),
{
    if fields.len() == 0 {
        0
    } else {
        let head = fields.subrange(0, fields.len() - 1);
        let last = fields[fields.len() - 1];
        spec_round_up(spec_offset_after(d, sub, head), spec_align_of(d, sub, last))
            + spec_wire_size(d, sub, last)
    }
}

/// The byte offset of field `i`: the cursor after its predecessors, rounded
/// up to the field's own alignment.
pub open spec fn spec_field_offset(
    d: Dialect,
    sub: Sublayout,
    fields: Seq<ValueType>,
    i: int,
) -> nat
    recommends
        0 <= i < fields.len(),
{
    spec_round_up(
        spec_offset_after(d, sub, fields.subrange(0, i)),
        spec_align_of(d, sub, fields[i]),
    )
}

/// The largest alignment any of the fields requires; 1 for no fields.
pub open spec fn spec_fields_max_align(d: Dialect, sub: Sublayout, fields: Seq<ValueType>) -> nat
    decreases fields.len(),
{
    if fields.len() == 0 {
        1
    } else {
        align_max(
            spec_fields_max_align(d, sub, fields.subrange(0, fields.len() - 1)),
            spec_align_of(d, sub, fields[fields.len() - 1]),
        )
    }
}

/// The aggregate's own alignment: the largest field alignment, floored at 16
/// bytes under GLSL `std140`, which rounds a structure's alignment up to that
/// of a four-component vector.
pub open spec fn spec_struct_align(d: Dialect, sub: Sublayout, fields: Seq<ValueType>) -> nat {
    if d == Dialect::Glsl && sub == Sublayout::Std140 {
        align_max(16, spec_fields_max_align(d, sub, fields))
    } else {
        spec_fields_max_align(d, sub, fields)
    }
}

/// The aggregate's total size: the cursor after the last field, rounded up to
/// the aggregate's alignment.
pub open spec fn spec_struct_size(d: Dialect, sub: Sublayout, fields: Seq<ValueType>) -> nat {
    spec_round_up(spec_offset_after(d, sub, fields), spec_struct_align(d, sub, fields))
}

/// Laying out one more field never moves the cursor backwards.
proof fn lemma_offset_after_step(d: Dialect, sub: Sublayout, fields: Seq<ValueType>, i: int)
    requires
        0 <= i < fields.len(),
    ensures
        spec_offset_after(d, sub, fields.subrange(0, i)) <= spec_offset_after(
            d,
            sub,
            fields.subrange(0, i + 1),
        ),
{
    let pre = fields.subrange(0, i);
    let post = fields.subrange(0, i + 1);
    assert(post.subrange(0, post.len() - 1) =~= pre);
    lemma_align_bounds(d, sub, fields[i]);
    lemma_round_up(spec_offset_after(d, sub, pre), spec_align_of(d, sub, fields[i]));
}

/// The cursor after a prefix of the fields never exceeds the cursor after all
/// of them.
proof fn lemma_offset_after_monotonic(d: Dialect, sub: Sublayout, fields: Seq<ValueType>, i: int)
    requires
        0 <= i <= fields.len(),
    ensures
        spec_offset_after(d, sub, fields.subrange(0, i)) <= spec_offset_after(d, sub, fields),
    decreases fields.len() - i,
{
    if i == fields.len() {
        assert(fields.subrange(0, i) =~= fields);
    } else {
        lemma_offset_after_step(d, sub, fields, i);
        lemma_offset_after_monotonic(d, sub, fields, i + 1);
    }
}

/// The largest field alignment lies between 1 and 32 bytes.
proof fn lemma_fields_max_align_bounds(d: Dialect, sub: Sublayout, fields: Seq<ValueType>)
    ensures
        1 <= spec_fields_max_align(d, sub, fields) <= 32,
    decreases fields.len(),
{
    if fields.len() == 0 {
    } else {
        lemma_fields_max_align_bounds(d, sub, fields.subrange(0, fields.len() - 1));
        lemma_align_bounds(d, sub, fields[fields.len() - 1]);
    }
}

/// Lay out an aggregate's fields in order: each field's offset, size and
/// alignment, then the aggregate's total size and alignment.
#[verifier::rlimit(30)]
pub fn struct_layout(d: Dialect, sub: Sublayout, fields: &Vec<ValueType>) -> (r: (
    Vec<FieldLayout>,
    usize,
    usize,
))
    requires
        forall|i: int|
            0 <= i < fields@.len() ==> wf_type(#[trigger] fields@[i]) && spec_size_fits(
                d,
                sub,
                fields@[i],
            ),
        spec_offset_after(d, sub, fields@) + 128 <= usize::MAX,
    ensures
        r.0@.len() == fields@.len(),
        forall|i: int|
            0 <= i < fields@.len() ==> {
                &&& (#[trigger] r.0@[i]).offset == spec_field_offset(d, sub, fields@, i)
                &&& r.0@[i].size == spec_wire_size(d, sub, fields@[i])
                &&& r.0@[i].align == spec_align_of(d, sub, fields@[i])
            },
        r.1 == spec_struct_size(d, sub, fields@),
        r.2 == spec_struct_align(d, sub, fields@),
{
    let mut out: Vec<FieldLayout> = Vec::new();
    let mut cursor: usize = 0;
    let mut max_align: usize = 1;
    let mut i: usize = 0;
    while i < fields.len()
        invariant
            i <= fields@.len(),
            forall|j: int|
                0 <= j < fields@.len() ==> wf_type(#[trigger] fields@[j]) && spec_size_fits(
                    d,
                    sub,
                    fields@[j],
                ),
            spec_offset_after(d, sub, fields@) + 128 <= usize::MAX,
            cursor == spec_offset_after(d, sub, fields@.subrange(0, i as int)),
            max_align == spec_fields_max_align(d, sub, fields@.subrange(0, i as int)),
            1 <= max_align <= 32,
            out@.len() == i,
            forall|j: int|
                0 <= j < i ==> {
                    &&& (#[trigger] out@[j]).offset == spec_field_offset(d, sub, fields@, j)
                    &&& out@[j].size == spec_wire_size(d, sub, fields@[j])
                    &&& out@[j].align == spec_align_of(d, sub, fields@[j])
                },
        decreases fields@.len() - i,
    {
        let f = &fields[i];
        let fa = align_of_type(d, sub, f);
        let fs = wire_size_of(d, sub, f);
        proof {
            lemma_offset_after_monotonic(d, sub, fields@, i as int);
            lemma_offset_after_monotonic(d, sub, fields@, i + 1);
            lemma_offset_after_step(d, sub, fields@, i as int);
            assert(fields@.subrange(0, i + 1).subrange(0, i as int) =~= fields@.subrange(
                0,
                i as int,
            ));
        }
        let offset = round_up(cursor, fa);
        let field = FieldLayout { offset, size: fs, align: fa };
        out.push(field);
        cursor = offset + fs;
        max_align = if fa > max_align {
            fa
        } else {
            max_align
        };
        proof {
            assert(cursor == spec_offset_after(d, sub, fields@.subrange(0, i + 1)));
            assert(max_align == spec_fields_max_align(d, sub, fields@.subrange(0, i + 1)));
        }
        i = i + 1;
    }
    proof {
        assert(fields@.subrange(0, fields@.len() as int) =~= fields@);
        lemma_fields_max_align_bounds(d, sub, fields@);
    }
    let salign = if d == Dialect::Glsl && sub == Sublayout::Std140 {
        if max_align >= 16 {
            max_align
        } else {
            16
        }
    } else {
        max_align
    };
    let total = round_up(cursor, salign);
    (out, total, salign)
}

/// The total layout entry point: the field layouts, total size and alignment
/// of the aggregate, or nothing when a field type is ill-formed or oversized
/// or the fields do not fit the machine's address range — exactly then.
#[verifier::rlimit(30)]
pub fn try_struct_layout(d: Dialect, sub: Sublayout, fields: &Vec<ValueType>) -> (r: Option<
    (Vec<FieldLayout>, usize, usize),
>)
    ensures
        r is Some <==> (forall|i: int|
            0 <= i < fields@.len() ==> wf_type(#[trigger] fields@[i]) && spec_size_fits(
                d,
                sub,
                fields@[i],
            )) && spec_offset_after(d, sub, fields@) + 128 <= usize::MAX,
        r matches Some(layout) ==> {
            &&& layout.0@.len() == fields@.len()
            &&& forall|i: int|
                0 <= i < fields@.len() ==> {
                    &&& (#[trigger] layout.0@[i]).offset == spec_field_offset(d, sub, fields@, i)
                    &&& layout.0@[i].size == spec_wire_size(d, sub, fields@[i])
                    &&& layout.0@[i].align == spec_align_of(d, sub, fields@[i])
                }
            &&& layout.1 == spec_struct_size(d, sub, fields@)
            &&& layout.2 == spec_struct_align(d, sub, fields@)
        },
{
    let mut i: usize = 0;
    while i < fields.len()
        invariant
            i <= fields@.len(),
            forall|j: int|
                0 <= j < i ==> wf_type(#[trigger] fields@[j]) && spec_size_fits(
                    d,
                    sub,
                    fields@[j],
                ),
        decreases fields@.len() - i,
    {
        if !crate::value::check_type(&fields[i]) {
            return Option::None;
        }
        if !crate::layout::check_size_fits(d, sub, &fields[i]) {
            return Option::None;
        }
        i = i + 1;
    }
    let mut cursor: usize = 0;
    let mut k: usize = 0;
    while k < fields.len()
        invariant
            k <= fields@.len(),
            forall|j: int|
                0 <= j < fields@.len() ==> wf_type(#[trigger] fields@[j]) && spec_size_fits(
                    d,
                    sub,
                    fields@[j],
                ),
            cursor == spec_offset_after(d, sub, fields@.subrange(0, k as int)),
        decreases fields@.len() - k,
    {
        let fa = align_of_type(d, sub, &fields[k]);
        proof {
            lemma_offset_after_step(d, sub, fields@, k as int);
            lemma_offset_after_monotonic(d, sub, fields@, k + 1);
            assert(fields@.subrange(0, k + 1).subrange(0, k as int) =~= fields@.subrange(
                0,
                k as int,
            ));
        }
        match cursor.checked_add(fa - 1) {
            Option::None => {
                return Option::None;
            },
            Option::Some(_) => {},
        }
        let offset = round_up(cursor, fa);
        let fs = wire_size_of(d, sub, &fields[k]);
        match offset.checked_add(fs) {
            Option::None => {
                return Option::None;
            },
            Option::Some(next) => {
                cursor = next;
            },
        }
        k = k + 1;
    }
    proof {
        assert(fields@.subrange(0, fields@.len() as int) =~= fields@);
    }
    if cursor > usize::MAX - 128 {
        return Option::None;
    }
    Option::Some(struct_layout(d, sub, fields))
}
} // verus!
