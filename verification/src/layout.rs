//! Field dimension tables and the C layout rule: byte offsets, record size
//! and record alignment computed from the declared sizes and alignments of
//! the fields, in declaration order.

use vstd::prelude::*;

verus! {

/// Size and alignment of one declared field, in bytes.
#[derive(Clone, Copy, PartialEq, Eq, Structural, Debug)]
pub struct FieldDim {
    pub size: usize,
    pub align: usize,
}

/// Shorthand for a dimension table entry.
pub open spec fn dim(size: usize, align: usize) -> FieldDim {
    FieldDim { size: size, align: align }
}

/// Smallest multiple of `align` that is at least `off`.
pub open spec fn spec_align_up(off: nat, align: nat) -> nat
    recommends
        align >= 1,
{
    if off % align == 0 {
        off
    } else {
        (off + align - off % align) as nat
    }
}

/// Byte offset of field `i`: field 0 sits at the record base, and each
/// later field sits at the end of its predecessor, rounded up to its own
/// alignment.
pub open spec fn spec_offset(dims: Seq<FieldDim>, i: int) -> nat
    decreases i,
{
    if i <= 0 {
        0
    } else {
        spec_align_up(
            spec_offset(dims, i - 1) + dims[i - 1].size as nat,
            dims[i].align as nat,
        )
    }
}

/// One past the last byte of the last field.
pub open spec fn spec_end(dims: Seq<FieldDim>) -> nat {
    if dims.len() == 0 {
        0
    } else {
        spec_offset(dims, dims.len() - 1) + dims[dims.len() - 1].size as nat
    }
}

/// Largest alignment among the first `n` fields, at least 1.
pub open spec fn spec_max_align(dims: Seq<FieldDim>, n: int) -> nat
    decreases n,
{
    if n <= 0 {
        1
    } else {
        let rest = spec_max_align(dims, n - 1);
        if rest < dims[n - 1].align as nat {
            dims[n - 1].align as nat
        } else {
            rest
        }
    }
}

/// Total record size: the end of the last field rounded up to the record
/// alignment, as the C layout rule prescribes.
pub open spec fn spec_record_size(dims: Seq<FieldDim>) -> nat {
    spec_align_up(spec_end(dims), spec_max_align(dims, dims.len() as int))
}

/// Bounds under which every offset fits comfortably in `usize`.
pub open spec fn dims_ok(dims: Seq<FieldDim>) -> bool {
    &&& dims.len() <= 256
    &&& forall|i: int|
        0 <= i < dims.len() ==> (#[trigger] dims[i]).size <= 0x10000 && 1 <= dims[i].align
            <= 0x1000
}

pub proof fn lemma_align_up_bounds(off: nat, align: nat)
    requires
        align >= 1,
    ensures
        off <= spec_align_up(off, align) < off + align,
{
}

/// Every offset is bounded linearly by its index.
pub proof fn lemma_offset_bound(dims: Seq<FieldDim>, i: int)
    requires
        dims_ok(dims),
        0 <= i < dims.len(),
    ensures
        spec_offset(dims, i) <= 0x11000 * i,
    decreases i,
{
    if i > 0 {
        lemma_offset_bound(dims, i - 1);
        lemma_align_up_bounds(
            spec_offset(dims, i - 1) + dims[i - 1].size as nat,
            dims[i].align as nat,
        );
        assert(0x11000 * i == 0x11000 * (i - 1) + 0x11000) by (nonlinear_arith);
    }
}

pub proof fn lemma_end_bound(dims: Seq<FieldDim>)
    requires
        dims_ok(dims),
    ensures
        spec_end(dims) <= 0x1110000,
        spec_record_size(dims) <= 0x1111000,
    decreases dims.len(),
{
    if dims.len() > 0 {
        lemma_offset_bound(dims, dims.len() - 1);
        assert(0x11000 * (dims.len() - 1) <= 0x11000 * 255) by (nonlinear_arith)
            requires dims.len() <= 256 && dims.len() >= 1;
    }
    lemma_max_align_bound(dims, dims.len() as int);
    lemma_align_up_bounds(spec_end(dims), spec_max_align(dims, dims.len() as int));
}

pub proof fn lemma_max_align_bound(dims: Seq<FieldDim>, n: int)
    requires
        dims_ok(dims),
        n <= dims.len(),
    ensures
        1 <= spec_max_align(dims, n) <= 0x1000,
    decreases n,
{
    if n > 0 {
        lemma_max_align_bound(dims, n - 1);
    }
}

/// Round `off` up to a multiple of `align`.
pub fn align_up(off: usize, align: usize) -> (r: usize)
    requires
        align >= 1,
        spec_align_up(off as nat, align as nat) <= usize::MAX,
    ensures
        r as nat == spec_align_up(off as nat, align as nat),
{
    let rem = off % align;
    if rem == 0 {
        off
    } else {
        off + (align - rem)
    }
}

/// Byte offset of every field of a record laid out by the C rule.
pub fn compute_offsets(dims: &Vec<FieldDim>) -> (r: Vec<usize>)
    requires
        dims_ok(dims@),
    ensures
        r@.len() == dims@.len(),
        forall|i: int| 0 <= i < dims@.len() ==> #[trigger] r@[i] as nat == spec_offset(dims@, i),
{
    let n = dims.len();
    let mut r: Vec<usize> = Vec::new();
    let mut i: usize = 0;
    while i < n
        invariant
            dims_ok(dims@),
            n == dims@.len(),
            i <= n,
            r@.len() == i,
            forall|j: int| 0 <= j < i ==> #[trigger] r@[j] as nat == spec_offset(dims@, j),
        decreases n - i,
    {
        let off: usize = if i == 0 {
            0
        } else {
            proof {
                lemma_offset_bound(dims@, i as int);
                lemma_offset_bound(dims@, i - 1 as int);
                lemma_align_up_bounds(
                    spec_offset(dims@, i - 1) + dims@[i - 1].size as nat,
                    dims@[i as int].align as nat,
                );
            }
            align_up(r[i - 1] + dims[i - 1].size, dims[i].align)
        };
        r.push(off);
        i += 1;
    }
    r
}

/// Alignment of the whole record: the largest field alignment.
pub fn max_align(dims: &Vec<FieldDim>) -> (r: usize)
    requires
        dims_ok(dims@),
    ensures
        r as nat == spec_max_align(dims@, dims@.len() as int),
{
    let n = dims.len();
    let mut r: usize = 1;
    let mut i: usize = 0;
    while i < n
        invariant
            dims_ok(dims@),
            n == dims@.len(),
            i <= n,
            r as nat == spec_max_align(dims@, i as int),
        decreases n - i,
    {
        if dims[i].align > r {
            r = dims[i].align;
        }
        i += 1;
    }
    r
}

/// Total size of a record laid out by the C rule.
pub fn record_size(dims: &Vec<FieldDim>) -> (r: usize)
    requires
        dims_ok(dims@),
    ensures
        r as nat == spec_record_size(dims@),
{
    let n = dims.len();
    let end: usize = if n == 0 {
        0
    } else {
        let offs = compute_offsets(dims);
        proof {
            lemma_offset_bound(dims@, n - 1 as int);
        }
        offs[n - 1] + dims[n - 1].size
    };
    proof {
        lemma_end_bound(dims@);
        lemma_max_align_bound(dims@, dims@.len() as int);
    }
    let al = max_align(dims);
    align_up(end, al)
}

/// Offsets depend only on the entries up to the field in question.
pub proof fn lemma_offset_prefix(a: Seq<FieldDim>, b: Seq<FieldDim>, i: int)
    requires
        0 <= i < a.len(),
        i < b.len(),
        forall|j: int| 0 <= j <= i ==> a[j] == b[j],
    ensures
        spec_offset(a, i) == spec_offset(b, i),
    decreases i,
{
    if i > 0 {
        lemma_offset_prefix(a, b, i - 1);
    }
}

/// Two tables whose offsets agree at `k` and whose entries agree from `k`
/// on have equal offsets from `k` on.
pub proof fn lemma_offset_equal_from(a: Seq<FieldDim>, b: Seq<FieldDim>, k: int, i: int)
    requires
        0 <= k <= i < a.len(),
        i < b.len(),
        spec_offset(a, k) == spec_offset(b, k),
        forall|j: int| k <= j <= i ==> a[j] == b[j],
    ensures
        spec_offset(a, i) == spec_offset(b, i),
    decreases i - k,
{
    if i > k {
        lemma_offset_equal_from(a, b, k, i - 1);
    }
}

/// The record alignment depends only on the first `n` entries.
pub proof fn lemma_max_align_prefix(a: Seq<FieldDim>, b: Seq<FieldDim>, n: int)
    requires
        n <= a.len(),
        n <= b.len(),
        forall|j: int| 0 <= j < n ==> a[j] == b[j],
    ensures
        spec_max_align(a, n) == spec_max_align(b, n),
    decreases n,
{
    if n > 0 {
        lemma_max_align_prefix(a, b, n - 1);
    }
}

/// Appending a zero-sized, alignment-1 field to a table changes neither
/// any existing offset nor the record size.
pub proof fn lemma_zero_width_tail(dims: Seq<FieldDim>)
    requires
        dims.len() >= 1,
        dims[dims.len() - 1] == dim(0, 1),
        forall|i: int| 0 <= i < dims.len() ==> #[trigger] dims[i].align >= 1,
    ensures
        forall|i: int|
            0 <= i < dims.len() - 1 ==> #[trigger] spec_offset(dims, i) == spec_offset(
                dims.drop_last(),
                i,
            ),
        spec_record_size(dims) == spec_record_size(dims.drop_last()),
{
    let short = dims.drop_last();
    let n = dims.len() - 1;
    assert forall|i: int| 0 <= i < n implies #[trigger] spec_offset(dims, i) == spec_offset(
        short,
        i,
    ) by {
        lemma_offset_prefix(dims, short, i);
    }
    if n >= 1 {
        lemma_offset_prefix(dims, short, n - 1);
        assert(spec_offset(dims, n) == spec_align_up(spec_end(short), 1));
        assert(spec_end(dims) == spec_end(short));
    }
    lemma_max_align_prefix(dims, short, n);
    lemma_max_align_at_least_one(short, n);
    assert(spec_max_align(dims, n + 1) == spec_max_align(dims, n));
}

pub proof fn lemma_max_align_at_least_one(dims: Seq<FieldDim>, n: int)
    ensures
        spec_max_align(dims, n) >= 1,
    decreases n,
{
    if n > 0 {
        lemma_max_align_at_least_one(dims, n - 1);
    }
}

} // verus!
