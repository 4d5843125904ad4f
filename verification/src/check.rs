//! The equivalence checks between the two record revisions: per-field
//! offsets, decoded values, raw byte images, and total size and alignment,
//! together with the laws that the two declared layouts satisfy them.

use crate::bytes::{
    bytes_first_diff, le_bytes, lemma_le_widen, lemma_le_zero, lemma_pow256_values, zeros,
};
use crate::layout::{
    compute_offsets, dims_ok, lemma_offset_equal_from, lemma_offset_prefix, max_align,
    record_size, spec_end, spec_max_align, spec_offset, spec_record_size, FieldDim,
};
use crate::pyth_09;
use crate::pyth_10;
use vstd::prelude::*;

verus! {

/// The shared fields of the two record revisions, in declaration order.
#[derive(Clone, Copy, PartialEq, Eq, Structural, Debug)]
pub enum FieldId {
    Magic,
    Ver,
    Atype,
    Size,
    Ptype,
    Expo,
    Num,
    NumQt,
    LastSlot,
    ValidSlot,
    EmaPrice,
    EmaConf,
    Timestamp,
    MinPub,
    Drv2,
    Drv3,
    Drv4,
    Prod,
    Next,
    PrevSlot,
    PrevPrice,
    PrevConf,
    PrevTimestamp,
    Agg,
    Comp,
}

/// Position of a field in declaration order; also its row in the
/// dimension tables.
pub open spec fn field_index(f: FieldId) -> int {
    match f {
        FieldId::Magic => 0,
        FieldId::Ver => 1,
        FieldId::Atype => 2,
        FieldId::Size => 3,
        FieldId::Ptype => 4,
        FieldId::Expo => 5,
        FieldId::Num => 6,
        FieldId::NumQt => 7,
        FieldId::LastSlot => 8,
        FieldId::ValidSlot => 9,
        FieldId::EmaPrice => 10,
        FieldId::EmaConf => 11,
        FieldId::Timestamp => 12,
        FieldId::MinPub => 13,
        FieldId::Drv2 => 14,
        FieldId::Drv3 => 15,
        FieldId::Drv4 => 16,
        FieldId::Prod => 17,
        FieldId::Next => 18,
        FieldId::PrevSlot => 19,
        FieldId::PrevPrice => 20,
        FieldId::PrevConf => 21,
        FieldId::PrevTimestamp => 22,
        FieldId::Agg => 23,
        FieldId::Comp => 24,
    }
}

impl FieldId {
    /// Position of this field in declaration order.
    pub fn index(&self) -> (r: usize)
        ensures
            r == field_index(*self),
    {
        match self {
            FieldId::Magic => 0,
            FieldId::Ver => 1,
            FieldId::Atype => 2,
            FieldId::Size => 3,
            FieldId::Ptype => 4,
            FieldId::Expo => 5,
            FieldId::Num => 6,
            FieldId::NumQt => 7,
            FieldId::LastSlot => 8,
            FieldId::ValidSlot => 9,
            FieldId::EmaPrice => 10,
            FieldId::EmaConf => 11,
            FieldId::Timestamp => 12,
            FieldId::MinPub => 13,
            FieldId::Drv2 => 14,
            FieldId::Drv3 => 15,
            FieldId::Drv4 => 16,
            FieldId::Prod => 17,
            FieldId::Next => 18,
            FieldId::PrevSlot => 19,
            FieldId::PrevPrice => 20,
            FieldId::PrevConf => 21,
            FieldId::PrevTimestamp => 22,
            FieldId::Agg => 23,
            FieldId::Comp => 24,
        }
    }
}

/// The one failure class: which check failed, and where.
#[derive(Clone, Copy, PartialEq, Eq, Structural, Debug)]
pub enum LayoutMismatch {
    /// A shared field sits at different offsets in the two layouts.
    OffsetMismatch(FieldId),
    /// A shared field decodes to different values.
    ValueMismatch(FieldId),
    /// The raw images differ, first at this byte position.
    ByteMismatch(usize),
    /// The two layouts have different total sizes.
    SizeMismatch,
    /// The two layouts have different alignments.
    AlignMismatch,
}

/// Equal rational sub-records, field by field.
pub open spec fn rational_matches(a: pyth_09::Rational, b: pyth_10::Rational) -> bool {
    a.val == b.val && a.numer == b.numer && a.denom == b.denom
}

/// Equivalent observations: scalars equal outright, the enumerated fields
/// equal as numbers once both encodings are widened to a common integer.
pub open spec fn info_matches(a: pyth_09::PriceInfo, b: pyth_10::PriceInfo) -> bool {
    &&& a.price == b.price
    &&& a.conf == b.conf
    &&& a.status as int == b.status as int
    &&& a.corp_act as int == b.corp_act as int
    &&& a.pub_slot == b.pub_slot
}

/// Equivalent component entries.
pub open spec fn comp_matches(a: pyth_09::PriceComp, b: pyth_10::PriceComp) -> bool {
    &&& a.publisher.bytes@ == b.publisher.bytes@
    &&& info_matches(a.agg, b.agg)
    &&& info_matches(a.latest, b.latest)
}

/// What "the shared field `f` decodes equally" means: direct equality for
/// scalars and keys, numeric-cast equality for the enumerated fields,
/// field-by-field equality for the sub-records.
pub open spec fn field_matches(
    o: pyth_09::PriceAccount,
    n: pyth_10::SolanaPriceAccount,
    f: FieldId,
) -> bool {
    match f {
        FieldId::Magic => o.magic == n.magic,
        FieldId::Ver => o.ver == n.ver,
        FieldId::Atype => o.atype == n.atype,
        FieldId::Size => o.size == n.size,
        FieldId::Ptype => o.ptype as int == n.ptype as int,
        FieldId::Expo => o.expo == n.expo,
        FieldId::Num => o.num == n.num,
        FieldId::NumQt => o.num_qt == n.num_qt,
        FieldId::LastSlot => o.last_slot == n.last_slot,
        FieldId::ValidSlot => o.valid_slot == n.valid_slot,
        FieldId::EmaPrice => rational_matches(o.ema_price, n.ema_price),
        FieldId::EmaConf => rational_matches(o.ema_conf, n.ema_conf),
        FieldId::Timestamp => o.timestamp == n.timestamp,
        FieldId::MinPub => o.min_pub == n.min_pub,
        FieldId::Drv2 => o.drv2 == n.drv2,
        FieldId::Drv3 => o.drv3 == n.drv3,
        FieldId::Drv4 => o.drv4 == n.drv4,
        FieldId::Prod => o.prod.bytes@ == n.prod.bytes@,
        FieldId::Next => o.next.bytes@ == n.next.bytes@,
        FieldId::PrevSlot => o.prev_slot == n.prev_slot,
        FieldId::PrevPrice => o.prev_price == n.prev_price,
        FieldId::PrevConf => o.prev_conf == n.prev_conf,
        FieldId::PrevTimestamp => o.prev_timestamp == n.prev_timestamp,
        FieldId::Agg => info_matches(o.agg, n.agg),
        FieldId::Comp => forall|j: int|
            0 <= j < 32 ==> comp_matches(#[trigger] o.comp@[j], n.comp@[j]),
    }
}

/// Every shared field decodes equally.
pub open spec fn matching(o: pyth_09::PriceAccount, n: pyth_10::SolanaPriceAccount) -> bool {
    forall|f: FieldId| #[trigger] field_matches(o, n, f)
}

/// Whether two rational sub-records match.
fn rational_eqv(a: &pyth_09::Rational, b: &pyth_10::Rational) -> (r: bool)
    ensures
        r == rational_matches(*a, *b),
{
    a.val == b.val && a.numer == b.numer && a.denom == b.denom
}

/// Whether two observations match; the enumerated fields are compared as
/// numbers after widening both encodings.
fn info_eqv(a: &pyth_09::PriceInfo, b: &pyth_10::PriceInfo) -> (r: bool)
    ensures
        r == info_matches(*a, *b),
{
    a.price == b.price && a.conf == b.conf && a.status == b.status as u32 && a.corp_act
        == b.corp_act as u32 && a.pub_slot == b.pub_slot
}

/// Whether every paired component entry matches.
fn comps_eqv(a: &Vec<pyth_09::PriceComp>, b: &Vec<pyth_10::PriceComp>) -> (r: bool)
    requires
        a@.len() == 32,
        b@.len() == 32,
    ensures
        r == (forall|j: int| 0 <= j < 32 ==> comp_matches(#[trigger] a@[j], b@[j])),
{
    let mut i: usize = 0;
    while i < 32
        invariant
            i <= 32,
            a@.len() == 32,
            b@.len() == 32,
            forall|j: int| 0 <= j < i ==> comp_matches(#[trigger] a@[j], b@[j]),
        decreases 32 - i,
    {
        let ca = &a[i];
        let cb = &b[i];
        if !(ca.publisher.key_eq(&cb.publisher) && info_eqv(&ca.agg, &cb.agg) && info_eqv(
            &ca.latest,
            &cb.latest,
        )) {
            proof {
                assert(!comp_matches(a@[i as int], b@[i as int]));
            }
            return false;
        }
        i = i + 1;
    }
    true
}

/// Compare every shared field of the two populated instances, in
/// declaration order, and report the first one that does not decode
/// equally.
pub fn check_equivalent(o: &pyth_09::PriceAccount, n: &pyth_10::SolanaPriceAccount) -> (r:
    Result<(), LayoutMismatch>)
    requires
        o.wf(),
        n.wf(),
    ensures
        match r {
            Ok(()) => matching(*o, *n),
            Err(LayoutMismatch::ValueMismatch(f)) => !field_matches(*o, *n, f) && forall|g:
                FieldId| field_index(g) < field_index(f) ==> #[trigger] field_matches(*o, *n, g),
            Err(_) => false,
        },
{
    if o.magic != n.magic {
        return Err(LayoutMismatch::ValueMismatch(FieldId::Magic));
    }
    if o.ver != n.ver {
        return Err(LayoutMismatch::ValueMismatch(FieldId::Ver));
    }
    if o.atype != n.atype {
        return Err(LayoutMismatch::ValueMismatch(FieldId::Atype));
    }
    if o.size != n.size {
        return Err(LayoutMismatch::ValueMismatch(FieldId::Size));
    }
    if o.ptype != n.ptype as u32 {
        return Err(LayoutMismatch::ValueMismatch(FieldId::Ptype));
    }
    if o.expo != n.expo {
        return Err(LayoutMismatch::ValueMismatch(FieldId::Expo));
    }
    if o.num != n.num {
        return Err(LayoutMismatch::ValueMismatch(FieldId::Num));
    }
    if o.num_qt != n.num_qt {
        return Err(LayoutMismatch::ValueMismatch(FieldId::NumQt));
    }
    if o.last_slot != n.last_slot {
        return Err(LayoutMismatch::ValueMismatch(FieldId::LastSlot));
    }
    if o.valid_slot != n.valid_slot {
        return Err(LayoutMismatch::ValueMismatch(FieldId::ValidSlot));
    }
    if !rational_eqv(&o.ema_price, &n.ema_price) {
        return Err(LayoutMismatch::ValueMismatch(FieldId::EmaPrice));
    }
    if !rational_eqv(&o.ema_conf, &n.ema_conf) {
        return Err(LayoutMismatch::ValueMismatch(FieldId::EmaConf));
    }
    if o.timestamp != n.timestamp {
        return Err(LayoutMismatch::ValueMismatch(FieldId::Timestamp));
    }
    if o.min_pub != n.min_pub {
        return Err(LayoutMismatch::ValueMismatch(FieldId::MinPub));
    }
    if o.drv2 != n.drv2 {
        return Err(LayoutMismatch::ValueMismatch(FieldId::Drv2));
    }
    if o.drv3 != n.drv3 {
        return Err(LayoutMismatch::ValueMismatch(FieldId::Drv3));
    }
    if o.drv4 != n.drv4 {
        return Err(LayoutMismatch::ValueMismatch(FieldId::Drv4));
    }
    if !o.prod.key_eq(&n.prod) {
        return Err(LayoutMismatch::ValueMismatch(FieldId::Prod));
    }
    if !o.next.key_eq(&n.next) {
        return Err(LayoutMismatch::ValueMismatch(FieldId::Next));
    }
    if o.prev_slot != n.prev_slot {
        return Err(LayoutMismatch::ValueMismatch(FieldId::PrevSlot));
    }
    if o.prev_price != n.prev_price {
        return Err(LayoutMismatch::ValueMismatch(FieldId::PrevPrice));
    }
    if o.prev_conf != n.prev_conf {
        return Err(LayoutMismatch::ValueMismatch(FieldId::PrevConf));
    }
    if o.prev_timestamp != n.prev_timestamp {
        return Err(LayoutMismatch::ValueMismatch(FieldId::PrevTimestamp));
    }
    if !info_eqv(&o.agg, &n.agg) {
        return Err(LayoutMismatch::ValueMismatch(FieldId::Agg));
    }
    if !comps_eqv(&o.comp, &n.comp) {
        return Err(LayoutMismatch::ValueMismatch(FieldId::Comp));
    }
    proof {
        assert forall|f: FieldId| #[trigger] field_matches(*o, *n, f) by {}
    }
    Ok(())
}

/// Compare the byte offset of the shared field `f` in the two dimension
/// tables.
pub fn check_offsets_for(f: FieldId, a: &Vec<FieldDim>, b: &Vec<FieldDim>) -> (r: Result<
    (),
    LayoutMismatch,
>)
    requires
        dims_ok(a@),
        dims_ok(b@),
        field_index(f) < a@.len(),
        field_index(f) < b@.len(),
    ensures
        match r {
            Ok(()) => spec_offset(a@, field_index(f)) == spec_offset(b@, field_index(f)),
            Err(LayoutMismatch::OffsetMismatch(g)) => g == f && spec_offset(a@, field_index(f))
                != spec_offset(b@, field_index(f)),
            Err(_) => false,
        },
{
    let i = f.index();
    let oa = compute_offsets(a);
    let ob = compute_offsets(b);
    if oa[i] == ob[i] {
        Ok(())
    } else {
        Err(LayoutMismatch::OffsetMismatch(f))
    }
}

/// Compare the raw byte images of the two populated instances, byte for
/// byte.
pub fn check_byte_identical(o: &pyth_09::PriceAccount, n: &pyth_10::SolanaPriceAccount) -> (r:
    Result<(), LayoutMismatch>)
    requires
        o.wf(),
        n.wf(),
    ensures
        match r {
            Ok(()) => pyth_09::account_image(*o) == pyth_10::account_image(*n),
            Err(LayoutMismatch::ByteMismatch(i)) => i < 3312 && pyth_09::account_image(*o)[
                i as int] != pyth_10::account_image(*n)[i as int] && forall|j: int|
                0 <= j < i ==> pyth_09::account_image(*o)[j] == pyth_10::account_image(*n)[j],
            Err(_) => false,
        },
{
    let ob = o.raw_bytes();
    let nb = n.raw_bytes();
    proof {
        pyth_09::lemma_account_image_len(*o);
        pyth_10::lemma_account_image_len(*n);
    }
    match bytes_first_diff(&ob, &nb) {
        None => Ok(()),
        Some(i) => Err(LayoutMismatch::ByteMismatch(i)),
    }
}

/// Compare the total size and the alignment of the two layouts.
pub fn check_size_align(a: &Vec<FieldDim>, b: &Vec<FieldDim>) -> (r: Result<(), LayoutMismatch>)
    requires
        dims_ok(a@),
        dims_ok(b@),
    ensures
        match r {
            Ok(()) => spec_record_size(a@) == spec_record_size(b@) && spec_max_align(
                a@,
                a@.len() as int,
            ) == spec_max_align(b@, b@.len() as int),
            Err(LayoutMismatch::SizeMismatch) => spec_record_size(a@) != spec_record_size(b@),
            Err(LayoutMismatch::AlignMismatch) => spec_record_size(a@) == spec_record_size(b@)
                && spec_max_align(a@, a@.len() as int) != spec_max_align(b@, b@.len() as int),
            Err(_) => false,
        },
{
    if record_size(a) != record_size(b) {
        return Err(LayoutMismatch::SizeMismatch);
    }
    if max_align(a) != max_align(b) {
        return Err(LayoutMismatch::AlignMismatch);
    }
    Ok(())
}

/// Offset of the shared field `f` in each of the two declared layouts.
/// The two components are always equal: the layouts place every shared
/// field identically.
pub fn offsets_of(f: FieldId) -> (r: (usize, usize))
    ensures
        r.0 as nat == spec_offset(pyth_09::account_dims_spec(), field_index(f)),
        r.1 as nat == spec_offset(pyth_10::account_dims_spec(), field_index(f)),
        r.0 == r.1,
{
    let a = pyth_09::account_dims();
    let b = pyth_10::account_dims();
    proof {
        pyth_09::lemma_account_dims_ok();
        pyth_10::lemma_account_dims_ok();
        lemma_field_index_bounds(f);
        lemma_offset_equality(f);
    }
    let oa = compute_offsets(&a);
    let ob = compute_offsets(&b);
    let i = f.index();
    (oa[i], ob[i])
}

pub proof fn lemma_field_index_bounds(f: FieldId)
    ensures
        0 <= field_index(f) < 25,
{
}

/// Offset equality: every shared field sits at the same byte offset in
/// the two declared layouts.
pub proof fn lemma_offset_equality(f: FieldId)
    ensures
        spec_offset(pyth_09::account_dims_spec(), field_index(f)) == spec_offset(
            pyth_10::account_dims_spec(),
            field_index(f),
        ),
{
    let od = pyth_09::account_dims_spec();
    let nd = pyth_10::account_dims_spec();
    let i = field_index(f);
    reveal_with_fuel(spec_offset, 7);
    assert(od.len() == 25);
    assert(spec_offset(od, 0) == 0);
    assert(spec_offset(od, 1) == 4);
    assert(spec_offset(od, 2) == 8);
    assert(spec_offset(od, 3) == 12);
    assert(spec_offset(nd, 3) == 12) by {
        lemma_offset_prefix(od, nd, 3);
    }
    assert(spec_offset(od, 4) == 16);
    assert(nd[4] == crate::layout::dim(1, 1));
    assert(nd[5] == od[5]);
    assert(spec_offset(nd, 4) == 16);
    assert(spec_offset(od, 5) == 20);
    assert(spec_offset(nd, 5) == 20);
    if i <= 3 {
        lemma_offset_prefix(od, nd, i);
    } else if i >= 6 {
        lemma_offset_equal_from(od, nd, 5, i);
    }
}


/// Value equality for the directly-comparable fields: on matching
/// instances every plain scalar, key and sub-record field of the later
/// revision decodes to the value the earlier revision holds.
pub proof fn lemma_value_equality(o: pyth_09::PriceAccount, n: pyth_10::SolanaPriceAccount)
    requires
        matching(o, n),
    ensures
        o.magic == n.magic,
        o.ver == n.ver,
        o.atype == n.atype,
        o.size == n.size,
        o.expo == n.expo,
        o.num == n.num,
        o.num_qt == n.num_qt,
        o.last_slot == n.last_slot,
        o.valid_slot == n.valid_slot,
        rational_matches(o.ema_price, n.ema_price),
        rational_matches(o.ema_conf, n.ema_conf),
        o.timestamp == n.timestamp,
        o.min_pub == n.min_pub,
        o.drv2 == n.drv2,
        o.drv3 == n.drv3,
        o.drv4 == n.drv4,
        o.prod.bytes@ == n.prod.bytes@,
        o.next.bytes@ == n.next.bytes@,
        o.prev_slot == n.prev_slot,
        o.prev_price == n.prev_price,
        o.prev_conf == n.prev_conf,
        o.prev_timestamp == n.prev_timestamp,
        o.agg.price == n.agg.price,
        o.agg.conf == n.agg.conf,
        o.agg.pub_slot == n.agg.pub_slot,
        forall|j: int| 0 <= j < 32 ==> comp_matches(#[trigger] o.comp@[j], n.comp@[j]),
{
    assert(field_matches(o, n, FieldId::Magic));
    assert(field_matches(o, n, FieldId::Ver));
    assert(field_matches(o, n, FieldId::Atype));
    assert(field_matches(o, n, FieldId::Size));
    assert(field_matches(o, n, FieldId::Expo));
    assert(field_matches(o, n, FieldId::Num));
    assert(field_matches(o, n, FieldId::NumQt));
    assert(field_matches(o, n, FieldId::LastSlot));
    assert(field_matches(o, n, FieldId::ValidSlot));
    assert(field_matches(o, n, FieldId::EmaPrice));
    assert(field_matches(o, n, FieldId::EmaConf));
    assert(field_matches(o, n, FieldId::Timestamp));
    assert(field_matches(o, n, FieldId::MinPub));
    assert(field_matches(o, n, FieldId::Drv2));
    assert(field_matches(o, n, FieldId::Drv3));
    assert(field_matches(o, n, FieldId::Drv4));
    assert(field_matches(o, n, FieldId::Prod));
    assert(field_matches(o, n, FieldId::Next));
    assert(field_matches(o, n, FieldId::PrevSlot));
    assert(field_matches(o, n, FieldId::PrevPrice));
    assert(field_matches(o, n, FieldId::PrevConf));
    assert(field_matches(o, n, FieldId::PrevTimestamp));
    assert(field_matches(o, n, FieldId::Agg));
    assert(field_matches(o, n, FieldId::Comp));
}

/// Enum numeric equivalence: on matching instances the price-type, status
/// and corporate-action fields carry the same number in both revisions,
/// although the two revisions store them at different widths.
pub proof fn lemma_enum_numeric_equivalence(
    o: pyth_09::PriceAccount,
    n: pyth_10::SolanaPriceAccount,
)
    requires
        matching(o, n),
    ensures
        o.ptype as int == n.ptype as int,
        o.agg.status as int == n.agg.status as int,
        o.agg.corp_act as int == n.agg.corp_act as int,
        forall|j: int|
            0 <= j < 32 ==> (#[trigger] o.comp@[j]).agg.status as int == n.comp@[j].agg.status as int
                && o.comp@[j].agg.corp_act as int == n.comp@[j].agg.corp_act as int
                && o.comp@[j].latest.status as int == n.comp@[j].latest.status as int
                && o.comp@[j].latest.corp_act as int == n.comp@[j].latest.corp_act as int,
{
    assert(field_matches(o, n, FieldId::Ptype));
    assert(field_matches(o, n, FieldId::Agg));
    assert(field_matches(o, n, FieldId::Comp));
}

/// Matching observations with canonical codes have the same byte image,
/// although the enumerated fields are stored 4 bytes wide in the earlier
/// revision and 1 byte wide plus padding in the later one.
pub proof fn lemma_info_images_equal(a: pyth_09::PriceInfo, b: pyth_10::PriceInfo)
    requires
        info_matches(a, b),
        a.valid_codes(),
    ensures
        pyth_09::price_info_image(a) == pyth_10::price_info_image(b),
{
    lemma_pow256_values();
    lemma_le_widen(a.status as nat, 1, 4);
    lemma_le_zero(4);
    lemma_le_zero(1);
    assert(le_bytes(a.status as nat, 4) + le_bytes(a.corp_act as nat, 4) =~= le_bytes(
        b.status as nat,
        1,
    ) + le_bytes(b.corp_act as nat, 1) + zeros(6));
    assert(pyth_09::price_info_image(a) =~= pyth_10::price_info_image(b));
}

/// Matching component entries with canonical codes have the same byte
/// image.
pub proof fn lemma_comp_images_equal(a: pyth_09::PriceComp, b: pyth_10::PriceComp)
    requires
        comp_matches(a, b),
        a.valid_codes(),
    ensures
        pyth_09::comp_image(a) == pyth_10::comp_image(b),
{
    lemma_info_images_equal(a.agg, b.agg);
    lemma_info_images_equal(a.latest, b.latest);
}

/// Matching component arrays with canonical codes have the same byte
/// image, entry by entry.
pub proof fn lemma_comps_images_equal(s: Seq<pyth_09::PriceComp>, t: Seq<pyth_10::PriceComp>, k: int)
    requires
        0 <= k <= s.len(),
        k <= t.len(),
        forall|j: int| 0 <= j < k ==> comp_matches(#[trigger] s[j], t[j]),
        forall|j: int| 0 <= j < k ==> (#[trigger] s[j]).valid_codes(),
    ensures
        pyth_09::comps_image(s, k) == pyth_10::comps_image(t, k),
    decreases k,
{
    if k > 0 {
        lemma_comps_images_equal(s, t, k - 1);
        lemma_comp_images_equal(s[k - 1], t[k - 1]);
    }
}

/// Byte identity: two instances populated with matching field values,
/// every enumerated field holding a canonical variant code, have the same
/// raw byte image.
pub proof fn lemma_byte_identity(o: pyth_09::PriceAccount, n: pyth_10::SolanaPriceAccount)
    requires
        o.wf(),
        n.wf(),
        o.valid_codes(),
        n.valid_codes(),
        matching(o, n),
    ensures
        pyth_09::account_image(o) == pyth_10::account_image(n),
{
    lemma_value_equality(o, n);
    assert(field_matches(o, n, FieldId::Ptype));
    assert(field_matches(o, n, FieldId::Agg));
    lemma_pow256_values();
    lemma_le_widen(o.ptype as nat, 1, 4);
    assert(pyth_09::head_image(o) =~= pyth_10::head_image(n));
    assert(pyth_09::rational_image(o.ema_price) == pyth_10::rational_image(n.ema_price));
    assert(pyth_09::rational_image(o.ema_conf) == pyth_10::rational_image(n.ema_conf));
    assert(pyth_09::mid_image(o) == pyth_10::mid_image(n));
    assert(pyth_09::prev_image(o) == pyth_10::prev_image(n));
    lemma_info_images_equal(o.agg, n.agg);
    lemma_comps_images_equal(o.comp@, n.comp@, 32);
    assert(pyth_09::account_image(o) == pyth_10::account_image(n));
}

/// Size and alignment parity: the two declared layouts have the same
/// total size, 3312 bytes, and the same alignment, 8.
#[verifier::rlimit(50)]
pub proof fn lemma_size_align_parity()
    ensures
        spec_record_size(pyth_09::account_dims_spec()) == 3312,
        spec_record_size(pyth_10::account_dims_spec()) == 3312,
        spec_max_align(
            pyth_09::account_dims_spec(),
            pyth_09::account_dims_spec().len() as int,
        ) == 8,
        spec_max_align(
            pyth_10::account_dims_spec(),
            pyth_10::account_dims_spec().len() as int,
        ) == 8,
{
    let od = pyth_09::account_dims_spec();
    let nd = pyth_10::account_dims_spec();
    reveal_with_fuel(spec_offset, 7);
    assert(od.len() == 25);
    assert(nd.len() == 26);
    lemma_offsets_09_concrete();
    assert(spec_end(od) == 3312);
    lemma_offset_equality(FieldId::Comp);
    assert(spec_offset(nd, 24) == 240);
    assert(spec_offset(nd, 25) == 3312);
    assert(spec_end(nd) == 3312);
    reveal_with_fuel(spec_max_align, 28);
    assert(spec_max_align(od, 8) == 4);
    assert(spec_max_align(od, 9) == 8);
    assert(spec_max_align(od, 25) == 8);
    assert(spec_max_align(nd, 9) == 8);
    assert(spec_max_align(nd, 26) == 8);
}

/// The trailing marker is zero-width: dropping the `extended` entry from
/// the later layout changes neither the record size nor any field offset.
pub proof fn lemma_trailing_marker()
    ensures
        pyth_10::account_dims_spec().last() == crate::layout::dim(0, 1),
        spec_record_size(pyth_10::account_dims_spec()) == spec_record_size(
            pyth_10::account_dims_spec().drop_last(),
        ),
        forall|i: int|
            0 <= i < 25 ==> #[trigger] spec_offset(pyth_10::account_dims_spec(), i) == spec_offset(
                pyth_10::account_dims_spec().drop_last(),
                i,
            ),
{
    let nd = pyth_10::account_dims_spec();
    pyth_10::lemma_account_dims_ok();
    assert(forall|i: int| 0 <= i < nd.len() ==> (#[trigger] nd[i]).align >= 1);
    crate::layout::lemma_zero_width_tail(nd);
}

/// The sub-record dimension tables are consistent with the account
/// tables: the entry a sub-record occupies in the account table carries
/// exactly the size and alignment that the C rule computes for the
/// sub-record's own table.
pub proof fn lemma_sub_record_sizes()
    ensures
        spec_record_size(pyth_09::rational_dims_spec()) == 24,
        spec_record_size(pyth_09::price_info_dims_spec()) == 32,
        spec_record_size(pyth_10::price_info_dims_spec()) == 32,
        spec_record_size(pyth_09::comp_dims_spec()) == 96,
        pyth_09::account_dims_spec()[10].size as nat == spec_record_size(
            pyth_09::rational_dims_spec(),
        ),
        pyth_09::account_dims_spec()[23].size as nat == spec_record_size(
            pyth_09::price_info_dims_spec(),
        ),
        pyth_10::account_dims_spec()[23].size as nat == spec_record_size(
            pyth_10::price_info_dims_spec(),
        ),
        pyth_09::account_dims_spec()[24].size as nat == 32 * spec_record_size(
            pyth_09::comp_dims_spec(),
        ),
{
    let rd = pyth_09::rational_dims_spec();
    let iw = pyth_09::price_info_dims_spec();
    let inr = pyth_10::price_info_dims_spec();
    let cd = pyth_09::comp_dims_spec();
    reveal_with_fuel(spec_offset, 6);
    reveal_with_fuel(spec_max_align, 7);
    assert(spec_offset(rd, 0) == 0);
    assert(spec_offset(rd, 1) == 8);
    assert(spec_offset(rd, 2) == 16);
    assert(spec_end(rd) == 24);
    assert(spec_max_align(rd, 3) == 8);
    assert(spec_offset(iw, 0) == 0);
    assert(spec_offset(iw, 1) == 8);
    assert(spec_offset(iw, 2) == 16);
    assert(spec_offset(iw, 3) == 20);
    assert(spec_offset(iw, 4) == 24);
    assert(spec_end(iw) == 32);
    assert(spec_max_align(iw, 5) == 8);
    assert(inr[2] == crate::layout::dim(1, 1));
    assert(inr[3] == crate::layout::dim(1, 1));
    assert(inr[4] == iw[4]);
    assert(spec_offset(inr, 0) == 0);
    assert(spec_offset(inr, 1) == 8);
    assert(spec_offset(inr, 2) == 16);
    assert(spec_offset(inr, 3) == 17);
    assert(spec_offset(inr, 4) == 24);
    assert(spec_end(inr) == 32);
    assert(spec_max_align(inr, 5) == 8);
    assert(spec_offset(cd, 0) == 0);
    assert(spec_offset(cd, 1) == 32);
    assert(spec_offset(cd, 2) == 64);
    assert(spec_end(cd) == 96);
    assert(spec_max_align(cd, 3) == 8);
}

/// The byte offset of every field of the earlier layout, as the C rule
/// computes it.
pub proof fn lemma_offsets_09_concrete()
    ensures
        spec_offset(pyth_09::account_dims_spec(), 0) == 0,
        spec_offset(pyth_09::account_dims_spec(), 1) == 4,
        spec_offset(pyth_09::account_dims_spec(), 2) == 8,
        spec_offset(pyth_09::account_dims_spec(), 3) == 12,
        spec_offset(pyth_09::account_dims_spec(), 4) == 16,
        spec_offset(pyth_09::account_dims_spec(), 5) == 20,
        spec_offset(pyth_09::account_dims_spec(), 6) == 24,
        spec_offset(pyth_09::account_dims_spec(), 7) == 28,
        spec_offset(pyth_09::account_dims_spec(), 8) == 32,
        spec_offset(pyth_09::account_dims_spec(), 9) == 40,
        spec_offset(pyth_09::account_dims_spec(), 10) == 48,
        spec_offset(pyth_09::account_dims_spec(), 11) == 72,
        spec_offset(pyth_09::account_dims_spec(), 12) == 96,
        spec_offset(pyth_09::account_dims_spec(), 13) == 104,
        spec_offset(pyth_09::account_dims_spec(), 14) == 105,
        spec_offset(pyth_09::account_dims_spec(), 15) == 106,
        spec_offset(pyth_09::account_dims_spec(), 16) == 108,
        spec_offset(pyth_09::account_dims_spec(), 17) == 112,
        spec_offset(pyth_09::account_dims_spec(), 18) == 144,
        spec_offset(pyth_09::account_dims_spec(), 19) == 176,
        spec_offset(pyth_09::account_dims_spec(), 20) == 184,
        spec_offset(pyth_09::account_dims_spec(), 21) == 192,
        spec_offset(pyth_09::account_dims_spec(), 22) == 200,
        spec_offset(pyth_09::account_dims_spec(), 23) == 208,
        spec_offset(pyth_09::account_dims_spec(), 24) == 240,
{
    let od = pyth_09::account_dims_spec();
    reveal_with_fuel(spec_offset, 7);
    assert(spec_offset(od, 0) == 0);
    assert(spec_offset(od, 1) == 4);
    assert(spec_offset(od, 2) == 8);
    assert(spec_offset(od, 3) == 12);
    assert(spec_offset(od, 4) == 16);
    assert(spec_offset(od, 5) == 20);
    assert(spec_offset(od, 6) == 24);
    assert(spec_offset(od, 7) == 28);
    assert(spec_offset(od, 8) == 32);
    assert(spec_offset(od, 9) == 40);
    assert(spec_offset(od, 10) == 48);
    assert(spec_offset(od, 11) == 72);
    assert(spec_offset(od, 12) == 96);
    assert(spec_offset(od, 13) == 104);
    assert(spec_offset(od, 14) == 105);
    assert(spec_offset(od, 15) == 106);
    assert(spec_offset(od, 16) == 108);
    assert(spec_offset(od, 17) == 112);
    assert(spec_offset(od, 18) == 144);
    assert(spec_offset(od, 19) == 176);
    assert(spec_offset(od, 20) == 184);
    assert(spec_offset(od, 21) == 192);
    assert(spec_offset(od, 22) == 200);
    assert(spec_offset(od, 23) == 208);
    assert(spec_offset(od, 24) == 240);
}

} // verus!




