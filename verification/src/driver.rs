//! The verification driver: build one fully populated instance of each
//! revision with distinct deterministic values, then run every check —
//! per-field offsets, decoded values, raw bytes, size and alignment.

use crate::check::{
    check_byte_identical, check_equivalent, check_offsets_for, check_size_align, comp_matches,
    field_index, field_matches, lemma_byte_identity, lemma_field_index_bounds,
    lemma_offset_equality, lemma_size_align_parity, matching, FieldId, LayoutMismatch,
};
use crate::pubkey::Pubkey;
use crate::pyth_09;
use crate::pyth_10;
use crate::variants::{CorpAction, PriceStatus, PriceType};
use vstd::prelude::*;

verus! {

/// The deterministic sample values of the earlier revision: every field
/// populated, no two fields sharing a value.
pub open spec fn sample_09(p: pyth_09::PriceAccount) -> bool {
    &&& p.magic == 1
    &&& p.ver == 2
    &&& p.atype == 3
    &&& p.size == 4
    &&& p.ptype == 1
    &&& p.expo == 5
    &&& p.num == 6
    &&& p.num_qt == 7
    &&& p.last_slot == 8
    &&& p.valid_slot == 9
    &&& p.ema_price == (pyth_09::Rational { val: 10, numer: 11, denom: 12 })
    &&& p.ema_conf == (pyth_09::Rational { val: 13, numer: 14, denom: 15 })
    &&& p.timestamp == 16
    &&& p.min_pub == 17
    &&& p.drv2 == 18
    &&& p.drv3 == 19
    &&& p.drv4 == 20
    &&& p.prod.bytes@ == Seq::new(32, |i: int| 204u8)
    &&& p.next.bytes@ == Seq::new(32, |i: int| 205u8)
    &&& p.prev_slot == 21
    &&& p.prev_price == 22
    &&& p.prev_conf == 23
    &&& p.prev_timestamp == 24
    &&& p.agg == (pyth_09::PriceInfo { price: 25, conf: 26, status: 1, corp_act: 0, pub_slot: 27 })
    &&& p.comp@.len() == 32
    &&& forall|j: int|
        0 <= j < 32 ==> (#[trigger] p.comp@[j]).publisher.bytes@ == Seq::new(32, |i: int| 0u8)
            && p.comp@[j].agg == (pyth_09::PriceInfo {
            price: 0,
            conf: 0,
            status: 0,
            corp_act: 0,
            pub_slot: 0,
        }) && p.comp@[j].latest == (pyth_09::PriceInfo {
            price: 0,
            conf: 0,
            status: 0,
            corp_act: 0,
            pub_slot: 0,
        })
}

/// The same sample values, held by the later revision.
pub open spec fn sample_10(p: pyth_10::SolanaPriceAccount) -> bool {
    &&& p.magic == 1
    &&& p.ver == 2
    &&& p.atype == 3
    &&& p.size == 4
    &&& p.ptype == 1
    &&& p.expo == 5
    &&& p.num == 6
    &&& p.num_qt == 7
    &&& p.last_slot == 8
    &&& p.valid_slot == 9
    &&& p.ema_price == (pyth_10::Rational { val: 10, numer: 11, denom: 12 })
    &&& p.ema_conf == (pyth_10::Rational { val: 13, numer: 14, denom: 15 })
    &&& p.timestamp == 16
    &&& p.min_pub == 17
    &&& p.drv2 == 18
    &&& p.drv3 == 19
    &&& p.drv4 == 20
    &&& p.prod.bytes@ == Seq::new(32, |i: int| 204u8)
    &&& p.next.bytes@ == Seq::new(32, |i: int| 205u8)
    &&& p.prev_slot == 21
    &&& p.prev_price == 22
    &&& p.prev_conf == 23
    &&& p.prev_timestamp == 24
    &&& p.agg == (pyth_10::PriceInfo { price: 25, conf: 26, status: 1, corp_act: 0, pub_slot: 27 })
    &&& p.comp@.len() == 32
    &&& forall|j: int|
        0 <= j < 32 ==> (#[trigger] p.comp@[j]).publisher.bytes@ == Seq::new(32, |i: int| 0u8)
            && p.comp@[j].agg == (pyth_10::PriceInfo {
            price: 0,
            conf: 0,
            status: 0,
            corp_act: 0,
            pub_slot: 0,
        }) && p.comp@[j].latest == (pyth_10::PriceInfo {
            price: 0,
            conf: 0,
            status: 0,
            corp_act: 0,
            pub_slot: 0,
        })
}

/// An empty component array: 32 default entries.
fn default_comps_09() -> (r: Vec<pyth_09::PriceComp>)
    ensures
        r@.len() == 32,
        forall|j: int|
            0 <= j < 32 ==> (#[trigger] r@[j]).publisher.bytes@ == Seq::new(32, |i: int| 0u8)
                && r@[j].agg == (pyth_09::PriceInfo {
                price: 0,
                conf: 0,
                status: 0,
                corp_act: 0,
                pub_slot: 0,
            }) && r@[j].latest == (pyth_09::PriceInfo {
                price: 0,
                conf: 0,
                status: 0,
                corp_act: 0,
                pub_slot: 0,
            }),
{
    let mut r: Vec<pyth_09::PriceComp> = Vec::new();
    let mut k: usize = 0;
    while k < 32
        invariant
            k <= 32,
            r@.len() == k,
            forall|j: int|
                0 <= j < k ==> (#[trigger] r@[j]).publisher.bytes@ == Seq::new(32, |i: int| 0u8)
                    && r@[j].agg == (pyth_09::PriceInfo {
                    price: 0,
                    conf: 0,
                    status: 0,
                    corp_act: 0,
                    pub_slot: 0,
                }) && r@[j].latest == (pyth_09::PriceInfo {
                    price: 0,
                    conf: 0,
                    status: 0,
                    corp_act: 0,
                    pub_slot: 0,
                }),
        decreases 32 - k,
    {
        r.push(pyth_09::PriceComp::default());
        k = k + 1;
    }
    r
}

/// An empty component array: 32 default entries.
fn default_comps_10() -> (r: Vec<pyth_10::PriceComp>)
    ensures
        r@.len() == 32,
        forall|j: int|
            0 <= j < 32 ==> (#[trigger] r@[j]).publisher.bytes@ == Seq::new(32, |i: int| 0u8)
                && r@[j].agg == (pyth_10::PriceInfo {
                price: 0,
                conf: 0,
                status: 0,
                corp_act: 0,
                pub_slot: 0,
            }) && r@[j].latest == (pyth_10::PriceInfo {
                price: 0,
                conf: 0,
                status: 0,
                corp_act: 0,
                pub_slot: 0,
            }),
{
    let mut r: Vec<pyth_10::PriceComp> = Vec::new();
    let mut k: usize = 0;
    while k < 32
        invariant
            k <= 32,
            r@.len() == k,
            forall|j: int|
                0 <= j < k ==> (#[trigger] r@[j]).publisher.bytes@ == Seq::new(32, |i: int| 0u8)
                    && r@[j].agg == (pyth_10::PriceInfo {
                    price: 0,
                    conf: 0,
                    status: 0,
                    corp_act: 0,
                    pub_slot: 0,
                }) && r@[j].latest == (pyth_10::PriceInfo {
                    price: 0,
                    conf: 0,
                    status: 0,
                    corp_act: 0,
                    pub_slot: 0,
                }),
        decreases 32 - k,
    {
        r.push(pyth_10::PriceComp::default());
        k = k + 1;
    }
    r
}

/// A fully populated instance of the earlier revision.
pub fn old_gen() -> (r: pyth_09::PriceAccount)
    ensures
        sample_09(r),
{
    pyth_09::PriceAccount {
        magic: 1,
        ver: 2,
        atype: 3,
        size: 4,
        ptype: PriceType::Price.code() as u32,
        expo: 5,
        num: 6,
        num_qt: 7,
        last_slot: 8,
        valid_slot: 9,
        ema_price: pyth_09::Rational { val: 10, numer: 11, denom: 12 },
        ema_conf: pyth_09::Rational { val: 13, numer: 14, denom: 15 },
        timestamp: 16,
        min_pub: 17,
        drv2: 18,
        drv3: 19,
        drv4: 20,
        prod: Pubkey::new_filled(204),
        next: Pubkey::new_filled(205),
        prev_slot: 21,
        prev_price: 22,
        prev_conf: 23,
        prev_timestamp: 24,
        agg: pyth_09::PriceInfo {
            price: 25,
            conf: 26,
            status: PriceStatus::Trading.code() as u32,
            corp_act: CorpAction::NoCorpAct.code() as u32,
            pub_slot: 27,
        },
        comp: default_comps_09(),
    }
}

/// A fully populated instance of the later revision, holding the same
/// values as [`old_gen`].
pub fn new_gen() -> (r: pyth_10::SolanaPriceAccount)
    ensures
        sample_10(r),
{
    pyth_10::SolanaPriceAccount {
        magic: 1,
        ver: 2,
        atype: 3,
        size: 4,
        ptype: PriceType::Price.code(),
        expo: 5,
        num: 6,
        num_qt: 7,
        last_slot: 8,
        valid_slot: 9,
        ema_price: pyth_10::Rational { val: 10, numer: 11, denom: 12 },
        ema_conf: pyth_10::Rational { val: 13, numer: 14, denom: 15 },
        timestamp: 16,
        min_pub: 17,
        drv2: 18,
        drv3: 19,
        drv4: 20,
        prod: Pubkey::new_filled(204),
        next: Pubkey::new_filled(205),
        prev_slot: 21,
        prev_price: 22,
        prev_conf: 23,
        prev_timestamp: 24,
        agg: pyth_10::PriceInfo {
            price: 25,
            conf: 26,
            status: PriceStatus::Trading.code(),
            corp_act: CorpAction::NoCorpAct.code(),
            pub_slot: 27,
        },
        comp: default_comps_10(),
        extended: (),
    }
}

/// Two instances holding the sample values are well-formed, carry
/// canonical codes, and match field for field.
pub proof fn lemma_samples_match(o: pyth_09::PriceAccount, n: pyth_10::SolanaPriceAccount)
    requires
        sample_09(o),
        sample_10(n),
    ensures
        o.wf(),
        n.wf(),
        o.valid_codes(),
        n.valid_codes(),
        matching(o, n),
{
    assert forall|j: int| 0 <= j < 32 implies (#[trigger] o.comp@[j]).wf()
        && o.comp@[j].valid_codes() && n.comp@[j].wf() && n.comp@[j].valid_codes()
        && comp_matches(o.comp@[j], n.comp@[j]) by {}
    assert forall|f: FieldId| #[trigger] field_matches(o, n, f) by {}
}

/// Every shared field, in declaration order.
pub fn all_fields() -> (r: Vec<FieldId>)
    ensures
        r@.len() == 25,
        forall|i: int| 0 <= i < 25 ==> field_index(#[trigger] r@[i]) == i,
{
    let mut r: Vec<FieldId> = Vec::new();
    r.push(FieldId::Magic);
    r.push(FieldId::Ver);
    r.push(FieldId::Atype);
    r.push(FieldId::Size);
    r.push(FieldId::Ptype);
    r.push(FieldId::Expo);
    r.push(FieldId::Num);
    r.push(FieldId::NumQt);
    r.push(FieldId::LastSlot);
    r.push(FieldId::ValidSlot);
    r.push(FieldId::EmaPrice);
    r.push(FieldId::EmaConf);
    r.push(FieldId::Timestamp);
    r.push(FieldId::MinPub);
    r.push(FieldId::Drv2);
    r.push(FieldId::Drv3);
    r.push(FieldId::Drv4);
    r.push(FieldId::Prod);
    r.push(FieldId::Next);
    r.push(FieldId::PrevSlot);
    r.push(FieldId::PrevPrice);
    r.push(FieldId::PrevConf);
    r.push(FieldId::PrevTimestamp);
    r.push(FieldId::Agg);
    r.push(FieldId::Comp);
    r
}

/// Run the whole layout-equivalence check: construct the two populated
/// instances, compare the offset of every shared field, then the decoded
/// values, then the raw byte images, then size and alignment. Every check
/// is proved to pass: the result is always success.
pub fn processor() -> (r: Result<(), LayoutMismatch>)
    ensures
        r == Ok::<(), LayoutMismatch>(()),
{
    let o = old_gen();
    let n = new_gen();
    proof {
        lemma_samples_match(o, n);
    }
    let a = pyth_09::account_dims();
    let b = pyth_10::account_dims();
    proof {
        pyth_09::lemma_account_dims_ok();
        pyth_10::lemma_account_dims_ok();
    }
    let fields = all_fields();
    let mut i: usize = 0;
    while i < 25
        invariant
            i <= 25,
            fields@.len() == 25,
            a@ == pyth_09::account_dims_spec(),
            b@ == pyth_10::account_dims_spec(),
        decreases 25 - i,
    {
        let f = fields[i];
        proof {
            lemma_field_index_bounds(f);
            lemma_offset_equality(f);
        }
        match check_offsets_for(f, &a, &b) {
            Ok(()) => {},
            Err(e) => {
                return Err(e);
            },
        }
        i = i + 1;
    }
    match check_equivalent(&o, &n) {
        Ok(()) => {},
        Err(e) => {
            return Err(e);
        },
    }
    proof {
        lemma_byte_identity(o, n);
    }
    match check_byte_identical(&o, &n) {
        Ok(()) => {},
        Err(e) => {
            return Err(e);
        },
    }
    proof {
        lemma_size_align_parity();
    }
    match check_size_align(&a, &b) {
        Ok(()) => {},
        Err(e) => {
            return Err(e);
        },
    }
    Ok(())
}

} // verus!
