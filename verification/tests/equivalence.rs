use pyth_layout::check::{
    check_byte_identical, check_equivalent, check_size_align, FieldId, LayoutMismatch,
};
use pyth_layout::driver::{new_gen, old_gen, processor};
use pyth_layout::layout::FieldDim;
use pyth_layout::pubkey::Pubkey;
use pyth_layout::pyth_09;
use pyth_layout::pyth_10;
use pyth_layout::variants::{CorpAction, PriceStatus, PriceType};

fn comps_09() -> Vec<pyth_09::PriceComp> {
    (0..32).map(|_| pyth_09::PriceComp::default()).collect()
}

#[test]
fn processor_passes() {
    assert_eq!(processor(), Ok(()));
}

#[test]
fn scenario_a_matching_literals_pass() {
    // The same literal values, constructed by hand in both shapes.
    let o = pyth_09::PriceAccount {
        magic: 1,
        ver: 2,
        atype: 3,
        size: 4,
        ptype: PriceType::Price.code() as u32,
        expo: 5,
        num: 6,
        num_qt: 7,
        last_slot: 8,
        valid_slot: 9,
        ema_price: pyth_09::Rational { val: 10, numer: 11, denom: 12 },
        ema_conf: pyth_09::Rational { val: 13, numer: 14, denom: 15 },
        timestamp: 16,
        min_pub: 17,
        drv2: 18,
        drv3: 19,
        drv4: 20,
        prod: Pubkey { bytes: vec![204; 32] },
        next: Pubkey { bytes: vec![205; 32] },
        prev_slot: 21,
        prev_price: 22,
        prev_conf: 23,
        prev_timestamp: 24,
        agg: pyth_09::PriceInfo {
            price: 25,
            conf: 26,
            status: PriceStatus::Trading.code() as u32,
            corp_act: CorpAction::NoCorpAct.code() as u32,
            pub_slot: 27,
        },
        comp: comps_09(),
    };
    let n = new_gen();
    assert_eq!(check_equivalent(&o, &n), Ok(()));
    assert_eq!(check_byte_identical(&o, &n), Ok(()));
    let a = pyth_09::account_dims();
    let b = pyth_10::account_dims();
    assert_eq!(check_size_align(&a, &b), Ok(()));
}

#[test]
fn scenario_b_out_of_range_price_type_reported() {
    let o = old_gen();
    let mut n = new_gen();
    // An encoding outside the earlier revision's variant set.
    n.ptype = 9;
    assert_eq!(
        check_equivalent(&o, &n),
        Err(LayoutMismatch::ValueMismatch(FieldId::Ptype))
    );
}

#[test]
fn first_mismatching_field_is_reported() {
    let o = old_gen();
    let mut n = new_gen();
    n.ver = 99;
    n.prev_conf = 98;
    // `ver` comes first in declaration order.
    assert_eq!(
        check_equivalent(&o, &n),
        Err(LayoutMismatch::ValueMismatch(FieldId::Ver))
    );
}

#[test]
fn component_entry_mismatch_reported() {
    let o = old_gen();
    let mut n = new_gen();
    n.comp[31].latest.pub_slot = 999;
    assert_eq!(
        check_equivalent(&o, &n),
        Err(LayoutMismatch::ValueMismatch(FieldId::Comp))
    );
}

#[test]
fn status_mismatch_in_aggregate_reported() {
    let o = old_gen();
    let mut n = new_gen();
    n.agg.status = PriceStatus::Halted.code();
    assert_eq!(
        check_equivalent(&o, &n),
        Err(LayoutMismatch::ValueMismatch(FieldId::Agg))
    );
}

#[test]
fn byte_images_identical() {
    let o = old_gen();
    let n = new_gen();
    let ob = o.raw_bytes();
    let nb = n.raw_bytes();
    assert_eq!(ob.len(), 3312);
    assert_eq!(ob, nb);
    // Spot checks against the declared offsets.
    assert_eq!(ob[0], 1); // magic
    assert_eq!(ob[4], 2); // ver
    assert_eq!(ob[16], 1); // ptype encoding
    assert_eq!(&ob[17..20], &[0, 0, 0]); // high bytes / padding
    assert_eq!(ob[20], 5); // expo
    assert_eq!(ob[112], 204); // prod key
    assert_eq!(ob[144], 205); // next key
    assert_eq!(ob[208], 25); // agg.price
    assert_eq!(ob[224], 1); // agg.status encoding
    assert_eq!(ob[240], 0); // first component entry
}

#[test]
fn byte_mismatch_position_reported() {
    let o = old_gen();
    let mut n = new_gen();
    n.prev_price = 99;
    // prev_price sits at offset 184 in both layouts.
    assert_eq!(
        check_byte_identical(&o, &n),
        Err(LayoutMismatch::ByteMismatch(184))
    );
}

#[test]
fn size_and_align_mismatches_reported() {
    let a = pyth_09::account_dims();
    let mut bigger = pyth_09::account_dims();
    bigger.push(FieldDim { size: 8, align: 8 });
    assert_eq!(
        check_size_align(&a, &bigger),
        Err(LayoutMismatch::SizeMismatch)
    );
    let mut overaligned = pyth_09::account_dims();
    overaligned[24] = FieldDim { size: 3072, align: 16 };
    assert_eq!(
        check_size_align(&a, &overaligned),
        Err(LayoutMismatch::AlignMismatch)
    );
}

#[test]
fn scenario_d_widened_status_keeps_equivalence() {
    // Widen the status entry of the later revision's observation table
    // back to 4 bytes: the C rule gives the same sub-record size, and the
    // numeric-cast comparison of the values is unaffected.
    let mut widened = pyth_10::price_info_dims();
    widened[2] = FieldDim { size: 4, align: 4 };
    let wide = pyth_09::price_info_dims();
    assert_eq!(
        pyth_layout::layout::record_size(&widened),
        pyth_layout::layout::record_size(&wide)
    );
    assert_eq!(check_equivalent(&old_gen(), &new_gen()), Ok(()));
}

#[test]
fn variant_codes_agree_across_widths() {
    assert_eq!(PriceType::Price.code(), 1);
    assert_eq!(PriceType::from_code(1), Some(PriceType::Price));
    assert_eq!(PriceType::from_code(2), None);
    assert_eq!(PriceStatus::Trading.code(), 1);
    assert_eq!(PriceStatus::from_code(3), Some(PriceStatus::Auction));
    assert_eq!(PriceStatus::from_code(4), None);
    assert_eq!(CorpAction::NoCorpAct.code(), 0);
    assert_eq!(CorpAction::from_code(1), None);
    // The wide and the narrow storage carry the same number.
    assert_eq!(PriceStatus::Trading.code() as u32 as i64, PriceStatus::Trading.code() as i64);
    assert_eq!(PriceType::Price.code() as u32 as i64, PriceType::Price.code() as i64);
}

#[test]
fn pubkey_from_bytes_checks_length() {
    assert!(Pubkey::from_bytes(vec![7; 31]).is_none());
    let k = Pubkey::from_bytes(vec![7; 32]).unwrap();
    assert_eq!(k.bytes, vec![7; 32]);
    let other = Pubkey::new_filled(7);
    assert!(k.key_eq(&other));
}
