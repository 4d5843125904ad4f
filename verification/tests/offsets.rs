use pyth_layout::check::{check_offsets_for, offsets_of, FieldId, LayoutMismatch};
use pyth_layout::driver::all_fields;
use pyth_layout::layout::{compute_offsets, max_align, record_size};
use pyth_layout::pyth_09;
use pyth_layout::pyth_10;

#[test]
fn basic() {
    println!(
        "PriceAccountV0_9_0 size {} align {}",
        record_size(&pyth_09::account_dims()),
        max_align(&pyth_09::account_dims())
    );
    println!(
        "PriceAccountV0_10_1 size {} align {}",
        record_size(&pyth_10::account_dims()),
        max_align(&pyth_10::account_dims())
    );
    for f in all_fields() {
        let (a, b) = offsets_of(f);
        println!("{:?} old offset {} new offset {}", f, a, b);
    }
}

#[test]
fn scenario_a_every_shared_field_offset_equal() {
    for f in all_fields() {
        let (a, b) = offsets_of(f);
        assert_eq!(a, b, "{:?}", f);
    }
}

#[test]
fn known_offsets() {
    assert_eq!(offsets_of(FieldId::Magic), (0, 0));
    assert_eq!(offsets_of(FieldId::Ptype), (16, 16));
    assert_eq!(offsets_of(FieldId::Expo), (20, 20));
    assert_eq!(offsets_of(FieldId::EmaPrice), (48, 48));
    assert_eq!(offsets_of(FieldId::MinPub), (104, 104));
    assert_eq!(offsets_of(FieldId::Prod), (112, 112));
    assert_eq!(offsets_of(FieldId::Agg), (208, 208));
    assert_eq!(offsets_of(FieldId::Comp), (240, 240));
}

#[test]
fn sizes_and_alignments() {
    let a = pyth_09::account_dims();
    let b = pyth_10::account_dims();
    assert_eq!(record_size(&a), 3312);
    assert_eq!(record_size(&b), 3312);
    assert_eq!(max_align(&a), 8);
    assert_eq!(max_align(&b), 8);
    // The sub-record tables agree with the entries the account tables use.
    assert_eq!(record_size(&pyth_09::rational_dims()), 24);
    assert_eq!(record_size(&pyth_09::price_info_dims()), 32);
    assert_eq!(record_size(&pyth_10::price_info_dims()), 32);
    assert_eq!(record_size(&pyth_09::comp_dims()), 96);
}

#[test]
fn scenario_c_reordered_fields_break_offsets() {
    let a = pyth_09::account_dims();
    let mut swapped = pyth_10::account_dims();
    swapped.swap(5, 8); // expo and last_slot trade places
    let oa = compute_offsets(&a);
    let ob = compute_offsets(&swapped);
    assert_ne!(oa[5], ob[5]);
    assert_eq!(
        check_offsets_for(FieldId::Expo, &a, &swapped),
        Err(LayoutMismatch::OffsetMismatch(FieldId::Expo))
    );
    // An untouched early field still lines up.
    assert_eq!(check_offsets_for(FieldId::Size, &a, &swapped), Ok(()));
}

#[test]
fn trailing_marker_is_zero_width() {
    let with_marker = pyth_10::account_dims();
    let mut without = pyth_10::account_dims();
    without.pop();
    assert_eq!(record_size(&with_marker), record_size(&without));
    assert_eq!(max_align(&with_marker), max_align(&without));
    let ow = compute_offsets(&with_marker);
    let oo = compute_offsets(&without);
    assert_eq!(&ow[..25], &oo[..25]);
    assert_eq!(ow[25], 3312); // the marker sits at the very end
}
