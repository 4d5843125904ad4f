//! Where each shared field's bytes sit: the slice of a record's byte
//! image at the field's computed offset is exactly the field's own
//! little-endian image. This ties the offset computation and the raw byte
//! image together — comparing whole images compares every field in place.

use crate::bytes::{le_bytes, rep32, rep64};
use crate::check::{field_index, lemma_offset_equality, lemma_offsets_09_concrete, FieldId};
use crate::layout::spec_offset;
use crate::pyth_09;
use crate::pyth_10;
use vstd::prelude::*;

verus! {

/// The bytes that field `f` itself contributes to the earlier revision's
/// image.
pub open spec fn field_image_09(p: pyth_09::PriceAccount, f: FieldId) -> Seq<u8> {
    match f {
        FieldId::Magic => le_bytes(p.magic as nat, 4),
        FieldId::Ver => le_bytes(p.ver as nat, 4),
        FieldId::Atype => le_bytes(p.atype as nat, 4),
        FieldId::Size => le_bytes(p.size as nat, 4),
        FieldId::Ptype => le_bytes(p.ptype as nat, 4),
        FieldId::Expo => le_bytes(rep32(p.expo), 4),
        FieldId::Num => le_bytes(p.num as nat, 4),
        FieldId::NumQt => le_bytes(p.num_qt as nat, 4),
        FieldId::LastSlot => le_bytes(p.last_slot as nat, 8),
        FieldId::ValidSlot => le_bytes(p.valid_slot as nat, 8),
        FieldId::EmaPrice => pyth_09::rational_image(p.ema_price),
        FieldId::EmaConf => pyth_09::rational_image(p.ema_conf),
        FieldId::Timestamp => le_bytes(rep64(p.timestamp), 8),
        FieldId::MinPub => le_bytes(p.min_pub as nat, 1),
        FieldId::Drv2 => le_bytes(p.drv2 as nat, 1),
        FieldId::Drv3 => le_bytes(p.drv3 as nat, 2),
        FieldId::Drv4 => le_bytes(p.drv4 as nat, 4),
        FieldId::Prod => p.prod.bytes@,
        FieldId::Next => p.next.bytes@,
        FieldId::PrevSlot => le_bytes(p.prev_slot as nat, 8),
        FieldId::PrevPrice => le_bytes(rep64(p.prev_price), 8),
        FieldId::PrevConf => le_bytes(p.prev_conf as nat, 8),
        FieldId::PrevTimestamp => le_bytes(rep64(p.prev_timestamp), 8),
        FieldId::Agg => pyth_09::price_info_image(p.agg),
        FieldId::Comp => pyth_09::comps_image(p.comp@, 32),
    }
}

/// The bytes that field `f` itself contributes to the later revision's
/// image. The price type takes a single byte here; the padding behind it
/// belongs to no field.
pub open spec fn field_image_10(p: pyth_10::SolanaPriceAccount, f: FieldId) -> Seq<u8> {
    match f {
        FieldId::Magic => le_bytes(p.magic as nat, 4),
        FieldId::Ver => le_bytes(p.ver as nat, 4),
        FieldId::Atype => le_bytes(p.atype as nat, 4),
        FieldId::Size => le_bytes(p.size as nat, 4),
        FieldId::Ptype => le_bytes(p.ptype as nat, 1),
        FieldId::Expo => le_bytes(rep32(p.expo), 4),
        FieldId::Num => le_bytes(p.num as nat, 4),
        FieldId::NumQt => le_bytes(p.num_qt as nat, 4),
        FieldId::LastSlot => le_bytes(p.last_slot as nat, 8),
        FieldId::ValidSlot => le_bytes(p.valid_slot as nat, 8),
        FieldId::EmaPrice => pyth_10::rational_image(p.ema_price),
        FieldId::EmaConf => pyth_10::rational_image(p.ema_conf),
        FieldId::Timestamp => le_bytes(rep64(p.timestamp), 8),
        FieldId::MinPub => le_bytes(p.min_pub as nat, 1),
        FieldId::Drv2 => le_bytes(p.drv2 as nat, 1),
        FieldId::Drv3 => le_bytes(p.drv3 as nat, 2),
        FieldId::Drv4 => le_bytes(p.drv4 as nat, 4),
        FieldId::Prod => p.prod.bytes@,
        FieldId::Next => p.next.bytes@,
        FieldId::PrevSlot => le_bytes(p.prev_slot as nat, 8),
        FieldId::PrevPrice => le_bytes(rep64(p.prev_price), 8),
        FieldId::PrevConf => le_bytes(p.prev_conf as nat, 8),
        FieldId::PrevTimestamp => le_bytes(rep64(p.prev_timestamp), 8),
        FieldId::Agg => pyth_10::price_info_image(p.agg),
        FieldId::Comp => pyth_10::comps_image(p.comp@, 32),
    }
}

/// In the earlier revision, every field's bytes sit exactly at the offset
/// the layout rule computes for it.
pub proof fn lemma_field_slice_09(p: pyth_09::PriceAccount, f: FieldId)
    requires
        p.wf(),
    ensures
        ({
            let dims = pyth_09::account_dims_spec();
            let off = spec_offset(dims, field_index(f)) as int;
            pyth_09::account_image(p).subrange(off, off + dims[field_index(f)].size)
                == field_image_09(p, f)
        }),
{
    lemma_offsets_09_concrete();
    pyth_09::lemma_comps_image_len(p.comp@, 32);
    let img = pyth_09::account_image(p);
    match f {
        FieldId::Magic => {
            assert(img.subrange(0, 4) =~= field_image_09(p, f));
        },
        FieldId::Ver => {
            assert(img.subrange(4, 8) =~= field_image_09(p, f));
        },
        FieldId::Atype => {
            assert(img.subrange(8, 12) =~= field_image_09(p, f));
        },
        FieldId::Size => {
            assert(img.subrange(12, 16) =~= field_image_09(p, f));
        },
        FieldId::Ptype => {
            assert(img.subrange(16, 20) =~= field_image_09(p, f));
        },
        FieldId::Expo => {
            assert(img.subrange(20, 24) =~= field_image_09(p, f));
        },
        FieldId::Num => {
            assert(img.subrange(24, 28) =~= field_image_09(p, f));
        },
        FieldId::NumQt => {
            assert(img.subrange(28, 32) =~= field_image_09(p, f));
        },
        FieldId::LastSlot => {
            assert(img.subrange(32, 40) =~= field_image_09(p, f));
        },
        FieldId::ValidSlot => {
            assert(img.subrange(40, 48) =~= field_image_09(p, f));
        },
        FieldId::EmaPrice => {
            assert(img.subrange(48, 72) =~= field_image_09(p, f));
        },
        FieldId::EmaConf => {
            assert(img.subrange(72, 96) =~= field_image_09(p, f));
        },
        FieldId::Timestamp => {
            assert(img.subrange(96, 104) =~= field_image_09(p, f));
        },
        FieldId::MinPub => {
            assert(img.subrange(104, 105) =~= field_image_09(p, f));
        },
        FieldId::Drv2 => {
            assert(img.subrange(105, 106) =~= field_image_09(p, f));
        },
        FieldId::Drv3 => {
            assert(img.subrange(106, 108) =~= field_image_09(p, f));
        },
        FieldId::Drv4 => {
            assert(img.subrange(108, 112) =~= field_image_09(p, f));
        },
        FieldId::Prod => {
            assert(img.subrange(112, 144) =~= field_image_09(p, f));
        },
        FieldId::Next => {
            assert(img.subrange(144, 176) =~= field_image_09(p, f));
        },
        FieldId::PrevSlot => {
            assert(img.subrange(176, 184) =~= field_image_09(p, f));
        },
        FieldId::PrevPrice => {
            assert(img.subrange(184, 192) =~= field_image_09(p, f));
        },
        FieldId::PrevConf => {
            assert(img.subrange(192, 200) =~= field_image_09(p, f));
        },
        FieldId::PrevTimestamp => {
            assert(img.subrange(200, 208) =~= field_image_09(p, f));
        },
        FieldId::Agg => {
            assert(img.subrange(208, 240) =~= field_image_09(p, f));
        },
        FieldId::Comp => {
            assert(img.subrange(240, 3312) =~= field_image_09(p, f));
        },
    }
}

/// In the later revision too, every field's bytes sit exactly at the
/// offset the layout rule computes for it — with the narrowed price type
/// occupying one byte of the four it used to.
pub proof fn lemma_field_slice_10(p: pyth_10::SolanaPriceAccount, f: FieldId)
    requires
        p.wf(),
    ensures
        ({
            let dims = pyth_10::account_dims_spec();
            let off = spec_offset(dims, field_index(f)) as int;
            pyth_10::account_image(p).subrange(off, off + dims[field_index(f)].size)
                == field_image_10(p, f)
        }),
{
    lemma_offsets_09_concrete();
    lemma_offset_equality(f);
    pyth_10::lemma_comps_image_len(p.comp@, 32);
    let img = pyth_10::account_image(p);
    match f {
        FieldId::Magic => {
            assert(img.subrange(0, 4) =~= field_image_10(p, f));
        },
        FieldId::Ver => {
            assert(img.subrange(4, 8) =~= field_image_10(p, f));
        },
        FieldId::Atype => {
            assert(img.subrange(8, 12) =~= field_image_10(p, f));
        },
        FieldId::Size => {
            assert(img.subrange(12, 16) =~= field_image_10(p, f));
        },
        FieldId::Ptype => {
            assert(img.subrange(16, 17) =~= field_image_10(p, f));
        },
        FieldId::Expo => {
            assert(img.subrange(20, 24) =~= field_image_10(p, f));
        },
        FieldId::Num => {
            assert(img.subrange(24, 28) =~= field_image_10(p, f));
        },
        FieldId::NumQt => {
            assert(img.subrange(28, 32) =~= field_image_10(p, f));
        },
        FieldId::LastSlot => {
            assert(img.subrange(32, 40) =~= field_image_10(p, f));
        },
        FieldId::ValidSlot => {
            assert(img.subrange(40, 48) =~= field_image_10(p, f));
        },
        FieldId::EmaPrice => {
            assert(img.subrange(48, 72) =~= field_image_10(p, f));
        },
        FieldId::EmaConf => {
            assert(img.subrange(72, 96) =~= field_image_10(p, f));
        },
        FieldId::Timestamp => {
            assert(img.subrange(96, 104) =~= field_image_10(p, f));
        },
        FieldId::MinPub => {
            assert(img.subrange(104, 105) =~= field_image_10(p, f));
        },
        FieldId::Drv2 => {
            assert(img.subrange(105, 106) =~= field_image_10(p, f));
        },
        FieldId::Drv3 => {
            assert(img.subrange(106, 108) =~= field_image_10(p, f));
        },
        FieldId::Drv4 => {
            assert(img.subrange(108, 112) =~= field_image_10(p, f));
        },
        FieldId::Prod => {
            assert(img.subrange(112, 144) =~= field_image_10(p, f));
        },
        FieldId::Next => {
            assert(img.subrange(144, 176) =~= field_image_10(p, f));
        },
        FieldId::PrevSlot => {
            assert(img.subrange(176, 184) =~= field_image_10(p, f));
        },
        FieldId::PrevPrice => {
            assert(img.subrange(184, 192) =~= field_image_10(p, f));
        },
        FieldId::PrevConf => {
            assert(img.subrange(192, 200) =~= field_image_10(p, f));
        },
        FieldId::PrevTimestamp => {
            assert(img.subrange(200, 208) =~= field_image_10(p, f));
        },
        FieldId::Agg => {
            assert(img.subrange(208, 240) =~= field_image_10(p, f));
        },
        FieldId::Comp => {
            assert(img.subrange(240, 3312) =~= field_image_10(p, f));
        },
    }
}

} // verus!
