//! The later revision of the price account record. The layout is meant to
//! be byte-identical to the earlier revision; what changed is the storage
//! width of the enumerated fields (1 byte instead of 4, with padding up to
//! the next field's alignment) and a zero-sized trailing marker field.

use crate::bytes::{
    le_bytes, push_bytes, push_le, push_le_i32, push_le_i64, push_zeros, rep32, rep64, zeros,
};
use crate::layout::{dim, dims_ok, FieldDim};
use crate::pubkey::Pubkey;
use vstd::prelude::*;

verus! {

/// A rational number: value plus numerator and denominator.
#[derive(Clone, Copy, PartialEq, Eq, Structural, Debug)]
pub struct Rational {
    pub val: i64,
    pub numer: i64,
    pub denom: i64,
}

impl Default for Rational {
    /// The all-zero rational.
    fn default() -> (r: Rational)
        ensures
            r == (Rational { val: 0, numer: 0, denom: 0 }),
    {
        Rational { val: 0, numer: 0, denom: 0 }
    }
}

/// One aggregate price observation. `status` and `corp_act` hold 1-byte
/// encodings of the shared variant sets at this revision.
#[derive(Clone, Copy, PartialEq, Eq, Structural, Debug)]
pub struct PriceInfo {
    pub price: i64,
    pub conf: u64,
    pub status: u8,
    pub corp_act: u8,
    pub pub_slot: u64,
}

impl PriceInfo {
    /// The encodings name variants of the closed sets.
    pub open spec fn valid_codes(self) -> bool {
        self.status <= 3 && self.corp_act == 0
    }
}

impl Default for PriceInfo {
    /// The all-zero observation.
    fn default() -> (r: PriceInfo)
        ensures
            r == (PriceInfo { price: 0, conf: 0, status: 0, corp_act: 0, pub_slot: 0 }),
    {
        PriceInfo { price: 0, conf: 0, status: 0, corp_act: 0, pub_slot: 0 }
    }
}

/// One per-publisher entry: the publisher's key, its aggregated
/// observation and its latest observation.
#[derive(Debug)]
pub struct PriceComp {
    pub publisher: Pubkey,
    pub agg: PriceInfo,
    pub latest: PriceInfo,
}

impl PriceComp {
    pub open spec fn wf(self) -> bool {
        self.publisher.wf()
    }

    pub open spec fn valid_codes(self) -> bool {
        self.agg.valid_codes() && self.latest.valid_codes()
    }
}

impl Default for PriceComp {
    /// An empty entry: zero key, zero observations.
    fn default() -> (r: PriceComp)
        ensures
            r.wf(),
            r.publisher.bytes@ == Seq::new(32, |i: int| 0u8),
            r.agg == (PriceInfo { price: 0, conf: 0, status: 0, corp_act: 0, pub_slot: 0 }),
            r.latest == (PriceInfo { price: 0, conf: 0, status: 0, corp_act: 0, pub_slot: 0 }),
    {
        PriceComp {
            publisher: Pubkey::default(),
            agg: PriceInfo::default(),
            latest: PriceInfo::default(),
        }
    }
}

/// The full price account record at the later revision. `ptype` holds a
/// 1-byte encoding of the price-type variant set, and `extended` is a
/// zero-sized marker closing the record.
#[derive(Debug)]
pub struct SolanaPriceAccount {
    pub magic: u32,
    pub ver: u32,
    pub atype: u32,
    pub size: u32,
    pub ptype: u8,
    pub expo: i32,
    pub num: u32,
    pub num_qt: u32,
    pub last_slot: u64,
    pub valid_slot: u64,
    pub ema_price: Rational,
    pub ema_conf: Rational,
    pub timestamp: i64,
    pub min_pub: u8,
    pub drv2: u8,
    pub drv3: u16,
    pub drv4: u32,
    pub prod: Pubkey,
    pub next: Pubkey,
    pub prev_slot: u64,
    pub prev_price: i64,
    pub prev_conf: u64,
    pub prev_timestamp: i64,
    pub agg: PriceInfo,
    pub comp: Vec<PriceComp>,
    pub extended: (),
}

impl SolanaPriceAccount {
    /// Structural well-formedness: the keys hold 32 bytes and the
    /// component array holds exactly 32 well-formed entries.
    pub open spec fn wf(self) -> bool {
        &&& self.prod.wf()
        &&& self.next.wf()
        &&& self.comp@.len() == 32
        &&& forall|i: int| 0 <= i < 32 ==> (#[trigger] self.comp@[i]).wf()
    }

    /// Every enumerated field holds a canonical variant code.
    pub open spec fn valid_codes(self) -> bool {
        &&& self.ptype <= 1
        &&& self.agg.valid_codes()
        &&& forall|i: int| 0 <= i < 32 ==> (#[trigger] self.comp@[i]).valid_codes()
    }
}

/// Dimension table of `PriceInfo`: the two enumerated fields shrink to one
/// byte each; the C rule pads up to `pub_slot`'s alignment.
pub open spec fn price_info_dims_spec() -> Seq<FieldDim> {
    crate::pyth_09::price_info_dims_spec().update(2, dim(1, 1)).update(3, dim(1, 1))
}

/// Dimension table of the whole record: the earlier table with `ptype`
/// narrowed to one byte and the zero-sized `extended` marker appended.
pub open spec fn account_dims_spec() -> Seq<FieldDim> {
    crate::pyth_09::account_dims_spec().update(4, dim(1, 1)).push(dim(0, 1))
}

/// The dimension table of `PriceInfo`, as a vector.
pub fn price_info_dims() -> (r: Vec<FieldDim>)
    ensures
        r@ == price_info_dims_spec(),
{
    let mut r: Vec<FieldDim> = Vec::new();
    r.push(FieldDim { size: 8, align: 8 });
    r.push(FieldDim { size: 8, align: 8 });
    r.push(FieldDim { size: 1, align: 1 });
    r.push(FieldDim { size: 1, align: 1 });
    r.push(FieldDim { size: 8, align: 8 });
    proof {
        assert(r@ =~= price_info_dims_spec());
    }
    r
}

/// The dimension table of the record, as a vector.
pub fn account_dims() -> (r: Vec<FieldDim>)
    ensures
        r@ == account_dims_spec(),
{
    let mut r = crate::pyth_09::account_dims();
    r.remove(4);
    r.insert(4, FieldDim { size: 1, align: 1 });
    r.push(FieldDim { size: 0, align: 1 });
    proof {
        assert(r@ =~= account_dims_spec());
    }
    r
}

/// The record's dimension table is within the bounds the layout
/// computations ask for.
pub proof fn lemma_account_dims_ok()
    ensures
        dims_ok(account_dims_spec()),
{
    crate::pyth_09::lemma_account_dims_ok();
    let base = crate::pyth_09::account_dims_spec();
    let d = account_dims_spec();
    assert forall|i: int| 0 <= i < d.len() implies (#[trigger] d[i]).size <= 0x10000 && 1
        <= d[i].align <= 0x1000 by {
        if i < 25 && i != 4 {
            assert(d[i] == base[i]);
        }
    }
}

/// Byte image of a rational: three 8-byte two's-complement numbers.
pub open spec fn rational_image(r: Rational) -> Seq<u8> {
    le_bytes(rep64(r.val), 8) + le_bytes(rep64(r.numer), 8) + le_bytes(rep64(r.denom), 8)
}

/// Byte image of an observation: the two enumerated fields take one byte
/// each, followed by six bytes of zero padding up to `pub_slot`.
pub open spec fn price_info_image(x: PriceInfo) -> Seq<u8> {
    le_bytes(rep64(x.price), 8) + le_bytes(x.conf as nat, 8) + (le_bytes(x.status as nat, 1)
        + le_bytes(x.corp_act as nat, 1) + zeros(6)) + le_bytes(x.pub_slot as nat, 8)
}

/// Byte image of one component entry.
pub open spec fn comp_image(c: PriceComp) -> Seq<u8> {
    c.publisher.bytes@ + price_info_image(c.agg) + price_info_image(c.latest)
}

/// Byte image of the first `n` component entries, in order.
pub open spec fn comps_image(s: Seq<PriceComp>, n: int) -> Seq<u8>
    decreases n,
{
    if n <= 0 {
        Seq::empty()
    } else {
        comps_image(s, n - 1) + comp_image(s[n - 1])
    }
}

/// Byte image of the header scalars: `ptype` takes one byte, followed by
/// three bytes of zero padding up to `expo`'s alignment.
pub open spec fn head_image(p: SolanaPriceAccount) -> Seq<u8> {
    le_bytes(p.magic as nat, 4) + le_bytes(p.ver as nat, 4) + le_bytes(p.atype as nat, 4)
        + le_bytes(p.size as nat, 4) + (le_bytes(p.ptype as nat, 1) + zeros(3)) + le_bytes(
        rep32(p.expo),
        4,
    ) + le_bytes(p.num as nat, 4) + le_bytes(p.num_qt as nat, 4) + le_bytes(p.last_slot as nat, 8)
        + le_bytes(p.valid_slot as nat, 8)
}

/// Byte image of `timestamp` through `drv4`.
pub open spec fn mid_image(p: SolanaPriceAccount) -> Seq<u8> {
    le_bytes(rep64(p.timestamp), 8) + le_bytes(p.min_pub as nat, 1) + le_bytes(p.drv2 as nat, 1)
        + le_bytes(p.drv3 as nat, 2) + le_bytes(p.drv4 as nat, 4)
}

/// Byte image of the previous-observation scalars.
pub open spec fn prev_image(p: SolanaPriceAccount) -> Seq<u8> {
    le_bytes(p.prev_slot as nat, 8) + le_bytes(rep64(p.prev_price), 8) + le_bytes(
        p.prev_conf as nat,
        8,
    ) + le_bytes(rep64(p.prev_timestamp), 8)
}

/// Byte image of the whole record. The zero-sized `extended` marker
/// contributes no bytes.
pub open spec fn account_image(p: SolanaPriceAccount) -> Seq<u8> {
    head_image(p) + (rational_image(p.ema_price) + rational_image(p.ema_conf)) + mid_image(p) + (
    p.prod.bytes@ + p.next.bytes@) + prev_image(p) + price_info_image(p.agg) + comps_image(
        p.comp@,
        32,
    )
}

/// Append the image of a rational.
fn write_rational(out: &mut Vec<u8>, r: &Rational)
    ensures
        final(out)@ == old(out)@ + rational_image(*r),
{
    push_le_i64(out, r.val);
    push_le_i64(out, r.numer);
    push_le_i64(out, r.denom);
    proof {
        assert(out@ =~= old(out)@ + rational_image(*r));
    }
}

/// Append the image of an observation.
fn write_price_info(out: &mut Vec<u8>, x: &PriceInfo)
    ensures
        final(out)@ == old(out)@ + price_info_image(*x),
{
    push_le_i64(out, x.price);
    push_le(out, x.conf, 8);
    push_le(out, x.status as u64, 1);
    push_le(out, x.corp_act as u64, 1);
    push_zeros(out, 6);
    push_le(out, x.pub_slot, 8);
    proof {
        assert(out@ =~= old(out)@ + price_info_image(*x));
    }
}

/// Append the image of one component entry.
fn write_comp(out: &mut Vec<u8>, c: &PriceComp)
    ensures
        final(out)@ == old(out)@ + comp_image(*c),
{
    push_bytes(out, &c.publisher.bytes);
    write_price_info(out, &c.agg);
    write_price_info(out, &c.latest);
    proof {
        assert(out@ =~= old(out)@ + comp_image(*c));
    }
}

impl SolanaPriceAccount {
    /// The raw byte image of this record, as it sits in memory.
    pub fn raw_bytes(&self) -> (r: Vec<u8>)
        requires
            self.wf(),
        ensures
            r@ == account_image(*self),
    {
        let mut out: Vec<u8> = Vec::new();
        push_le(&mut out, self.magic as u64, 4);
        push_le(&mut out, self.ver as u64, 4);
        push_le(&mut out, self.atype as u64, 4);
        push_le(&mut out, self.size as u64, 4);
        push_le(&mut out, self.ptype as u64, 1);
        push_zeros(&mut out, 3);
        push_le_i32(&mut out, self.expo);
        push_le(&mut out, self.num as u64, 4);
        push_le(&mut out, self.num_qt as u64, 4);
        push_le(&mut out, self.last_slot, 8);
        push_le(&mut out, self.valid_slot, 8);
        proof {
            assert(out@ =~= head_image(*self));
        }
        write_rational(&mut out, &self.ema_price);
        write_rational(&mut out, &self.ema_conf);
        push_le_i64(&mut out, self.timestamp);
        push_le(&mut out, self.min_pub as u64, 1);
        push_le(&mut out, self.drv2 as u64, 1);
        push_le(&mut out, self.drv3 as u64, 2);
        push_le(&mut out, self.drv4 as u64, 4);
        push_bytes(&mut out, &self.prod.bytes);
        push_bytes(&mut out, &self.next.bytes);
        push_le(&mut out, self.prev_slot, 8);
        push_le_i64(&mut out, self.prev_price);
        push_le(&mut out, self.prev_conf, 8);
        push_le_i64(&mut out, self.prev_timestamp);
        write_price_info(&mut out, &self.agg);
        let ghost pre = head_image(*self) + (rational_image(self.ema_price) + rational_image(
            self.ema_conf,
        )) + mid_image(*self) + (self.prod.bytes@ + self.next.bytes@) + prev_image(*self)
            + price_info_image(self.agg);
        proof {
            assert(out@ =~= pre);
            assert(out@ =~= pre + comps_image(self.comp@, 0));
        }
        let mut i: usize = 0;
        while i < 32
            invariant
                i <= 32,
                self.wf(),
                out@ == pre + comps_image(self.comp@, i as int),
            decreases 32 - i,
        {
            write_comp(&mut out, &self.comp[i]);
            proof {
                assert(out@ =~= pre + comps_image(self.comp@, i + 1));
            }
            i = i + 1;
        }
        proof {
            assert(out@ =~= account_image(*self));
        }
        out
    }
}

/// The image of `n` well-formed component entries takes 96 bytes each.
pub proof fn lemma_comps_image_len(s: Seq<PriceComp>, n: int)
    requires
        0 <= n <= s.len(),
        forall|i: int| 0 <= i < s.len() ==> (#[trigger] s[i]).wf(),
    ensures
        comps_image(s, n).len() == 96 * n,
    decreases n,
{
    if n > 0 {
        lemma_comps_image_len(s, n - 1);
    }
}

/// A well-formed record's image takes exactly 3312 bytes, the zero-sized
/// marker adding none.
pub proof fn lemma_account_image_len(p: SolanaPriceAccount)
    requires
        p.wf(),
    ensures
        account_image(p).len() == 3312,
{
    lemma_comps_image_len(p.comp@, 32);
}

} // verus!
