//! The earlier revision of the price account record. Its enumerated
//! fields (price type, status, corporate action) are stored as 4-byte
//! integer encodings.

use crate::bytes::{
    le_bytes, push_bytes, push_le, push_le_i32, push_le_i64, rep32, rep64,
};
use crate::layout::{dim, dims_ok, FieldDim};
use crate::pubkey::Pubkey;
use vstd::prelude::*;

verus! {

/// A rational number: value plus numerator and denominator.
#[derive(Clone, Copy, PartialEq, Eq, Structural, Debug)]
pub struct Rational {
    pub val: i64,
    pub numer: i64,
    pub denom: i64,
}

impl Default for Rational {
    /// The all-zero rational.
    fn default() -> (r: Rational)
        ensures
            r == (Rational { val: 0, numer: 0, denom: 0 }),
    {
        Rational { val: 0, numer: 0, denom: 0 }
    }
}

/// One aggregate price observation. `status` and `corp_act` hold 4-byte
/// encodings of the shared variant sets.
#[derive(Clone, Copy, PartialEq, Eq, Structural, Debug)]
pub struct PriceInfo {
    pub price: i64,
    pub conf: u64,
    pub status: u32,
    pub corp_act: u32,
    pub pub_slot: u64,
}

impl PriceInfo {
    /// The encodings name variants of the closed sets: at most `Auction`
    /// for the status, and only the no-action code for the action.
    pub open spec fn valid_codes(self) -> bool {
        self.status <= 3 && self.corp_act == 0
    }
}

impl Default for PriceInfo {
    /// The all-zero observation.
    fn default() -> (r: PriceInfo)
        ensures
            r == (PriceInfo { price: 0, conf: 0, status: 0, corp_act: 0, pub_slot: 0 }),
    {
        PriceInfo { price: 0, conf: 0, status: 0, corp_act: 0, pub_slot: 0 }
    }
}

/// One per-publisher entry: the publisher's key, its aggregated
/// observation and its latest observation.
#[derive(Debug)]
pub struct PriceComp {
    pub publisher: Pubkey,
    pub agg: PriceInfo,
    pub latest: PriceInfo,
}

impl PriceComp {
    pub open spec fn wf(self) -> bool {
        self.publisher.wf()
    }

    pub open spec fn valid_codes(self) -> bool {
        self.agg.valid_codes() && self.latest.valid_codes()
    }
}

impl Default for PriceComp {
    /// An empty entry: zero key, zero observations.
    fn default() -> (r: PriceComp)
        ensures
            r.wf(),
            r.publisher.bytes@ == Seq::new(32, |i: int| 0u8),
            r.agg == (PriceInfo { price: 0, conf: 0, status: 0, corp_act: 0, pub_slot: 0 }),
            r.latest == (PriceInfo { price: 0, conf: 0, status: 0, corp_act: 0, pub_slot: 0 }),
    {
        PriceComp {
            publisher: Pubkey::default(),
            agg: PriceInfo::default(),
            latest: PriceInfo::default(),
        }
    }
}

/// The full price account record at the earlier revision. `ptype` holds a
/// 4-byte encoding of the price-type variant set.
#[derive(Debug)]
pub struct PriceAccount {
    pub magic: u32,
    pub ver: u32,
    pub atype: u32,
    pub size: u32,
    pub ptype: u32,
    pub expo: i32,
    pub num: u32,
    pub num_qt: u32,
    pub last_slot: u64,
    pub valid_slot: u64,
    pub ema_price: Rational,
    pub ema_conf: Rational,
    pub timestamp: i64,
    pub min_pub: u8,
    pub drv2: u8,
    pub drv3: u16,
    pub drv4: u32,
    pub prod: Pubkey,
    pub next: Pubkey,
    pub prev_slot: u64,
    pub prev_price: i64,
    pub prev_conf: u64,
    pub prev_timestamp: i64,
    pub agg: PriceInfo,
    pub comp: Vec<PriceComp>,
}

impl PriceAccount {
    /// Structural well-formedness: the keys hold 32 bytes and the
    /// component array holds exactly 32 well-formed entries.
    pub open spec fn wf(self) -> bool {
        &&& self.prod.wf()
        &&& self.next.wf()
        &&& self.comp@.len() == 32
        &&& forall|i: int| 0 <= i < 32 ==> (#[trigger] self.comp@[i]).wf()
    }

    /// Every enumerated field holds a canonical variant code.
    pub open spec fn valid_codes(self) -> bool {
        &&& self.ptype <= 1
        &&& self.agg.valid_codes()
        &&& forall|i: int| 0 <= i < 32 ==> (#[trigger] self.comp@[i]).valid_codes()
    }
}

/// Dimension table of `Rational`.
pub open spec fn rational_dims_spec() -> Seq<FieldDim> {
    seq![dim(8, 8), dim(8, 8), dim(8, 8)]
}

/// Dimension table of `PriceInfo`: the two enumerated fields take 4 bytes
/// each at this revision.
pub open spec fn price_info_dims_spec() -> Seq<FieldDim> {
    seq![dim(8, 8), dim(8, 8), dim(4, 4), dim(4, 4), dim(8, 8)]
}

/// Dimension table of `PriceComp`.
pub open spec fn comp_dims_spec() -> Seq<FieldDim> {
    seq![dim(32, 1), dim(32, 8), dim(32, 8)]
}

/// Dimension table of the whole record, in declaration order.
pub open spec fn account_dims_spec() -> Seq<FieldDim> {
    seq![
        dim(4, 4),  // magic
        dim(4, 4),  // ver
        dim(4, 4),  // atype
        dim(4, 4),  // size
        dim(4, 4),  // ptype, stored 4 bytes wide
        dim(4, 4),  // expo
        dim(4, 4),  // num
        dim(4, 4),  // num_qt
        dim(8, 8),  // last_slot
        dim(8, 8),  // valid_slot
        dim(24, 8),  // ema_price
        dim(24, 8),  // ema_conf
        dim(8, 8),  // timestamp
        dim(1, 1),  // min_pub
        dim(1, 1),  // drv2
        dim(2, 2),  // drv3
        dim(4, 4),  // drv4
        dim(32, 1),  // prod
        dim(32, 1),  // next
        dim(8, 8),  // prev_slot
        dim(8, 8),  // prev_price
        dim(8, 8),  // prev_conf
        dim(8, 8),  // prev_timestamp
        dim(32, 8),  // agg
        dim(3072, 8),  // comp
    ]
}

/// The dimension table of `Rational`, as a vector.
pub fn rational_dims() -> (r: Vec<FieldDim>)
    ensures
        r@ == rational_dims_spec(),
{
    let mut r: Vec<FieldDim> = Vec::new();
    r.push(FieldDim { size: 8, align: 8 });
    r.push(FieldDim { size: 8, align: 8 });
    r.push(FieldDim { size: 8, align: 8 });
    proof {
        assert(r@ =~= rational_dims_spec());
    }
    r
}

/// The dimension table of `PriceInfo`, as a vector.
pub fn price_info_dims() -> (r: Vec<FieldDim>)
    ensures
        r@ == price_info_dims_spec(),
{
    let mut r: Vec<FieldDim> = Vec::new();
    r.push(FieldDim { size: 8, align: 8 });
    r.push(FieldDim { size: 8, align: 8 });
    r.push(FieldDim { size: 4, align: 4 });
    r.push(FieldDim { size: 4, align: 4 });
    r.push(FieldDim { size: 8, align: 8 });
    proof {
        assert(r@ =~= price_info_dims_spec());
    }
    r
}

/// The dimension table of `PriceComp`, as a vector.
pub fn comp_dims() -> (r: Vec<FieldDim>)
    ensures
        r@ == comp_dims_spec(),
{
    let mut r: Vec<FieldDim> = Vec::new();
    r.push(FieldDim { size: 32, align: 1 });
    r.push(FieldDim { size: 32, align: 8 });
    r.push(FieldDim { size: 32, align: 8 });
    proof {
        assert(r@ =~= comp_dims_spec());
    }
    r
}

/// The dimension table of the record, as a vector.
pub fn account_dims() -> (r: Vec<FieldDim>)
    ensures
        r@ == account_dims_spec(),
{
    let mut r: Vec<FieldDim> = Vec::new();
    r.push(FieldDim { size: 4, align: 4 });
    r.push(FieldDim { size: 4, align: 4 });
    r.push(FieldDim { size: 4, align: 4 });
    r.push(FieldDim { size: 4, align: 4 });
    r.push(FieldDim { size: 4, align: 4 });
    r.push(FieldDim { size: 4, align: 4 });
    r.push(FieldDim { size: 4, align: 4 });
    r.push(FieldDim { size: 4, align: 4 });
    r.push(FieldDim { size: 8, align: 8 });
    r.push(FieldDim { size: 8, align: 8 });
    r.push(FieldDim { size: 24, align: 8 });
    r.push(FieldDim { size: 24, align: 8 });
    r.push(FieldDim { size: 8, align: 8 });
    r.push(FieldDim { size: 1, align: 1 });
    r.push(FieldDim { size: 1, align: 1 });
    r.push(FieldDim { size: 2, align: 2 });
    r.push(FieldDim { size: 4, align: 4 });
    r.push(FieldDim { size: 32, align: 1 });
    r.push(FieldDim { size: 32, align: 1 });
    r.push(FieldDim { size: 8, align: 8 });
    r.push(FieldDim { size: 8, align: 8 });
    r.push(FieldDim { size: 8, align: 8 });
    r.push(FieldDim { size: 8, align: 8 });
    r.push(FieldDim { size: 32, align: 8 });
    r.push(FieldDim { size: 3072, align: 8 });
    proof {
        assert(r@ =~= account_dims_spec());
    }
    r
}

/// The record's dimension table is within the bounds the layout
/// computations ask for.
pub proof fn lemma_account_dims_ok()
    ensures
        dims_ok(account_dims_spec()),
{
    let d = account_dims_spec();
    assert forall|i: int| 0 <= i < d.len() implies (#[trigger] d[i]).size <= 0x10000 && 1
        <= d[i].align <= 0x1000 by {
    }
}

/// Byte image of a rational: three 8-byte two's-complement numbers.
pub open spec fn rational_image(r: Rational) -> Seq<u8> {
    le_bytes(rep64(r.val), 8) + le_bytes(rep64(r.numer), 8) + le_bytes(rep64(r.denom), 8)
}

/// Byte image of an observation; the two enumerated fields sit side by
/// side, 4 bytes each.
pub open spec fn price_info_image(x: PriceInfo) -> Seq<u8> {
    le_bytes(rep64(x.price), 8) + le_bytes(x.conf as nat, 8) + (le_bytes(x.status as nat, 4)
        + le_bytes(x.corp_act as nat, 4)) + le_bytes(x.pub_slot as nat, 8)
}

/// Byte image of one component entry.
pub open spec fn comp_image(c: PriceComp) -> Seq<u8> {
    c.publisher.bytes@ + price_info_image(c.agg) + price_info_image(c.latest)
}

/// Byte image of the first `n` component entries, in order.
pub open spec fn comps_image(s: Seq<PriceComp>, n: int) -> Seq<u8>
    decreases n,
{
    if n <= 0 {
        Seq::empty()
    } else {
        comps_image(s, n - 1) + comp_image(s[n - 1])
    }
}

/// Byte image of the header scalars, `magic` through `valid_slot`.
pub open spec fn head_image(p: PriceAccount) -> Seq<u8> {
    le_bytes(p.magic as nat, 4) + le_bytes(p.ver as nat, 4) + le_bytes(p.atype as nat, 4)
        + le_bytes(p.size as nat, 4) + le_bytes(p.ptype as nat, 4) + le_bytes(rep32(p.expo), 4)
        + le_bytes(p.num as nat, 4) + le_bytes(p.num_qt as nat, 4) + le_bytes(
        p.last_slot as nat,
        8,
    ) + le_bytes(p.valid_slot as nat, 8)
}

/// Byte image of `timestamp` through `drv4`.
pub open spec fn mid_image(p: PriceAccount) -> Seq<u8> {
    le_bytes(rep64(p.timestamp), 8) + le_bytes(p.min_pub as nat, 1) + le_bytes(p.drv2 as nat, 1)
        + le_bytes(p.drv3 as nat, 2) + le_bytes(p.drv4 as nat, 4)
}

/// Byte image of the previous-observation scalars.
pub open spec fn prev_image(p: PriceAccount) -> Seq<u8> {
    le_bytes(p.prev_slot as nat, 8) + le_bytes(rep64(p.prev_price), 8) + le_bytes(
        p.prev_conf as nat,
        8,
    ) + le_bytes(rep64(p.prev_timestamp), 8)
}

/// Byte image of the whole record: every field at its declared offset,
/// little-endian, with no padding at this revision.
pub open spec fn account_image(p: PriceAccount) -> Seq<u8> {
    head_image(p) + (rational_image(p.ema_price) + rational_image(p.ema_conf)) + mid_image(p) + (
    p.prod.bytes@ + p.next.bytes@) + prev_image(p) + price_info_image(p.agg) + comps_image(
        p.comp@,
        32,
    )
}

/// Append the image of a rational.
fn write_rational(out: &mut Vec<u8>, r: &Rational)
    ensures
        final(out)@ == old(out)@ + rational_image(*r),
{
    push_le_i64(out, r.val);
    push_le_i64(out, r.numer);
    push_le_i64(out, r.denom);
    proof {
        assert(out@ =~= old(out)@ + rational_image(*r));
    }
}

/// Append the image of an observation.
fn write_price_info(out: &mut Vec<u8>, x: &PriceInfo)
    ensures
        final(out)@ == old(out)@ + price_info_image(*x),
{
    push_le_i64(out, x.price);
    push_le(out, x.conf, 8);
    push_le(out, x.status as u64, 4);
    push_le(out, x.corp_act as u64, 4);
    push_le(out, x.pub_slot, 8);
    proof {
        assert(out@ =~= old(out)@ + price_info_image(*x));
    }
}

/// Append the image of one component entry.
fn write_comp(out: &mut Vec<u8>, c: &PriceComp)
    ensures
        final(out)@ == old(out)@ + comp_image(*c),
{
    push_bytes(out, &c.publisher.bytes);
    write_price_info(out, &c.agg);
    write_price_info(out, &c.latest);
    proof {
        assert(out@ =~= old(out)@ + comp_image(*c));
    }
}

impl PriceAccount {
    /// The raw byte image of this record, as it sits in memory.
    pub fn raw_bytes(&self) -> (r: Vec<u8>)
        requires
            self.wf(),
        ensures
            r@ == account_image(*self),
    {
        let mut out: Vec<u8> = Vec::new();
        push_le(&mut out, self.magic as u64, 4);
        push_le(&mut out, self.ver as u64, 4);
        push_le(&mut out, self.atype as u64, 4);
        push_le(&mut out, self.size as u64, 4);
        push_le(&mut out, self.ptype as u64, 4);
        push_le_i32(&mut out, self.expo);
        push_le(&mut out, self.num as u64, 4);
        push_le(&mut out, self.num_qt as u64, 4);
        push_le(&mut out, self.last_slot, 8);
        push_le(&mut out, self.valid_slot, 8);
        proof {
            assert(out@ =~= head_image(*self));
        }
        write_rational(&mut out, &self.ema_price);
        write_rational(&mut out, &self.ema_conf);
        push_le_i64(&mut out, self.timestamp);
        push_le(&mut out, self.min_pub as u64, 1);
        push_le(&mut out, self.drv2 as u64, 1);
        push_le(&mut out, self.drv3 as u64, 2);
        push_le(&mut out, self.drv4 as u64, 4);
        push_bytes(&mut out, &self.prod.bytes);
        push_bytes(&mut out, &self.next.bytes);
        push_le(&mut out, self.prev_slot, 8);
        push_le_i64(&mut out, self.prev_price);
        push_le(&mut out, self.prev_conf, 8);
        push_le_i64(&mut out, self.prev_timestamp);
        write_price_info(&mut out, &self.agg);
        let ghost pre = head_image(*self) + (rational_image(self.ema_price) + rational_image(
            self.ema_conf,
        )) + mid_image(*self) + (self.prod.bytes@ + self.next.bytes@) + prev_image(*self)
            + price_info_image(self.agg);
        proof {
            assert(out@ =~= pre);
            assert(out@ =~= pre + comps_image(self.comp@, 0));
        }
        let mut i: usize = 0;
        while i < 32
            invariant
                i <= 32,
                self.wf(),
                out@ == pre + comps_image(self.comp@, i as int),
            decreases 32 - i,
        {
            write_comp(&mut out, &self.comp[i]);
            proof {
                assert(out@ =~= pre + comps_image(self.comp@, i + 1));
            }
            i = i + 1;
        }
        proof {
            assert(out@ =~= account_image(*self));
        }
        out
    }
}

/// The image of `n` well-formed component entries takes 96 bytes each.
pub proof fn lemma_comps_image_len(s: Seq<PriceComp>, n: int)
    requires
        0 <= n <= s.len(),
        forall|i: int| 0 <= i < s.len() ==> (#[trigger] s[i]).wf(),
    ensures
        comps_image(s, n).len() == 96 * n,
    decreases n,
{
    if n > 0 {
        lemma_comps_image_len(s, n - 1);
    }
}

/// A well-formed record's image takes exactly 3312 bytes.
pub proof fn lemma_account_image_len(p: PriceAccount)
    requires
        p.wf(),
    ensures
        account_image(p).len() == 3312,
{
    lemma_comps_image_len(p.comp@, 32);
}

} // verus!
