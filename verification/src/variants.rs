//! The closed variant sets behind the enumerated fields, and their
//! canonical integer encodings. Each record revision stores these
//! encodings at its own width; the variant set and the numeric codes are
//! shared.

use vstd::prelude::*;

verus! {

/// Kind of price carried by the account.
#[derive(Clone, Copy, PartialEq, Eq, Structural, Debug)]
pub enum PriceType {
    Unknown,
    Price,
}

/// Canonical code of a price type.
pub open spec fn price_type_code(t: PriceType) -> u8 {
    match t {
        PriceType::Unknown => 0,
        PriceType::Price => 1,
    }
}

impl PriceType {
    /// The canonical integer encoding of this variant.
    pub fn code(&self) -> (r: u8)
        ensures
            r == price_type_code(*self),
    {
        match self {
            PriceType::Unknown => 0,
            PriceType::Price => 1,
        }
    }

    /// The variant a code stands for, if any.
    pub fn from_code(c: u8) -> (r: Option<PriceType>)
        ensures
            r is Some <==> c <= 1,
            r is Some ==> price_type_code(r->0) == c,
    {
        if c == 0 {
            Some(PriceType::Unknown)
        } else if c == 1 {
            Some(PriceType::Price)
        } else {
            None
        }
    }
}

/// Trading status of an aggregate price.
#[derive(Clone, Copy, PartialEq, Eq, Structural, Debug)]
pub enum PriceStatus {
    Unknown,
    Trading,
    Halted,
    Auction,
}

/// Canonical code of a price status.
pub open spec fn price_status_code(s: PriceStatus) -> u8 {
    match s {
        PriceStatus::Unknown => 0,
        PriceStatus::Trading => 1,
        PriceStatus::Halted => 2,
        PriceStatus::Auction => 3,
    }
}

impl PriceStatus {
    /// The canonical integer encoding of this variant.
    pub fn code(&self) -> (r: u8)
        ensures
            r == price_status_code(*self),
    {
        match self {
            PriceStatus::Unknown => 0,
            PriceStatus::Trading => 1,
            PriceStatus::Halted => 2,
            PriceStatus::Auction => 3,
        }
    }

    /// The variant a code stands for, if any.
    pub fn from_code(c: u8) -> (r: Option<PriceStatus>)
        ensures
            r is Some <==> c <= 3,
            r is Some ==> price_status_code(r->0) == c,
    {
        if c == 0 {
            Some(PriceStatus::Unknown)
        } else if c == 1 {
            Some(PriceStatus::Trading)
        } else if c == 2 {
            Some(PriceStatus::Halted)
        } else if c == 3 {
            Some(PriceStatus::Auction)
        } else {
            None
        }
    }
}

/// Corporate action attached to an aggregate price.
#[derive(Clone, Copy, PartialEq, Eq, Structural, Debug)]
pub enum CorpAction {
    NoCorpAct,
}

/// Canonical code of a corporate action.
pub open spec fn corp_action_code(a: CorpAction) -> u8 {
    match a {
        CorpAction::NoCorpAct => 0,
    }
}

impl CorpAction {
    /// The canonical integer encoding of this variant.
    pub fn code(&self) -> (r: u8)
        ensures
            r == corp_action_code(*self),
    {
        match self {
            CorpAction::NoCorpAct => 0,
        }
    }

    /// The variant a code stands for, if any.
    pub fn from_code(c: u8) -> (r: Option<CorpAction>)
        ensures
            r is Some <==> c == 0,
            r is Some ==> corp_action_code(r->0) == c,
    {
        if c == 0 {
            Some(CorpAction::NoCorpAct)
        } else {
            None
        }
    }
}

} // verus!
