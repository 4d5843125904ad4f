//! Layout-equivalence oracle for two revisions of a fixed-layout price
//! account record.
//!
//! The crate models each revision of the record ([`pyth_09::PriceAccount`]
//! and [`pyth_10::SolanaPriceAccount`]) together with an explicit field
//! dimension table, computes per-field byte offsets with the C layout rule,
//! serialises populated instances to their little-endian byte images, and
//! checks the two revisions against each other: equal offsets for every
//! shared field, equal decoded values (numeric equivalence for the enum
//! encodings, whose storage width differs between the revisions), equal raw
//! byte images, and equal total size and alignment.

pub mod bytes;
pub mod check;
pub mod driver;
pub mod layout;
pub mod pubkey;
pub mod pyth_09;
pub mod pyth_10;
pub mod slices;
pub mod variants;
