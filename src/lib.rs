//! Per-owner journal records stored at program-derived addresses.
//!
//! Every owner has one profile (a sequence counter) and any number of journal
//! entries. Each account lives at an address derived from a namespace tag, the
//! owner's key and, for entries, the little-endian sequence number.

pub mod key;
pub mod address;
pub mod account;
pub mod ledger;
pub mod journal;
pub mod laws;
