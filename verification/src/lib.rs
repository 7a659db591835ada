//! A verified disbursement engine: atomic, multi-recipient splitting of a
//! pooled balance held by a single payer.
//!
//! A request names a payer, a funding source, an optional fungible-asset
//! context and an ordered list of destinations, together with either an
//! explicit per-recipient amount list or a total and a weight list. The
//! engine validates the request, computes one amount per destination and
//! issues one transfer per destination, in order, through an injected
//! transfer primitive, halting on the first failure.

pub mod accounts;
pub mod amounts;
pub mod engine;
pub mod errors;
pub mod port;
pub mod validate;
