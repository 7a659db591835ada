//! The engine's error taxonomy.
//!
//! Every failure path of the engine returns one of these kinds; none is
//! silently swallowed. The validation kinds are all detected before any
//! transfer executes, so they imply zero side effects; `TransferFailed`
//! carries the position of the failing transfer, so the caller knows that
//! the transfers before it already moved funds irreversibly.

use vstd::prelude::*;
use crate::accounts::TransferError;

verus! {

/// A caller-visible failure of a disbursement request.
#[derive(Clone, Copy, PartialEq, Eq, Structural, Debug)]
pub enum ErrorCode {
    /// The destination count differs from the amount or weight count.
    LengthMismatch,
    /// The proportional weights sum to zero (or less).
    InvalidWeightSum,
    /// Fungible-asset fields are only partially present: the asset
    /// descriptor, the payer's funding sub-account and the transfer program
    /// must be supplied together or not at all.
    MissingAssetContext,
    /// The payer's funding sub-account references a different asset than
    /// the request declares.
    AssetMismatch,
    /// The transfer primitive failed at the given position in the
    /// destination list; transfers at positions before it have already
    /// completed, and none after it was attempted.
    TransferFailed(usize, TransferError),
}

} // verus!
