//! The account-level data model of a disbursement request.
//!
//! Every account, asset and program involved in a disbursement is supplied
//! by the caller already resolved, so the engine handles each one as an
//! opaque numeric handle. Which concrete account a handle stands for is the
//! caller's business; the engine only pairs handles with amounts and hands
//! them to the transfer primitive.

use vstd::prelude::*;

verus! {

/// Opaque handle to an account or identity, as resolved by the caller.
#[derive(Clone, Copy, PartialEq, Eq, Structural, Debug)]
pub struct AccountId(pub u64);

/// Descriptor of a fungible asset. Its presence in a request selects
/// fungible-asset mode; its absence selects native-currency mode.
#[derive(Clone, Copy, PartialEq, Eq, Structural, Debug)]
pub struct AssetId(pub u64);

/// Handle to the transfer-capable program that moves fungible assets.
#[derive(Clone, Copy, PartialEq, Eq, Structural, Debug)]
pub struct ProgramId(pub u64);

/// A funding sub-account: a balance of one fungible asset held for one
/// owner, distinct from the owner's native-currency balance.
#[derive(Clone, Copy, PartialEq, Eq, Structural, Debug)]
pub struct FundingAccount {
    /// The sub-account itself.
    pub account: AccountId,
    /// The asset whose balance the sub-account tracks.
    pub asset: AssetId,
}

/// A recipient, already resolved by the caller: its identity, for
/// native-currency transfers, and its funding sub-account, for
/// fungible-asset transfers.
#[derive(Clone, Copy, PartialEq, Eq, Structural, Debug)]
pub struct Destination {
    /// The recipient's identity account.
    pub account: AccountId,
    /// The recipient's funding sub-account for the asset being disbursed.
    pub funding_account: AccountId,
}

/// Error reported by the external transfer primitive. The engine treats the
/// primitive as a black box, so the cause is carried through unread.
#[derive(Clone, Copy, PartialEq, Eq, Structural, Debug)]
pub struct TransferError(pub u64);

/// One unit of work: move `amount` from `source` to `destination` under the
/// payer's authority. Produced per destination and handed to the transfer
/// primitive unchanged.
#[derive(Clone, Copy, PartialEq, Eq, Structural, Debug)]
pub struct TransferInstruction {
    /// The account debited: the payer's identity in native-currency mode,
    /// the payer's funding sub-account in fungible-asset mode.
    pub source: AccountId,
    /// The account credited.
    pub destination: AccountId,
    /// The authority under which the transfer is made: always the payer.
    pub authority: AccountId,
    /// The number of units moved.
    pub amount: u64,
}

/// The per-invocation request context: the payer, the payer's funding
/// source and the optional fungible-asset fields.
///
/// The three optional fields must be present together or absent together:
/// all three present selects fungible-asset mode, all three absent selects
/// native-currency mode, and anything in between is a partially-specified
/// asset context, which validation rejects.
#[derive(Clone, Copy, Debug)]
pub struct Split {
    /// The authorized party whose funds are being distributed.
    pub payer: AccountId,
    /// The payer's funding sub-account, required in fungible-asset mode.
    pub payer_funding_account: Option<FundingAccount>,
    /// The asset being disbursed; absent for native currency.
    pub asset: Option<AssetId>,
    /// The program that performs fungible-asset transfers.
    pub transfer_program: Option<ProgramId>,
}

} // verus!
