//! The validator: structural and numeric preconditions, checked before any
//! side effect.
//!
//! Rules, in the order they are checked: the destination count must equal
//! the amount or weight count; a proportional weight sum must be strictly
//! positive; the fungible-asset fields must be present together or absent
//! together; and in fungible-asset mode the payer's funding sub-account
//! must reference the declared asset. The first violated rule decides the
//! error, and validation touches nothing, so repeating it on the same
//! request yields the same outcome.

use vstd::prelude::*;
use crate::accounts::Split;
use crate::amounts::{
    entry_count, spec_entry_count, spec_weight_sum_ok, weight_total, AmountSpec,
};
use crate::errors::ErrorCode;

verus! {

/// Whether the fungible-asset fields form a complete context: the asset
/// descriptor, the payer's funding sub-account and the transfer program
/// are present together or absent together.
pub open spec fn spec_asset_context_complete(ctx: Split) -> bool {
    &&& (ctx.asset is Some) == (ctx.payer_funding_account is Some)
    &&& (ctx.asset is Some) == (ctx.transfer_program is Some)
}

/// Whether the payer's funding sub-account references the declared asset.
/// Holds vacuously when either field is absent.
pub open spec fn spec_asset_matches(ctx: Split) -> bool {
    match (ctx.asset, ctx.payer_funding_account) {
        (Some(asset), Some(funding)) => funding.asset == asset,
        _ => true,
    }
}

/// The first validation rule a request violates, if any.
pub open spec fn spec_validation_error(
    ctx: Split,
    n_destinations: nat,
    amount_spec: AmountSpec,
) -> Option<ErrorCode> {
    if n_destinations != spec_entry_count(amount_spec) {
        Some(ErrorCode::LengthMismatch)
    } else if !spec_weight_sum_ok(amount_spec) {
        Some(ErrorCode::InvalidWeightSum)
    } else if !spec_asset_context_complete(ctx) {
        Some(ErrorCode::MissingAssetContext)
    } else if !spec_asset_matches(ctx) {
        Some(ErrorCode::AssetMismatch)
    } else {
        None
    }
}

/// The outcome validation owes the caller: `Ok` exactly when no rule is
/// violated, otherwise the error of the first violated rule.
pub open spec fn spec_validation_result(
    ctx: Split,
    n_destinations: nat,
    amount_spec: AmountSpec,
) -> Result<(), ErrorCode> {
    match spec_validation_error(ctx, n_destinations, amount_spec) {
        Some(e) => Err(e),
        None => Ok(()),
    }
}

/// Validation is repeatable: it mutates nothing, so any two outcomes of
/// validating the same request are the same outcome, error kind included.
pub proof fn lemma_validation_idempotent(
    ctx: Split,
    n_destinations: nat,
    amount_spec: AmountSpec,
    first: Result<(), ErrorCode>,
    second: Result<(), ErrorCode>,
)
    requires
        first == spec_validation_result(ctx, n_destinations, amount_spec),
        second == spec_validation_result(ctx, n_destinations, amount_spec),
    ensures
        first == second,
{
}

/// Confirm the structural and numeric preconditions of a request: count
/// match, positive weight sum, complete asset context and asset agreement,
/// failing fast with the error of the first violated rule.
pub fn validate(ctx: &Split, n_destinations: usize, amount_spec: &AmountSpec) -> (r: Result<
    (),
    ErrorCode,
>)
    ensures
        r == spec_validation_result(*ctx, n_destinations as nat, *amount_spec),
{
    if n_destinations != entry_count(amount_spec) {
        return Err(ErrorCode::LengthMismatch);
    }
    if let AmountSpec::Proportional { total: _, weights } = amount_spec {
        let sum = weight_total(weights);
        proof {
            crate::amounts::lemma_seq_sum_nonneg(weights@);
        }
        if sum == 0 {
            return Err(ErrorCode::InvalidWeightSum);
        }
    }
    let fungible = ctx.asset.is_some();
    if fungible != ctx.payer_funding_account.is_some() || fungible != ctx.transfer_program.is_some()
    {
        return Err(ErrorCode::MissingAssetContext);
    }
    if let (Some(asset), Some(funding)) = (&ctx.asset, &ctx.payer_funding_account) {
        if funding.asset != *asset {
            return Err(ErrorCode::AssetMismatch);
        }
    }
    Ok(())
}

} // verus!
