//! The disbursement engine: validate, compute per-recipient amounts, then
//! transfer, halting on the first failure.
//!
//! Both entry operations share this pipeline. Validation errors are all
//! reported before any transfer is attempted, so they leave the port
//! untouched. Transfers are issued strictly in destination order, one per
//! destination, and a failure at position `k` stops the sequence: the
//! attempted transfers are then exactly the first `k + 1` planned ones,
//! and the caller is told `k`, so it knows how many prior transfers
//! already moved funds. The engine performs no rollback; atomicity of the
//! whole request is the enclosing execution context's responsibility.

use vstd::prelude::*;
use crate::accounts::{Destination, Split, TransferError, TransferInstruction};
use crate::amounts::{compute_amounts, spec_amounts, spec_entry_count, seq_sum, AmountSpec};
use crate::errors::ErrorCode;
use crate::port::TransferPort;
use crate::validate::{spec_validation_error, validate};

verus! {

/// The transfer instruction owed to one destination: in fungible-asset
/// mode funds move from the payer's funding sub-account to the
/// destination's, in native-currency mode directly between identities.
/// The payer is the authority either way.
pub open spec fn spec_instruction(
    ctx: Split,
    destination: Destination,
    amount: u64,
) -> TransferInstruction {
    match (ctx.asset, ctx.payer_funding_account) {
        (Some(_asset), Some(funding)) => TransferInstruction {
            source: funding.account,
            destination: destination.funding_account,
            authority: ctx.payer,
            amount,
        },
        _ => TransferInstruction {
            source: ctx.payer,
            destination: destination.account,
            authority: ctx.payer,
            amount,
        },
    }
}

/// The whole plan of a request: one instruction per destination, in
/// destination order, paired positionally with the computed amounts.
pub open spec fn spec_plan(
    ctx: Split,
    destinations: Seq<Destination>,
    amounts: Seq<u64>,
) -> Seq<TransferInstruction> {
    Seq::new(destinations.len(), |i: int| spec_instruction(ctx, destinations[i], amounts[i]))
}

/// Everything a finished disbursement owes the caller, relating the
/// request, the port's history before and after, and the result:
/// a violated validation rule is reported as its error with the history
/// untouched; otherwise success appends exactly the whole plan to the
/// history, and failure reports the failing position `k` with exactly the
/// first `k + 1` planned transfers attempted, in order.
pub open spec fn spec_disbursement_post(
    ctx: Split,
    destinations: Seq<Destination>,
    amount_spec: AmountSpec,
    history_before: Seq<TransferInstruction>,
    history_after: Seq<TransferInstruction>,
    r: Result<(), ErrorCode>,
) -> bool {
    match spec_validation_error(ctx, destinations.len(), amount_spec) {
        Some(e) => r == Err::<(), ErrorCode>(e) && history_after == history_before,
        None => {
            let plan = spec_plan(ctx, destinations, spec_amounts(amount_spec));
            match r {
                Ok(()) => history_after == history_before + plan,
                Err(e) => match e {
                    ErrorCode::TransferFailed(k, _cause) => k < plan.len() && history_after
                        == history_before + plan.take(k as int + 1),
                    _ => false,
                },
            }
        },
    }
}

/// Build the transfer instruction for one destination under the request's
/// mode.
fn make_instruction(ctx: &Split, destination: &Destination, amount: u64) -> (instruction:
    TransferInstruction)
    ensures
        instruction == spec_instruction(*ctx, *destination, amount),
{
    match (&ctx.asset, &ctx.payer_funding_account) {
        (Some(_asset), Some(funding)) => TransferInstruction {
            source: funding.account,
            destination: destination.funding_account,
            authority: ctx.payer,
            amount,
        },
        _ => TransferInstruction {
            source: ctx.payer,
            destination: destination.account,
            authority: ctx.payer,
            amount,
        },
    }
}

/// Validate a request and lay out its whole plan without touching any
/// port: one instruction per destination, in order. Rejected requests get
/// the error of the first violated rule and no plan.
pub fn build_instructions(
    ctx: &Split,
    destinations: &Vec<Destination>,
    amount_spec: &AmountSpec,
) -> (r: Result<Vec<TransferInstruction>, ErrorCode>)
    ensures
        (match spec_validation_error(*ctx, destinations@.len(), *amount_spec) {
            Some(e) => r == Err::<Vec<TransferInstruction>, ErrorCode>(e),
            None => r matches Ok(plan) && plan@ == spec_plan(
                *ctx,
                destinations@,
                spec_amounts(*amount_spec),
            ),
        }),
{
    if let Err(e) = validate(ctx, destinations.len(), amount_spec) {
        return Err(e);
    }
    let amounts = compute_amounts(amount_spec);
    let ghost plan = spec_plan(*ctx, destinations@, spec_amounts(*amount_spec));
    let mut instructions: Vec<TransferInstruction> = Vec::new();
    let mut i: usize = 0;
    while i < destinations.len()
        invariant
            i <= destinations@.len(),
            amounts@ == spec_amounts(*amount_spec),
            amounts@.len() == destinations@.len(),
            plan == spec_plan(*ctx, destinations@, spec_amounts(*amount_spec)),
            instructions@ == plan.take(i as int),
        decreases destinations@.len() - i,
    {
        instructions.push(make_instruction(ctx, &destinations[i], amounts[i]));
        proof {
            assert(instructions@ =~= plan.take(i as int + 1));
        }
        i = i + 1;
    }
    proof {
        assert(instructions@ =~= plan);
    }
    Ok(instructions)
}

/// Run one disbursement through a port: validate, compute the amounts,
/// then issue one transfer per destination in order, halting on the first
/// failure and reporting its position.
pub fn disburse<P: TransferPort>(
    port: &mut P,
    ctx: &Split,
    destinations: &Vec<Destination>,
    amount_spec: &AmountSpec,
) -> (r: Result<(), ErrorCode>)
    ensures
        spec_disbursement_post(
            *ctx,
            destinations@,
            *amount_spec,
            old(port).history(),
            final(port).history(),
            r,
        ),
{
    if let Err(e) = validate(ctx, destinations.len(), amount_spec) {
        return Err(e);
    }
    let amounts = compute_amounts(amount_spec);
    let ghost plan = spec_plan(*ctx, destinations@, spec_amounts(*amount_spec));
    let n = destinations.len();
    let mut i: usize = 0;
    while i < n
        invariant
            i <= n,
            n == destinations@.len(),
            spec_validation_error(*ctx, destinations@.len(), *amount_spec) is None,
            amounts@ == spec_amounts(*amount_spec),
            amounts@.len() == n as int,
            plan == spec_plan(*ctx, destinations@, spec_amounts(*amount_spec)),
            plan.len() == n as int,
            port.history() == old(port).history() + plan.take(i as int),
        decreases n - i,
    {
        let instruction = make_instruction(ctx, &destinations[i], amounts[i]);
        let outcome = port.transfer(&instruction);
        if let Err(cause) = outcome {
            proof {
                assert(port.history() =~= old(port).history() + plan.take(i as int + 1));
            }
            return Err(ErrorCode::TransferFailed(i, cause));
        }
        proof {
            assert(port.history() =~= old(port).history() + plan.take(i as int + 1));
        }
        i = i + 1;
    }
    proof {
        assert(plan.take(n as int) =~= plan);
    }
    Ok(())
}

/// Disburse an explicit per-recipient amount list: destination `i`
/// receives `amounts[i]` verbatim.
pub fn split<P: TransferPort>(
    port: &mut P,
    ctx: &Split,
    destinations: &Vec<Destination>,
    amounts: Vec<u64>,
) -> (r: Result<(), ErrorCode>)
    ensures
        spec_disbursement_post(
            *ctx,
            destinations@,
            AmountSpec::Fixed(amounts),
            old(port).history(),
            final(port).history(),
            r,
        ),
{
    let amount_spec = AmountSpec::Fixed(amounts);
    disburse(port, ctx, destinations, &amount_spec)
}

/// Disburse a total proportionally by weight: destination `i` receives
/// `floor(total * weights[i] / sum(weights))`, and the floor residual, if
/// any, stays with the payer.
#[allow(non_snake_case)]
pub fn splitPercentage<P: TransferPort>(
    port: &mut P,
    ctx: &Split,
    destinations: &Vec<Destination>,
    total: u64,
    weights: Vec<u64>,
) -> (r: Result<(), ErrorCode>)
    ensures
        spec_disbursement_post(
            *ctx,
            destinations@,
            AmountSpec::Proportional { total, weights },
            old(port).history(),
            final(port).history(),
            r,
        ),
{
    let amount_spec = AmountSpec::Proportional { total, weights };
    disburse(port, ctx, destinations, &amount_spec)
}

/// Zero-transfer law for mismatched lists: a request whose destination
/// count differs from its amount or weight count is reported as
/// `LengthMismatch` and no transfer is ever attempted.
pub proof fn lemma_length_mismatch_rejected(
    ctx: Split,
    destinations: Seq<Destination>,
    amount_spec: AmountSpec,
    history_before: Seq<TransferInstruction>,
    history_after: Seq<TransferInstruction>,
    r: Result<(), ErrorCode>,
)
    requires
        destinations.len() != spec_entry_count(amount_spec),
        spec_disbursement_post(ctx, destinations, amount_spec, history_before, history_after, r),
    ensures
        r == Err::<(), ErrorCode>(ErrorCode::LengthMismatch),
        history_after == history_before,
{
}

/// Zero-transfer law for degenerate weights: a proportional request whose
/// weights sum to zero or less is reported as `InvalidWeightSum` and no
/// transfer is ever attempted.
pub proof fn lemma_invalid_weight_sum_rejected(
    ctx: Split,
    destinations: Seq<Destination>,
    amount_spec: AmountSpec,
    history_before: Seq<TransferInstruction>,
    history_after: Seq<TransferInstruction>,
    r: Result<(), ErrorCode>,
)
    requires
        amount_spec matches AmountSpec::Proportional { total: _, weights } && seq_sum(weights@)
            <= 0,
        destinations.len() == spec_entry_count(amount_spec),
        spec_disbursement_post(ctx, destinations, amount_spec, history_before, history_after, r),
    ensures
        r == Err::<(), ErrorCode>(ErrorCode::InvalidWeightSum),
        history_after == history_before,
{
}

/// Fail-fast ordering law: when a valid request fails at position `k`,
/// the attempted transfers are exactly the planned ones at positions
/// `0 ..= k`, in order; no transfer after position `k` was attempted.
pub proof fn lemma_fail_fast(
    ctx: Split,
    destinations: Seq<Destination>,
    amount_spec: AmountSpec,
    history_before: Seq<TransferInstruction>,
    history_after: Seq<TransferInstruction>,
    k: usize,
    cause: TransferError,
)
    requires
        spec_validation_error(ctx, destinations.len(), amount_spec) is None,
        spec_disbursement_post(
            ctx,
            destinations,
            amount_spec,
            history_before,
            history_after,
            Err(ErrorCode::TransferFailed(k, cause)),
        ),
    ensures
        k < destinations.len(),
        history_after.len() == history_before.len() + k + 1,
        forall|j: int| 0 <= j < history_before.len() ==> history_after[j] == history_before[j],
        forall|j: int|
            history_before.len() <= j < history_after.len() ==> history_after[j] == spec_plan(
                ctx,
                destinations,
                spec_amounts(amount_spec),
            )[j - history_before.len()],
{
}

} // verus!
