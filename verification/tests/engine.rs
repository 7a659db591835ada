use stark_pay_split::accounts::{
    AccountId, AssetId, Destination, FundingAccount, ProgramId, Split, TransferError,
};
use stark_pay_split::amounts::{compute_amounts, AmountSpec};
use stark_pay_split::engine::{build_instructions, disburse, split, splitPercentage};
use stark_pay_split::errors::ErrorCode;
use stark_pay_split::port::{ScriptedPort, TransferPort};
use stark_pay_split::validate::validate;

fn native_ctx() -> Split {
    Split {
        payer: AccountId(1),
        payer_funding_account: None,
        asset: None,
        transfer_program: None,
    }
}

fn fungible_ctx() -> Split {
    Split {
        payer: AccountId(1),
        payer_funding_account: Some(FundingAccount { account: AccountId(100), asset: AssetId(5) }),
        asset: Some(AssetId(5)),
        transfer_program: Some(ProgramId(9)),
    }
}

fn dest(account: u64, funding: u64) -> Destination {
    Destination { account: AccountId(account), funding_account: AccountId(funding) }
}

#[test]
fn fixed_three_destinations_in_order() {
    let ctx = native_ctx();
    let destinations = vec![dest(10, 210), dest(11, 211), dest(12, 212)];
    let mut port = ScriptedPort::new_reliable();
    let r = split(&mut port, &ctx, &destinations, vec![10, 20, 30]);
    assert_eq!(r, Ok(()));
    assert_eq!(port.calls.len(), 3);
    let expected = [(10u64, 10u64), (11, 20), (12, 30)];
    for (i, (to, amount)) in expected.iter().enumerate() {
        assert_eq!(port.calls[i].source, AccountId(1));
        assert_eq!(port.calls[i].destination, AccountId(*to));
        assert_eq!(port.calls[i].authority, AccountId(1));
        assert_eq!(port.calls[i].amount, *amount);
    }
}

#[test]
fn proportional_equal_weights_floor() {
    let ctx = native_ctx();
    let destinations = vec![dest(10, 0), dest(11, 0), dest(12, 0)];
    let mut port = ScriptedPort::new_reliable();
    let r = splitPercentage(&mut port, &ctx, &destinations, 100, vec![1, 1, 1]);
    assert_eq!(r, Ok(()));
    assert_eq!(port.calls.len(), 3);
    let paid: u64 = port.calls.iter().map(|c| c.amount).sum();
    assert_eq!(port.calls[0].amount, 33);
    assert_eq!(port.calls[1].amount, 33);
    assert_eq!(port.calls[2].amount, 33);
    assert_eq!(paid, 99);
}

#[test]
fn length_mismatch_rejected() {
    let ctx = native_ctx();
    let destinations = vec![dest(10, 0), dest(11, 0)];
    let mut port = ScriptedPort::new_reliable();
    let r = split(&mut port, &ctx, &destinations, vec![1, 2, 3]);
    assert_eq!(r, Err(ErrorCode::LengthMismatch));
    assert!(port.calls.is_empty());
}

#[test]
fn weights_length_mismatch_rejected() {
    let ctx = native_ctx();
    let destinations = vec![dest(10, 0), dest(11, 0)];
    let mut port = ScriptedPort::new_reliable();
    let r = splitPercentage(&mut port, &ctx, &destinations, 100, vec![1, 1, 1]);
    assert_eq!(r, Err(ErrorCode::LengthMismatch));
    assert!(port.calls.is_empty());
}

#[test]
fn zero_weight_sum_rejected() {
    let ctx = native_ctx();
    let destinations = vec![dest(10, 0), dest(11, 0)];
    let mut port = ScriptedPort::new_reliable();
    let r = splitPercentage(&mut port, &ctx, &destinations, 100, vec![0, 0]);
    assert_eq!(r, Err(ErrorCode::InvalidWeightSum));
    assert!(port.calls.is_empty());
}

#[test]
fn missing_funding_account_rejected() {
    let mut ctx = fungible_ctx();
    ctx.payer_funding_account = None;
    let destinations = vec![dest(10, 210)];
    let mut port = ScriptedPort::new_reliable();
    let r = split(&mut port, &ctx, &destinations, vec![1]);
    assert_eq!(r, Err(ErrorCode::MissingAssetContext));
    assert!(port.calls.is_empty());
}

#[test]
fn missing_program_rejected() {
    let mut ctx = fungible_ctx();
    ctx.transfer_program = None;
    let destinations = vec![dest(10, 210)];
    let mut port = ScriptedPort::new_reliable();
    let r = split(&mut port, &ctx, &destinations, vec![1]);
    assert_eq!(r, Err(ErrorCode::MissingAssetContext));
    assert!(port.calls.is_empty());
}

#[test]
fn stray_asset_fields_rejected() {
    let mut ctx = fungible_ctx();
    ctx.asset = None;
    let destinations = vec![dest(10, 210)];
    let mut port = ScriptedPort::new_reliable();
    let r = split(&mut port, &ctx, &destinations, vec![1]);
    assert_eq!(r, Err(ErrorCode::MissingAssetContext));
    assert!(port.calls.is_empty());
}

#[test]
fn asset_mismatch_rejected() {
    let mut ctx = fungible_ctx();
    ctx.payer_funding_account =
        Some(FundingAccount { account: AccountId(100), asset: AssetId(7) });
    let destinations = vec![dest(10, 210)];
    let mut port = ScriptedPort::new_reliable();
    let r = split(&mut port, &ctx, &destinations, vec![1]);
    assert_eq!(r, Err(ErrorCode::AssetMismatch));
    assert!(port.calls.is_empty());
}

#[test]
fn fail_fast_stops_after_failure() {
    let ctx = native_ctx();
    let destinations = vec![dest(10, 0), dest(11, 0), dest(12, 0)];
    let mut port = ScriptedPort::new_failing_at(1, TransferError(42));
    let r = split(&mut port, &ctx, &destinations, vec![1, 2, 3]);
    assert_eq!(r, Err(ErrorCode::TransferFailed(1, TransferError(42))));
    assert_eq!(port.calls.len(), 2);
    assert_eq!(port.calls[0].amount, 1);
    assert_eq!(port.calls[0].destination, AccountId(10));
    assert_eq!(port.calls[1].amount, 2);
    assert_eq!(port.calls[1].destination, AccountId(11));
}

#[test]
fn failure_at_first_position() {
    let ctx = native_ctx();
    let destinations = vec![dest(10, 0), dest(11, 0)];
    let mut port = ScriptedPort::new_failing_at(0, TransferError(7));
    let r = split(&mut port, &ctx, &destinations, vec![5, 6]);
    assert_eq!(r, Err(ErrorCode::TransferFailed(0, TransferError(7))));
    assert_eq!(port.calls.len(), 1);
    assert_eq!(port.calls[0].amount, 5);
}

#[test]
fn validation_repeatable() {
    let ctx = native_ctx();
    let amount_spec = AmountSpec::Fixed(vec![1, 2, 3]);
    let first = validate(&ctx, 2, &amount_spec);
    let second = validate(&ctx, 2, &amount_spec);
    assert_eq!(first, Err(ErrorCode::LengthMismatch));
    assert_eq!(first, second);
}

#[test]
fn proportional_exact_division() {
    let ctx = native_ctx();
    let destinations = vec![dest(10, 0), dest(11, 0), dest(12, 0)];
    let mut port = ScriptedPort::new_reliable();
    let r = splitPercentage(&mut port, &ctx, &destinations, 7, vec![1, 2, 4]);
    assert_eq!(r, Ok(()));
    assert_eq!(port.calls[0].amount, 1);
    assert_eq!(port.calls[1].amount, 2);
    assert_eq!(port.calls[2].amount, 4);
}

#[test]
fn proportional_uneven_division() {
    let ctx = native_ctx();
    let destinations = vec![dest(10, 0), dest(11, 0)];
    let mut port = ScriptedPort::new_reliable();
    let r = splitPercentage(&mut port, &ctx, &destinations, 10, vec![3, 1]);
    assert_eq!(r, Ok(()));
    assert_eq!(port.calls[0].amount, 7);
    assert_eq!(port.calls[1].amount, 2);
}

#[test]
fn large_total_uses_wide_intermediate() {
    let ctx = native_ctx();
    let destinations = vec![dest(10, 0), dest(11, 0)];
    let mut port = ScriptedPort::new_reliable();
    let r = splitPercentage(&mut port, &ctx, &destinations, u64::MAX, vec![1, 1]);
    assert_eq!(r, Ok(()));
    assert_eq!(port.calls[0].amount, u64::MAX / 2);
    assert_eq!(port.calls[1].amount, u64::MAX / 2);
}

#[test]
fn zero_weight_entry_gets_zero_amount() {
    let ctx = native_ctx();
    let destinations = vec![dest(10, 0), dest(11, 0), dest(12, 0)];
    let mut port = ScriptedPort::new_reliable();
    let r = splitPercentage(&mut port, &ctx, &destinations, 100, vec![1, 0, 1]);
    assert_eq!(r, Ok(()));
    assert_eq!(port.calls[0].amount, 50);
    assert_eq!(port.calls[1].amount, 0);
    assert_eq!(port.calls[2].amount, 50);
}

#[test]
fn fungible_mode_moves_between_funding_accounts() {
    let ctx = fungible_ctx();
    let destinations = vec![dest(10, 200), dest(11, 201)];
    let mut port = ScriptedPort::new_reliable();
    let r = split(&mut port, &ctx, &destinations, vec![4, 5]);
    assert_eq!(r, Ok(()));
    assert_eq!(port.calls.len(), 2);
    assert_eq!(port.calls[0].source, AccountId(100));
    assert_eq!(port.calls[0].destination, AccountId(200));
    assert_eq!(port.calls[0].authority, AccountId(1));
    assert_eq!(port.calls[1].source, AccountId(100));
    assert_eq!(port.calls[1].destination, AccountId(201));
    assert_eq!(port.calls[1].amount, 5);
}

#[test]
fn empty_request_succeeds_with_no_transfers() {
    let ctx = native_ctx();
    let destinations: Vec<Destination> = Vec::new();
    let mut port = ScriptedPort::new_reliable();
    let r = split(&mut port, &ctx, &destinations, Vec::new());
    assert_eq!(r, Ok(()));
    assert!(port.calls.is_empty());
}

#[test]
fn build_instructions_matches_issued_transfers() {
    let ctx = fungible_ctx();
    let destinations = vec![dest(10, 200), dest(11, 201), dest(12, 202)];
    let amount_spec = AmountSpec::Proportional { total: 100, weights: vec![2, 1, 1] };
    let plan = build_instructions(&ctx, &destinations, &amount_spec).unwrap();
    let mut port = ScriptedPort::new_reliable();
    let r = disburse(&mut port, &ctx, &destinations, &amount_spec);
    assert_eq!(r, Ok(()));
    assert_eq!(plan, port.calls);
    assert_eq!(plan[0].amount, 50);
    assert_eq!(plan[1].amount, 25);
    assert_eq!(plan[2].amount, 25);
}

#[test]
fn build_instructions_rejects_without_side_effect() {
    let ctx = native_ctx();
    let destinations = vec![dest(10, 0)];
    let amount_spec = AmountSpec::Proportional { total: 100, weights: vec![0] };
    let r = build_instructions(&ctx, &destinations, &amount_spec);
    assert_eq!(r, Err(ErrorCode::InvalidWeightSum));
}

#[test]
fn compute_amounts_fixed_is_verbatim() {
    let amounts = compute_amounts(&AmountSpec::Fixed(vec![5, 0, 6]));
    assert_eq!(amounts, vec![5, 0, 6]);
}

#[test]
fn scripted_port_records_every_attempt() {
    let mut port = ScriptedPort::new_failing_at(0, TransferError(3));
    let instruction = stark_pay_split::accounts::TransferInstruction {
        source: AccountId(1),
        destination: AccountId(2),
        authority: AccountId(1),
        amount: 9,
    };
    let first = port.transfer(&instruction);
    let second = port.transfer(&instruction);
    assert_eq!(first, Err(TransferError(3)));
    assert_eq!(second, Ok(()));
    assert_eq!(port.calls.len(), 2);
}
