use amm_router::account::{token_program_id, Pubkey};
use amm_router::call::Plan;
use amm_router::processor::{to_u128, to_u64, Processor};
use amm_router::router::{route_deposit, route_swap};
use amm_router::unit::{Action, CallOutcome, UnitOfWork, UnitState};
use amm_router::AmmError;

fn key(n: u8) -> Pubkey {
    Pubkey { bytes: [n; 32] }
}

fn keys(n: u8) -> Vec<Pubkey> {
    (0..n).map(key).collect()
}

fn le(v: u64) -> [u8; 8] {
    v.to_le_bytes()
}

#[test]
fn pinned_token_program_matches_the_deployed_id() {
    assert_eq!(token_program_id().bytes, spl_token::id().to_bytes());
}

#[test]
fn deposit_scenario_plans_reduced_forward_and_two_skims() {
    let accounts = keys(16);
    let plan = Processor::deposit(&accounts, 100, 200, 0, &key(99)).unwrap();

    // the forward-call goes to the program in position 0 with the amounts
    // less their 10% skims
    assert_eq!(plan.forward.program_id, key(0));
    let mut expected_data = vec![3u8];
    expected_data.extend_from_slice(&le(90));
    expected_data.extend_from_slice(&le(180));
    expected_data.extend_from_slice(&le(0));
    assert_eq!(plan.forward.data, expected_data);

    // 13 positional references: the token program pinned first, then the
    // routed accounts, receivers excluded
    assert_eq!(plan.forward.accounts.len(), 13);
    assert_eq!(plan.forward.accounts[0].pubkey, token_program_id());
    assert!(!plan.forward.accounts[0].is_writable);
    for (pos, account_index) in (1..13).zip(2..14) {
        assert_eq!(plan.forward.accounts[pos].pubkey, key(account_index));
    }
    assert!(plan.forward.accounts[1].is_writable); // amm account
    assert!(!plan.forward.accounts[2].is_writable); // authority
    assert!(plan.forward.accounts[12].is_signer); // user owner
    assert!(plan.forward.accounts.iter().filter(|m| m.is_signer).count() == 1);

    // two skims: 10 from the user's coin account, 20 from the pc account
    assert_eq!(plan.skims.len(), 2);
    assert_eq!(plan.skims[0].token_program, key(1));
    assert_eq!(plan.skims[0].source, key(10));
    assert_eq!(plan.skims[0].destination, key(14));
    assert_eq!(plan.skims[0].authority, key(13));
    assert_eq!(plan.skims[0].amount, 10);
    assert_eq!(plan.skims[1].source, key(11));
    assert_eq!(plan.skims[1].destination, key(15));
    assert_eq!(plan.skims[1].authority, key(13));
    assert_eq!(plan.skims[1].amount, 20);
}

#[test]
fn deposit_minimum_fee_floor_applies_per_leg() {
    let accounts = keys(16);
    let plan = Processor::deposit(&accounts, 5, 0, 1, &key(99)).unwrap();
    // 5 tokens at 10% floors to 0, so the minimum fee of 1 applies; a zero
    // amount pays nothing
    assert_eq!(plan.skims[0].amount, 1);
    assert_eq!(plan.skims[1].amount, 0);
    let mut expected_data = vec![3u8];
    expected_data.extend_from_slice(&le(4));
    expected_data.extend_from_slice(&le(0));
    expected_data.extend_from_slice(&le(1));
    assert_eq!(plan.forward.data, expected_data);
}

#[test]
fn deposit_with_too_few_accounts_is_missing_account() {
    let accounts = keys(15);
    assert!(matches!(
        Processor::deposit(&accounts, 100, 200, 0, &key(99)),
        Err(AmmError::MissingAccount)
    ));
}

#[test]
fn swap_scenario_forwards_untouched_and_skims_from_minimum_out() {
    let accounts = keys(20);
    let plan = Processor::swap(&accounts, 1000, 500, &key(99)).unwrap();

    assert_eq!(plan.forward.program_id, key(0));
    let mut expected_data = vec![9u8];
    expected_data.extend_from_slice(&le(1000));
    expected_data.extend_from_slice(&le(500));
    assert_eq!(plan.forward.data, expected_data);

    assert_eq!(plan.forward.accounts.len(), 18);
    assert_eq!(plan.forward.accounts[0].pubkey, token_program_id());
    for (pos, account_index) in (1..18).zip(2..19) {
        assert_eq!(plan.forward.accounts[pos].pubkey, key(account_index));
    }
    assert!(plan.forward.accounts[17].is_signer); // user owner

    // the skim is a tenth of the caller's minimum acceptable output — the
    // realized swap output never enters the computation
    assert_eq!(plan.skims.len(), 1);
    assert_eq!(plan.skims[0].token_program, key(1));
    assert_eq!(plan.skims[0].source, key(17));
    assert_eq!(plan.skims[0].destination, key(19));
    assert_eq!(plan.skims[0].authority, key(18));
    assert_eq!(plan.skims[0].amount, 50);
}

#[test]
fn swap_with_zero_minimum_out_skims_nothing() {
    let accounts = keys(20);
    let plan = Processor::swap(&accounts, 1000, 0, &key(99)).unwrap();
    assert_eq!(plan.skims[0].amount, 0);
}

#[test]
fn swap_with_too_few_accounts_is_missing_account() {
    let accounts = keys(19);
    assert!(matches!(
        Processor::swap(&accounts, 1000, 500, &key(99)),
        Err(AmmError::MissingAccount)
    ));
}

#[test]
fn process_dispatches_on_the_tag() {
    let mut swap_data = vec![0u8];
    swap_data.extend_from_slice(&le(1000));
    swap_data.extend_from_slice(&le(500));
    let plan = Processor::process(&key(99), &keys(20), &swap_data).unwrap();
    assert_eq!(plan.forward.data[0], 9);
    assert_eq!(plan.skims.len(), 1);
    assert_eq!(plan.skims[0].amount, 50);

    let mut deposit_data = vec![1u8];
    deposit_data.extend_from_slice(&le(100));
    deposit_data.extend_from_slice(&le(200));
    deposit_data.extend_from_slice(&le(0));
    let plan = Processor::process(&key(99), &keys(16), &deposit_data).unwrap();
    assert_eq!(plan.forward.data[0], 3);
    assert_eq!(plan.skims.len(), 2);

    assert!(matches!(
        Processor::process(&key(99), &keys(20), &[7u8; 25]),
        Err(AmmError::InvalidInstruction)
    ));
    assert!(matches!(
        Processor::process(&key(99), &keys(15), &deposit_data),
        Err(AmmError::MissingAccount)
    ));
}

#[test]
fn router_assigns_roles_by_position() {
    let d = route_deposit(&keys(16)).unwrap();
    assert_eq!(d.forward_program, key(0));
    assert_eq!(d.token_program, key(1));
    assert_eq!(d.user_owner, key(13));
    assert_eq!(d.fee_receiver_coin, key(14));
    assert_eq!(d.fee_receiver_pc, key(15));
    assert!(matches!(route_deposit(&keys(15)), Err(AmmError::MissingAccount)));

    let s = route_swap(&keys(20)).unwrap();
    assert_eq!(s.forward_program, key(0));
    assert_eq!(s.user_source, key(16));
    assert_eq!(s.user_destination, key(17));
    assert_eq!(s.user_owner, key(18));
    assert_eq!(s.fee_receiver, key(19));
    assert!(matches!(route_swap(&keys(19)), Err(AmmError::MissingAccount)));
}

#[test]
fn conversions_round_trip_and_report_overflow() {
    assert_eq!(to_u128(7), Ok(7u128));
    assert_eq!(to_u64(7), Ok(7u64));
    assert_eq!(to_u64(u64::MAX as u128), Ok(u64::MAX));
    assert_eq!(to_u64(u64::MAX as u128 + 1), Err(AmmError::ConversionFailure));
}

fn deposit_plan() -> Plan {
    Processor::deposit(&keys(16), 100, 200, 0, &key(99)).unwrap()
}

fn swap_plan() -> Plan {
    Processor::swap(&keys(20), 1000, 500, &key(99)).unwrap()
}

#[test]
fn unit_issues_forward_then_skims_then_commits() {
    let mut unit = UnitOfWork::begin(deposit_plan());
    assert_eq!(unit.status(), UnitState::Running);

    match unit.next_action() {
        Some(Action::Forward(instr)) => assert_eq!(instr.data[0], 3),
        other => panic!("expected the forward call first, got {:?}", other),
    }
    unit.record(CallOutcome::Success);

    match unit.next_action() {
        Some(Action::Skim(s)) => assert_eq!(s.amount, 10),
        other => panic!("expected the first skim, got {:?}", other),
    }
    unit.record(CallOutcome::Success);

    match unit.next_action() {
        Some(Action::Skim(s)) => assert_eq!(s.amount, 20),
        other => panic!("expected the second skim, got {:?}", other),
    }
    unit.record(CallOutcome::Success);

    assert_eq!(unit.status(), UnitState::Committed);
    assert!(unit.next_action().is_none());
}

#[test]
fn forward_failure_prevents_every_skim() {
    for plan in [deposit_plan(), swap_plan()] {
        let mut unit = UnitOfWork::begin(plan);
        assert!(matches!(unit.next_action(), Some(Action::Forward(_))));
        unit.record(CallOutcome::Failure);
        assert_eq!(unit.status(), UnitState::RolledBack);
        assert!(unit.next_action().is_none());
    }
}

#[test]
fn skim_failure_rolls_the_unit_back() {
    let mut unit = UnitOfWork::begin(swap_plan());
    unit.record(CallOutcome::Success);
    assert!(matches!(unit.next_action(), Some(Action::Skim(_))));
    unit.record(CallOutcome::Failure);
    assert_eq!(unit.status(), UnitState::RolledBack);
    assert!(unit.next_action().is_none());
}
