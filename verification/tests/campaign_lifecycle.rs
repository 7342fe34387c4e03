use zk_crowdfunding::campaign::{
    add_contribution, contribute_callback, contribute_tokens, end_campaign, get_campaign_info,
    handle_opened_variables, initialize, threshold_check_complete, token_units_to_wei,
    withdraw_funds, CampaignError, CampaignStatus,
};
use zk_crowdfunding::host::{
    Address, CalculationStatus, CallbackContext, Context, SecretVarId, SecretVarType,
    SecretVariable, ZkState, ZkStateChange,
};
use zk_crowdfunding::zk_compute::threshold_check_with_privacy_preserving_withdrawal;

fn camp_addr(address_type: u8, fill: u8) -> Address {
    Address { address_type, identifier: [fill; 20] }
}

fn camp_ctx(sender: Address, contract: Address, time: i64) -> Context {
    Context { sender, contract_address: contract, block_production_time: time }
}

fn contribution_var(id: u32, owner: Address, data: Option<Vec<u8>>) -> SecretVariable {
    SecretVariable {
        id: SecretVarId { raw_id: id },
        owner,
        metadata: SecretVarType::Contribution { owner, timestamp: 1000 },
        data,
    }
}

fn output_var(id: u32, owner: Address, metadata: SecretVarType, data: Vec<u8>) -> SecretVariable {
    SecretVariable { id: SecretVarId { raw_id: id }, owner, metadata, data: Some(data) }
}

fn expected_transfer_payload(to: &Address, amount: u128) -> Vec<u8> {
    let mut expected = vec![0x01u8, to.address_type];
    expected.extend_from_slice(&to.identifier);
    expected.extend_from_slice(&amount.to_le_bytes());
    expected
}

fn expected_transfer_from_payload(from: &Address, to: &Address, amount: u128) -> Vec<u8> {
    let mut expected = vec![0x03u8, from.address_type];
    expected.extend_from_slice(&from.identifier);
    expected.push(to.address_type);
    expected.extend_from_slice(&to.identifier);
    expected.extend_from_slice(&amount.to_le_bytes());
    expected
}

/// Three contributors commit 10, 20 and 70 against a target of 90: the
/// computation reports the threshold met, the total is published as 100, and
/// the owner withdraws 100 units (in ledger units); a second withdrawal
/// fails.
#[test]
fn successful_campaign_end_to_end() {
    let owner = camp_addr(0, 1);
    let contract = camp_addr(3, 9);
    let token = camp_addr(2, 7);
    let alice = camp_addr(0, 10);
    let bob = camp_addr(0, 11);
    let carol = camp_addr(0, 12);

    let state = initialize(
        &camp_ctx(owner, contract, 1000),
        "Community well".to_string(),
        "A well for the village".to_string(),
        token,
        90,
    )
    .unwrap();
    assert_eq!(state.status, CampaignStatus::Active);
    assert_eq!(state.total_raised, None);
    assert!(!state.is_successful);
    assert!(!state.funds_withdrawn);

    // Each contributor commits a secret amount.
    for who in [alice, bob, carol] {
        let def = add_contribution(&camp_ctx(who, contract, 1100), &state).unwrap();
        assert!(matches!(def.metadata, SecretVarType::Contribution { .. }));
    }
    let zk = ZkState {
        calculation_state: CalculationStatus::Waiting,
        secret_variables: vec![
            contribution_var(1, alice, None),
            contribution_var(2, bob, None),
            contribution_var(3, carol, None),
        ],
    };

    // Each contributor moves the matching tokens.
    let group = contribute_tokens(&camp_ctx(alice, contract, 1200), &state, &zk, 10).unwrap();
    assert_eq!(group.interactions.len(), 1);
    assert_eq!(
        group.interactions[0].payload,
        expected_transfer_from_payload(&alice, &contract, 10 * 1_000_000_000_000)
    );
    let cb = group.callback.unwrap();
    assert_eq!(cb.shortname, 0x31);
    assert_eq!(cb.payload, 10u32.to_le_bytes().to_vec());
    let state = contribute_callback(&CallbackContext { success: true }, state).unwrap();

    // The owner ends the campaign; the computation starts with the target
    // as public input and three declared outputs.
    let (state, changes) = end_campaign(&camp_ctx(owner, contract, 2000), state, &zk).unwrap();
    assert_eq!(state.status, CampaignStatus::Computing);
    assert_eq!(state.num_contributors, Some(3));
    assert_eq!(changes.len(), 1);
    match &changes[0] {
        ZkStateChange::StartComputation { function_shortname, output_metadata, public_inputs, on_complete } => {
            assert_eq!(*function_shortname, 0x61);
            assert_eq!(output_metadata.len(), 3);
            assert_eq!(public_inputs, &vec![90u32]);
            assert_eq!(*on_complete, Some(0x42));
        }
        _ => panic!("expected a computation start"),
    }

    // The computation itself: sums to 100, threshold met.
    let (flag, conditional, actual) =
        threshold_check_with_privacy_preserving_withdrawal(90, &vec![10, 20, 70]);
    assert_eq!((flag, conditional, actual), (1, 100, 100));

    // Outputs are committed; the flag alone is declassified first.
    let outputs = vec![
        SecretVarId { raw_id: 10 },
        SecretVarId { raw_id: 11 },
        SecretVarId { raw_id: 12 },
    ];
    let (state, changes) = threshold_check_complete(state, &outputs);
    assert_eq!(state.balance_tracker_id, Some(SecretVarId { raw_id: 11 }));
    assert_eq!(state.withdrawal_tracker_id, Some(SecretVarId { raw_id: 12 }));
    match &changes[0] {
        ZkStateChange::OpenVariables { variables } => {
            assert_eq!(variables, &vec![SecretVarId { raw_id: 10 }])
        }
        _ => panic!("expected a declassification request"),
    }

    // The flag opens as 1: completed, successful, and the conditional total
    // is requested next.
    let zk = ZkState {
        calculation_state: CalculationStatus::Waiting,
        secret_variables: vec![output_var(
            10,
            contract,
            SecretVarType::ThresholdCheckResult,
            flag.to_le_bytes().to_vec(),
        )],
    };
    let (state, events, changes) =
        handle_opened_variables(state, &zk, &vec![SecretVarId { raw_id: 10 }]);
    assert_eq!(state.status, CampaignStatus::Completed);
    assert!(state.is_successful);
    assert!(events.is_empty());
    match &changes[0] {
        ZkStateChange::OpenVariables { variables } => {
            assert_eq!(variables, &vec![SecretVarId { raw_id: 11 }])
        }
        _ => panic!("expected a declassification request"),
    }

    // The conditional total opens as 100 and goes on public display.
    let zk = ZkState {
        calculation_state: CalculationStatus::Waiting,
        secret_variables: vec![output_var(
            11,
            contract,
            SecretVarType::ConditionalTotal,
            conditional.to_le_bytes().to_vec(),
        )],
    };
    let (state, events, changes) =
        handle_opened_variables(state, &zk, &vec![SecretVarId { raw_id: 11 }]);
    assert_eq!(state.total_raised, Some(100));
    assert!(events.is_empty());
    assert!(changes.is_empty());

    // The owner withdraws: the guard flips and the actual total is
    // requested.
    let (state, changes) = withdraw_funds(&camp_ctx(owner, contract, 3000), state).unwrap();
    assert!(state.funds_withdrawn);
    match &changes[0] {
        ZkStateChange::OpenVariables { variables } => {
            assert_eq!(variables, &vec![SecretVarId { raw_id: 12 }])
        }
        _ => panic!("expected a declassification request"),
    }

    // The actual total opens as 100: one transfer of 100 units, converted
    // to ledger units, goes to the owner.
    let zk = ZkState {
        calculation_state: CalculationStatus::Waiting,
        secret_variables: vec![output_var(
            12,
            contract,
            SecretVarType::ActualTotal,
            actual.to_le_bytes().to_vec(),
        )],
    };
    let (state, events, changes) =
        handle_opened_variables(state, &zk, &vec![SecretVarId { raw_id: 12 }]);
    assert!(changes.is_empty());
    assert_eq!(events.len(), 1);
    assert_eq!(events[0].interactions.len(), 1);
    assert_eq!(events[0].interactions[0].dest.identifier, token.identifier);
    assert_eq!(
        events[0].interactions[0].payload,
        expected_transfer_payload(&owner, 100 * 1_000_000_000_000)
    );

    // A second withdrawal fails.
    let err = withdraw_funds(&camp_ctx(owner, contract, 4000), state).unwrap_err();
    assert_eq!(err, CampaignError::AlreadyWithdrawn);
}

/// Two contributors commit 5 and 5 against a target of 50: the threshold is
/// missed, the public total stays hidden forever, yet the owner can still
/// recover the true total through the owner-only withdrawal path.
#[test]
fn failed_campaign_keeps_total_hidden() {
    let owner = camp_addr(0, 1);
    let contract = camp_addr(3, 9);
    let token = camp_addr(2, 7);
    let dora = camp_addr(0, 20);
    let emil = camp_addr(0, 21);

    let state = initialize(
        &camp_ctx(owner, contract, 1000),
        "Moon rocket".to_string(),
        "A very big rocket".to_string(),
        token,
        50,
    )
    .unwrap();

    let zk = ZkState {
        calculation_state: CalculationStatus::Waiting,
        secret_variables: vec![
            contribution_var(1, dora, None),
            contribution_var(2, emil, None),
        ],
    };
    let (state, _changes) = end_campaign(&camp_ctx(owner, contract, 2000), state, &zk).unwrap();
    assert_eq!(state.num_contributors, Some(2));

    let (flag, conditional, actual) =
        threshold_check_with_privacy_preserving_withdrawal(50, &vec![5, 5]);
    assert_eq!((flag, conditional, actual), (0, 0, 10));

    let outputs = vec![
        SecretVarId { raw_id: 10 },
        SecretVarId { raw_id: 11 },
        SecretVarId { raw_id: 12 },
    ];
    let (state, _changes) = threshold_check_complete(state, &outputs);

    // The flag opens as 0: completed, failed, and nothing further is
    // requested for declassification.
    let zk = ZkState {
        calculation_state: CalculationStatus::Waiting,
        secret_variables: vec![output_var(
            10,
            contract,
            SecretVarType::ThresholdCheckResult,
            0u32.to_le_bytes().to_vec(),
        )],
    };
    let (state, events, changes) =
        handle_opened_variables(state, &zk, &vec![SecretVarId { raw_id: 10 }]);
    assert_eq!(state.status, CampaignStatus::Completed);
    assert!(!state.is_successful);
    assert_eq!(state.total_raised, None);
    assert!(events.is_empty());
    assert!(changes.is_empty());

    // Even if the conditional total were opened against the rules, the
    // public total of a failed campaign stays hidden.
    let zk = ZkState {
        calculation_state: CalculationStatus::Waiting,
        secret_variables: vec![output_var(
            11,
            contract,
            SecretVarType::ConditionalTotal,
            0u32.to_le_bytes().to_vec(),
        )],
    };
    let (state, _events, _changes) =
        handle_opened_variables(state, &zk, &vec![SecretVarId { raw_id: 11 }]);
    assert_eq!(state.total_raised, None);

    // The owner still recovers the true total through the owner-only path.
    let (state, _changes) = withdraw_funds(&camp_ctx(owner, contract, 3000), state).unwrap();
    let zk = ZkState {
        calculation_state: CalculationStatus::Waiting,
        secret_variables: vec![output_var(
            12,
            contract,
            SecretVarType::ActualTotal,
            10u32.to_le_bytes().to_vec(),
        )],
    };
    let (state, events, _changes) =
        handle_opened_variables(state, &zk, &vec![SecretVarId { raw_id: 12 }]);
    assert_eq!(events.len(), 1);
    assert_eq!(
        events[0].interactions[0].payload,
        expected_transfer_payload(&owner, 10 * 1_000_000_000_000)
    );
    assert_eq!(state.total_raised, None);
}

/// Ending a campaign with no contributions completes it immediately as
/// failed, without starting a computation.
#[test]
fn empty_campaign_completes_without_computation() {
    let owner = camp_addr(0, 1);
    let contract = camp_addr(3, 9);
    let token = camp_addr(2, 7);

    let state = initialize(
        &camp_ctx(owner, contract, 1000),
        "Nothing yet".to_string(),
        "Nobody came".to_string(),
        token,
        40,
    )
    .unwrap();

    let zk = ZkState { calculation_state: CalculationStatus::Waiting, secret_variables: vec![] };
    let (state, changes) = end_campaign(&camp_ctx(owner, contract, 2000), state, &zk).unwrap();
    assert_eq!(state.status, CampaignStatus::Completed);
    assert!(!state.is_successful);
    assert_eq!(state.total_raised, None);
    assert_eq!(state.num_contributors, Some(0));
    assert!(changes.is_empty());

    // With no computation there is no withdrawal tracker.
    let err = withdraw_funds(&camp_ctx(owner, contract, 3000), state).unwrap_err();
    assert_eq!(err, CampaignError::MissingWithdrawalTracker);
}

#[test]
fn initialize_rejects_bad_arguments() {
    let owner = camp_addr(0, 1);
    let contract = camp_addr(3, 9);
    let token = camp_addr(2, 7);
    let ctx = camp_ctx(owner, contract, 1000);

    assert_eq!(
        initialize(&ctx, "".to_string(), "d".to_string(), token, 5).unwrap_err(),
        CampaignError::EmptyTitle
    );
    assert_eq!(
        initialize(&ctx, "t".to_string(), "".to_string(), token, 5).unwrap_err(),
        CampaignError::EmptyDescription
    );
    assert_eq!(
        initialize(&ctx, "t".to_string(), "d".to_string(), token, 0).unwrap_err(),
        CampaignError::ZeroFundingTarget
    );
}

#[test]
fn campaign_action_preconditions_are_enforced() {
    let owner = camp_addr(0, 1);
    let contract = camp_addr(3, 9);
    let token = camp_addr(2, 7);
    let alice = camp_addr(0, 10);
    let stranger = camp_addr(0, 33);

    let state = initialize(
        &camp_ctx(owner, contract, 1000),
        "Guarded".to_string(),
        "Checks everywhere".to_string(),
        token,
        60,
    )
    .unwrap();

    let zk = ZkState {
        calculation_state: CalculationStatus::Waiting,
        secret_variables: vec![contribution_var(1, alice, None)],
    };

    // Tokens without a commitment, and zero amounts, are rejected.
    assert_eq!(
        contribute_tokens(&camp_ctx(stranger, contract, 1100), &state, &zk, 5).unwrap_err(),
        CampaignError::MissingCommitment
    );
    assert_eq!(
        contribute_tokens(&camp_ctx(alice, contract, 1100), &state, &zk, 0).unwrap_err(),
        CampaignError::ZeroAmount
    );

    // A failed token transfer aborts the contribution.
    assert_eq!(
        contribute_callback(&CallbackContext { success: false }, state).unwrap_err(),
        CampaignError::TransferFailed
    );

    // Rebuild: only the owner may end the campaign, and only while the
    // computation engine is idle.
    let state = initialize(
        &camp_ctx(owner, contract, 1000),
        "Guarded".to_string(),
        "Checks everywhere".to_string(),
        token,
        60,
    )
    .unwrap();
    assert_eq!(
        end_campaign(&camp_ctx(stranger, contract, 1200), state, &zk).unwrap_err(),
        CampaignError::NotOwner
    );

    let state = initialize(
        &camp_ctx(owner, contract, 1000),
        "Guarded".to_string(),
        "Checks everywhere".to_string(),
        token,
        60,
    )
    .unwrap();
    let busy = ZkState {
        calculation_state: CalculationStatus::Calculating,
        secret_variables: vec![contribution_var(1, alice, None)],
    };
    assert_eq!(
        end_campaign(&camp_ctx(owner, contract, 1200), state, &busy).unwrap_err(),
        CampaignError::ComputationBusy
    );

    // Withdrawing from an active campaign, or by a stranger, fails.
    let state = initialize(
        &camp_ctx(owner, contract, 1000),
        "Guarded".to_string(),
        "Checks everywhere".to_string(),
        token,
        60,
    )
    .unwrap();
    assert_eq!(
        withdraw_funds(&camp_ctx(owner, contract, 1300), state).unwrap_err(),
        CampaignError::NotCompleted
    );
    let state = initialize(
        &camp_ctx(owner, contract, 1000),
        "Guarded".to_string(),
        "Checks everywhere".to_string(),
        token,
        60,
    )
    .unwrap();
    assert_eq!(
        withdraw_funds(&camp_ctx(stranger, contract, 1300), state).unwrap_err(),
        CampaignError::NotOwner
    );

    // Contributions are rejected once the campaign is no longer active.
    let state = initialize(
        &camp_ctx(owner, contract, 1000),
        "Guarded".to_string(),
        "Checks everywhere".to_string(),
        token,
        60,
    )
    .unwrap();
    let empty_zk =
        ZkState { calculation_state: CalculationStatus::Waiting, secret_variables: vec![] };
    let (done, _) = end_campaign(&camp_ctx(owner, contract, 1400), state, &empty_zk).unwrap();
    assert_eq!(
        add_contribution(&camp_ctx(alice, contract, 1500), &done).unwrap_err(),
        CampaignError::NotActive
    );
    assert_eq!(
        contribute_tokens(&camp_ctx(alice, contract, 1500), &done, &zk, 5).unwrap_err(),
        CampaignError::NotActive
    );
}

#[test]
fn wei_conversion_is_exact() {
    assert_eq!(token_units_to_wei(0), 0);
    assert_eq!(token_units_to_wei(1), 1_000_000_000_000);
    assert_eq!(token_units_to_wei(100), 100_000_000_000_000);
    assert_eq!(token_units_to_wei(u32::MAX), (u32::MAX as u128) * 1_000_000_000_000);
}

#[test]
fn campaign_info_projects_public_state() {
    let owner = camp_addr(0, 1);
    let contract = camp_addr(3, 9);
    let token = camp_addr(2, 7);
    let state = initialize(
        &camp_ctx(owner, contract, 1000),
        "Open data".to_string(),
        "All public fields".to_string(),
        token,
        25,
    )
    .unwrap();

    let info = get_campaign_info(&state);
    assert_eq!(info.title, "Open data");
    assert_eq!(info.funding_target, 25);
    assert_eq!(info.status, CampaignStatus::Active);
    assert_eq!(info.total_raised, None);
    assert_eq!(info.num_contributors, None);
    assert!(!info.is_successful);
    assert!(!info.funds_withdrawn);
}
