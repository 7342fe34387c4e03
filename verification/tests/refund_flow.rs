use zk_crowdfunding::events::CampaignEvent;
use zk_crowdfunding::host::{
    Address, CalculationStatus, Context, SecretVarId, SecretVarType, SecretVariable, ZkState,
    ZkStateChange,
};
use zk_crowdfunding::refund_campaign::{
    add_contribution, claim_refund, end_campaign, initialize, inputted_variable,
    open_sum_variable, start_campaign, sum_compute_complete, verify_my_contribution,
    withdraw_funds, CampaignError, CampaignStatus,
};

fn ref_addr(fill: u8) -> Address {
    Address { address_type: 0, identifier: [fill; 20] }
}

fn ref_ctx(sender: Address, contract: Address, time: i64) -> Context {
    Context { sender, contract_address: contract, block_production_time: time }
}

fn ref_contribution(id: u32, owner: Address, amount: u32) -> SecretVariable {
    SecretVariable {
        id: SecretVarId { raw_id: id },
        owner,
        metadata: SecretVarType::Contribution { owner, timestamp: 1000 },
        data: Some(amount.to_le_bytes().to_vec()),
    }
}

fn ref_sum_var(id: u32, contract: Address, total: u32) -> SecretVariable {
    SecretVariable {
        id: SecretVarId { raw_id: id },
        owner: contract,
        metadata: SecretVarType::SumResult,
        data: Some(total.to_le_bytes().to_vec()),
    }
}

#[test]
fn refundable_campaign_success_and_withdrawal() {
    let owner = ref_addr(1);
    let contract = ref_addr(9);
    let token = ref_addr(7);
    let alice = ref_addr(10);
    let bob = ref_addr(11);

    let state = initialize(
        &ref_ctx(owner, contract, 1000),
        "Bridge".to_string(),
        "A footbridge".to_string(),
        token,
        50,
        100_000,
    )
    .unwrap();
    assert_eq!(state.status, CampaignStatus::Setup);

    let (state, events) = start_campaign(&ref_ctx(owner, contract, 1100), state).unwrap();
    assert_eq!(state.status, CampaignStatus::Active);
    assert_eq!(events.len(), 1);
    assert!(matches!(
        events[0].raw_events[0],
        CampaignEvent::StatusChanged { new_status_tag: 1, .. }
    ));

    // Contributions are registered, then confirmed on chain; confirmation
    // records the contributor and issues the token transfer.
    let (def, _events) = add_contribution(&ref_ctx(alice, contract, 1200), &state).unwrap();
    assert_eq!(def.on_inputted, Some(0x41));

    let zk = ZkState {
        calculation_state: CalculationStatus::Waiting,
        secret_variables: vec![ref_contribution(1, alice, 30), ref_contribution(2, bob, 40)],
    };
    let (state, events) =
        inputted_variable(&ref_ctx(alice, contract, 1250), state, &zk, SecretVarId { raw_id: 1 });
    assert_eq!(events.len(), 1);
    assert_eq!(events[0].interactions[0].payload[0], 0x03);
    let (state, _events) =
        inputted_variable(&ref_ctx(bob, contract, 1260), state, &zk, SecretVarId { raw_id: 2 });

    // A second commitment from the same address is rejected.
    assert_eq!(
        add_contribution(&ref_ctx(alice, contract, 1300), &state).unwrap_err(),
        CampaignError::AlreadyContributed
    );

    // The owner ends the campaign; the summing computation starts.
    let (state, _events, changes) =
        end_campaign(&ref_ctx(owner, contract, 2000), state, &zk).unwrap();
    assert_eq!(state.status, CampaignStatus::Computing);
    assert!(matches!(changes[0], ZkStateChange::StartComputation { .. }));

    let (state, changes) = sum_compute_complete(state, vec![SecretVarId { raw_id: 5 }]);
    assert!(matches!(&changes[0], ZkStateChange::OpenVariables { variables } if variables.len() == 1));

    // The sum opens as 70: the campaign completes, successful, total
    // published.
    let zk_done = ZkState {
        calculation_state: CalculationStatus::Waiting,
        secret_variables: vec![
            ref_contribution(1, alice, 30),
            ref_contribution(2, bob, 40),
            ref_sum_var(5, contract, 70),
        ],
    };
    let (state, events, changes) = open_sum_variable(
        &ref_ctx(contract, contract, 2100),
        state,
        &zk_done,
        &vec![SecretVarId { raw_id: 5 }],
    )
    .unwrap();
    assert_eq!(state.status, CampaignStatus::Completed);
    assert!(state.is_successful);
    assert_eq!(state.total_raised, Some(70));
    assert_eq!(state.num_contributors, Some(2));
    assert!(matches!(changes[0], ZkStateChange::ContractDone));
    assert!(matches!(
        events[0].raw_events[1],
        CampaignEvent::CampaignCompleted { is_successful: true, total_contributors: 2, .. }
    ));

    // Contribution verification succeeds for contributors only.
    assert!(verify_my_contribution(&ref_ctx(alice, contract, 2200), &state).is_ok());
    assert_eq!(
        verify_my_contribution(&ref_ctx(ref_addr(33), contract, 2200), &state).unwrap_err(),
        CampaignError::NoContribution
    );

    // No refunds from a successful campaign.
    assert_eq!(
        claim_refund(&ref_ctx(alice, contract, 2300), &state, &zk_done).unwrap_err(),
        CampaignError::CampaignSucceeded
    );

    // The owner withdraws the published total.
    let events = withdraw_funds(&ref_ctx(owner, contract, 2400), &state).unwrap();
    assert_eq!(events.len(), 2);
    assert!(matches!(
        events[0].raw_events[0],
        CampaignEvent::FundsWithdrawn { amount: 70, .. }
    ));
    let mut expected = vec![0x01u8, owner.address_type];
    expected.extend_from_slice(&owner.identifier);
    expected.extend_from_slice(&70u128.to_le_bytes());
    assert_eq!(events[1].interactions[0].payload, expected);
}

#[test]
fn refundable_campaign_failure_pays_back() {
    let owner = ref_addr(1);
    let contract = ref_addr(9);
    let token = ref_addr(7);
    let alice = ref_addr(10);

    let state = initialize(
        &ref_ctx(owner, contract, 1000),
        "Tower".to_string(),
        "A tall tower".to_string(),
        token,
        1_000,
        100_000,
    )
    .unwrap();
    let (state, _events) = start_campaign(&ref_ctx(owner, contract, 1100), state).unwrap();

    let zk = ZkState {
        calculation_state: CalculationStatus::Waiting,
        secret_variables: vec![ref_contribution(1, alice, 30)],
    };
    let (state, _events) =
        inputted_variable(&ref_ctx(alice, contract, 1250), state, &zk, SecretVarId { raw_id: 1 });

    let (state, _events, _changes) =
        end_campaign(&ref_ctx(owner, contract, 2000), state, &zk).unwrap();

    let zk_done = ZkState {
        calculation_state: CalculationStatus::Waiting,
        secret_variables: vec![ref_contribution(1, alice, 30), ref_sum_var(5, contract, 30)],
    };
    let (state, _events, _changes) = open_sum_variable(
        &ref_ctx(contract, contract, 2100),
        state,
        &zk_done,
        &vec![SecretVarId { raw_id: 5 }],
    )
    .unwrap();
    assert!(!state.is_successful);
    assert_eq!(state.total_raised, Some(30));

    // No withdrawal from a failed campaign in this design.
    assert_eq!(
        withdraw_funds(&ref_ctx(owner, contract, 2200), &state).unwrap_err(),
        CampaignError::NotSuccessful
    );

    // The contributor is refunded their committed amount.
    let events = claim_refund(&ref_ctx(alice, contract, 2300), &state, &zk_done).unwrap();
    assert_eq!(events.len(), 2);
    assert!(matches!(
        events[0].raw_events[0],
        CampaignEvent::RefundProcessed { .. }
    ));
    let mut expected = vec![0x01u8, alice.address_type];
    expected.extend_from_slice(&alice.identifier);
    expected.extend_from_slice(&30u128.to_le_bytes());
    assert_eq!(events[1].interactions[0].payload, expected);

    // A stranger has nothing to claim.
    assert_eq!(
        claim_refund(&ref_ctx(ref_addr(33), contract, 2300), &state, &zk_done).unwrap_err(),
        CampaignError::NoContribution
    );
}

#[test]
fn refund_campaign_guards_each_action() {
    let owner = ref_addr(1);
    let contract = ref_addr(9);
    let token = ref_addr(7);
    let alice = ref_addr(10);
    let stranger = ref_addr(33);

    // Bad creation arguments.
    let ctx = ref_ctx(owner, contract, 1000);
    assert_eq!(
        initialize(&ctx, "".to_string(), "d".to_string(), token, 5, 9_000).unwrap_err(),
        CampaignError::EmptyTitle
    );
    assert_eq!(
        initialize(&ctx, "t".to_string(), "d".to_string(), token, 0, 9_000).unwrap_err(),
        CampaignError::ZeroFundingTarget
    );
    assert_eq!(
        initialize(&ctx, "t".to_string(), "d".to_string(), token, 5, 500).unwrap_err(),
        CampaignError::DeadlineNotFuture
    );

    let state = initialize(&ctx, "t".to_string(), "d".to_string(), token, 5, 9_000).unwrap();

    // Only the owner starts the campaign, and contributions need an active
    // one.
    assert_eq!(
        add_contribution(&ref_ctx(alice, contract, 1100), &state).unwrap_err(),
        CampaignError::NotActive
    );
    assert_eq!(
        start_campaign(&ref_ctx(stranger, contract, 1100), state).unwrap_err(),
        CampaignError::NotOwner
    );

    let state = initialize(&ctx, "t".to_string(), "d".to_string(), token, 5, 9_000).unwrap();
    let (state, _events) = start_campaign(&ref_ctx(owner, contract, 1100), state).unwrap();

    // Contributions close at the deadline.
    assert_eq!(
        add_contribution(&ref_ctx(alice, contract, 10_000), &state).unwrap_err(),
        CampaignError::DeadlinePassed
    );

    // Before the deadline only the owner may end the campaign; and an empty
    // campaign cannot be ended at all.
    let zk = ZkState { calculation_state: CalculationStatus::Waiting, secret_variables: vec![] };
    assert_eq!(
        end_campaign(&ref_ctx(stranger, contract, 2000), state, &zk)
            .map(|_| ())
            .unwrap_err(),
        CampaignError::OnlyOwnerBeforeDeadline
    );
    let state = initialize(&ctx, "t".to_string(), "d".to_string(), token, 5, 9_000).unwrap();
    let (state, _events) = start_campaign(&ref_ctx(owner, contract, 1100), state).unwrap();
    assert_eq!(
        end_campaign(&ref_ctx(owner, contract, 2000), state, &zk)
            .map(|_| ())
            .unwrap_err(),
        CampaignError::NoContributors
    );

    // The opened-variables hook insists on exactly one variable.
    let state = initialize(&ctx, "t".to_string(), "d".to_string(), token, 5, 9_000).unwrap();
    let (state, _events) = start_campaign(&ref_ctx(owner, contract, 1100), state).unwrap();
    assert_eq!(
        open_sum_variable(&ref_ctx(contract, contract, 2100), state, &zk, &vec![])
            .map(|_| ())
            .unwrap_err(),
        CampaignError::UnexpectedOpenedCount
    );
}

#[test]
fn refund_campaign_stage_guards() {
    let owner = ref_addr(1);
    let contract = ref_addr(9);
    let token = ref_addr(7);
    let alice = ref_addr(10);
    let ctx = ref_ctx(owner, contract, 1000);

    assert_eq!(
        initialize(&ctx, "t".to_string(), "".to_string(), token, 5, 9_000).unwrap_err(),
        CampaignError::EmptyDescription
    );

    // A campaign can be started only once.
    let state = initialize(&ctx, "t".to_string(), "d".to_string(), token, 5, 9_000).unwrap();
    let (state, _events) = start_campaign(&ref_ctx(owner, contract, 1100), state).unwrap();
    assert_eq!(
        start_campaign(&ref_ctx(owner, contract, 1200), state).unwrap_err(),
        CampaignError::NotSetup
    );

    // The computation engine must be idle when the campaign ends.
    let state = initialize(&ctx, "t".to_string(), "d".to_string(), token, 5, 9_000).unwrap();
    let (state, _events) = start_campaign(&ref_ctx(owner, contract, 1100), state).unwrap();
    let busy = ZkState {
        calculation_state: CalculationStatus::Calculating,
        secret_variables: vec![ref_contribution(1, alice, 30)],
    };
    assert_eq!(
        end_campaign(&ref_ctx(owner, contract, 2000), state, &busy)
            .map(|_| ())
            .unwrap_err(),
        CampaignError::ComputationBusy
    );

    // Nothing is withdrawn, refunded or verified before completion.
    let state = initialize(&ctx, "t".to_string(), "d".to_string(), token, 5, 9_000).unwrap();
    let idle = ZkState { calculation_state: CalculationStatus::Waiting, secret_variables: vec![] };
    assert_eq!(
        withdraw_funds(&ref_ctx(owner, contract, 1200), &state).unwrap_err(),
        CampaignError::NotCompleted
    );
    assert_eq!(
        claim_refund(&ref_ctx(alice, contract, 1200), &state, &idle).unwrap_err(),
        CampaignError::NotCompleted
    );
    assert_eq!(
        verify_my_contribution(&ref_ctx(alice, contract, 1200), &state).unwrap_err(),
        CampaignError::NotCompleted
    );
}
