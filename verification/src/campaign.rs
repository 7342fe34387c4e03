//! The privacy-preserving crowdfunding campaign.
//!
//! Contributors commit secret contribution amounts and move real tokens into
//! the contract; the owner ends the campaign, which runs the threshold
//! computation over all committed contributions; the boolean outcome is
//! always declassified, the aggregate only when the target was met.  The
//! owner withdraws the true total through a separate, owner-only
//! declassification path, so a failed campaign's total is never published —
//! this module implements the privacy-preserving withdrawal policy, under
//! which the owner may withdraw the actual total even when the public
//! threshold was missed.

use crate::events::{Callback, EventGroup};
use crate::host::{
    Address, CalculationStatus, CallbackContext, Context, SecretVarId, SecretVarType, ZkInputDef,
    ZkState, ZkStateChange, addr_eq, count_contributions, has_contribution_of,
    lemma_count_le_len, opened_value, read_variable_u32_le, spec_lookup,
};
use crate::token_interface::{MPC20TokenInterface, transfer_from_payload, transfer_payload};
use vstd::bytes::{spec_u32_to_le_bytes, u32_to_le_bytes};
use vstd::prelude::*;

verus! {

/// Shortname of the callback that confirms a contribution token transfer.
pub const CONTRIBUTION_CALLBACK_SHORTNAME: u32 = 0x31;

/// Shortname of the hook invoked when the threshold computation completes.
pub const THRESHOLD_CHECK_COMPLETE_SHORTNAME: u32 = 0x42;

/// Shortname of the threshold computation function.
pub const ZK_THRESHOLD_CHECK_SHORTNAME: u32 = 0x61;

/// Ledger units per raw token unit: amounts are committed and computed in
/// raw units and converted at every token-ledger call.
pub const WEI_PER_TOKEN_UNIT: u128 = 1_000_000_000_000;

/// Convert raw token units to the ledger's wei-like units.
pub fn token_units_to_wei(token_units: u32) -> (r: u128)
    ensures
        r == token_units * WEI_PER_TOKEN_UNIT,
{
    (token_units as u128) * WEI_PER_TOKEN_UNIT
}

/// Status of the crowdfunding campaign.
#[derive(Debug, Clone, Copy, PartialEq, Eq, Structural)]
pub enum CampaignStatus {
    /// Accepting contributions.
    Active,
    /// The aggregate computation is in flight.
    Computing,
    /// Terminal; the outcome is fixed.
    Completed,
}

/// Position of a status along the campaign's one-way lifecycle.
pub open spec fn status_rank(s: CampaignStatus) -> int {
    match s {
        CampaignStatus::Active => 0,
        CampaignStatus::Computing => 1,
        CampaignStatus::Completed => 2,
    }
}

/// The campaign's public contract state, with separate trackers for the
/// conditionally public total and the owner-only withdrawal total.
#[derive(Debug)]
pub struct ContractState {
    /// May end the campaign and withdraw; fixed at creation.
    pub owner: Address,
    /// Immutable campaign title.
    pub title: String,
    /// Immutable campaign description.
    pub description: String,
    /// The token ledger used for all transfers; fixed at creation.
    pub token_address: Address,
    /// The public funding target in raw token units; fixed, always positive.
    pub funding_target: u32,
    /// Where the campaign stands in its lifecycle.
    pub status: CampaignStatus,
    /// The publicly displayed total; populated only when disclosure rules
    /// permit, never for a failed campaign.
    pub total_raised: Option<u32>,
    /// Number of contribution commitments, fixed when the campaign leaves
    /// the active stage.
    pub num_contributors: Option<u32>,
    /// Whether the funding target was met; meaningful once completed.
    pub is_successful: bool,
    /// Guard against a second withdrawal.
    pub funds_withdrawn: bool,
    /// Output variable holding the conditional (public) total.
    pub balance_tracker_id: Option<SecretVarId>,
    /// Output variable holding the actual total, for the owner's withdrawal.
    pub withdrawal_tracker_id: Option<SecretVarId>,
}

impl ContractState {
    /// The disclosure invariant: a public total is on display only for a
    /// successful campaign, so a failed campaign's aggregate stays hidden.
    pub open spec fn privacy_ok(&self) -> bool {
        self.total_raised is Some ==> self.is_successful
    }

    /// The withdrawal guard is set only on a completed campaign.
    pub open spec fn withdrawn_ok(&self) -> bool {
        self.funds_withdrawn ==> self.status is Completed
    }

    /// Structural validity: the funding target is positive and the
    /// disclosure and withdrawal invariants hold.
    pub open spec fn wf(&self) -> bool {
        &&& self.funding_target > 0
        &&& self.privacy_ok()
        &&& self.withdrawn_ok()
    }
}

/// What every campaign transition must preserve: the status only moves
/// forward along the lifecycle; the disclosure and withdrawal invariants
/// are kept; the withdrawn guard never resets; and the fields fixed at
/// creation never change.
pub open spec fn campaign_step_ok(pre: ContractState, post: ContractState) -> bool {
    &&& status_rank(post.status) >= status_rank(pre.status)
    &&& (pre.privacy_ok() ==> post.privacy_ok())
    &&& (pre.funds_withdrawn ==> post.funds_withdrawn)
    &&& (pre.withdrawn_ok() ==> post.withdrawn_ok())
    &&& post.owner == pre.owner
    &&& post.title == pre.title
    &&& post.description == pre.description
    &&& post.token_address == pre.token_address
    &&& post.funding_target == pre.funding_target
}

/// Campaign transitions compose: across any chain of steps the status still
/// only moves forward, a failed campaign's hidden total stays hidden, the
/// withdrawal guard never resets, and the creation-time fields never change.
pub proof fn lemma_campaign_steps_compose(a: ContractState, b: ContractState, c: ContractState)
    requires
        campaign_step_ok(a, b),
        campaign_step_ok(b, c),
    ensures
        campaign_step_ok(a, c),
{
}

/// Why a campaign action was rejected.  A rejected action leaves no state
/// change: the caller's transaction fails as a whole.
#[derive(Clone, Copy, PartialEq, Eq, Structural, Debug)]
pub enum CampaignError {
    /// The title must not be empty.
    EmptyTitle,
    /// The description must not be empty.
    EmptyDescription,
    /// The funding target must be positive.
    ZeroFundingTarget,
    /// The action needs an active campaign.
    NotActive,
    /// A token contribution must move a positive amount.
    ZeroAmount,
    /// Tokens may only follow an existing contribution commitment.
    MissingCommitment,
    /// Only the owner may do this.
    NotOwner,
    /// The computation engine is not idle.
    ComputationBusy,
    /// The token ledger reported a failed transfer.
    TransferFailed,
    /// The action needs a completed campaign.
    NotCompleted,
    /// The funds have already been withdrawn.
    AlreadyWithdrawn,
    /// No withdrawal tracker exists (no computation ever ran).
    MissingWithdrawalTracker,
}

/// Initialize the campaign.  Rejects an empty title or description and a
/// zero funding target; otherwise produces the initial active state with
/// every optional field empty.
pub fn initialize(
    ctx: &Context,
    title: String,
    description: String,
    token_address: Address,
    funding_target: u32,
) -> (r: Result<ContractState, CampaignError>)
    ensures
        match r {
            Ok(s) => {
                &&& title@.len() > 0
                &&& description@.len() > 0
                &&& funding_target > 0
                &&& s == (ContractState {
                    owner: ctx.sender,
                    title: title,
                    description: description,
                    token_address: token_address,
                    funding_target: funding_target,
                    status: CampaignStatus::Active,
                    total_raised: None,
                    num_contributors: None,
                    is_successful: false,
                    funds_withdrawn: false,
                    balance_tracker_id: None,
                    withdrawal_tracker_id: None,
                })
                &&& s.wf()
            },
            Err(e) => {
                &&& (title@.len() == 0 || description@.len() == 0 || funding_target == 0)
                &&& e == (if title@.len() == 0 {
                    CampaignError::EmptyTitle
                } else if description@.len() == 0 {
                    CampaignError::EmptyDescription
                } else {
                    CampaignError::ZeroFundingTarget
                })
            },
        },
{
    if title.as_str().is_empty() {
        return Err(CampaignError::EmptyTitle);
    }
    if description.as_str().is_empty() {
        return Err(CampaignError::EmptyDescription);
    }
    if funding_target == 0 {
        return Err(CampaignError::ZeroFundingTarget);
    }
    Ok(
        ContractState {
            owner: ctx.sender,
            title,
            description,
            token_address,
            funding_target,
            status: CampaignStatus::Active,
            total_raised: None,
            num_contributors: None,
            is_successful: false,
            funds_withdrawn: false,
            balance_tracker_id: None,
            withdrawal_tracker_id: None,
        },
    )
}

/// Register a contribution commitment.  Allowed only while the campaign is
/// active; yields the definition of the pending secret input, tagged with
/// the contributor and the block time.  No tokens move here.
pub fn add_contribution(ctx: &Context, state: &ContractState) -> (r: Result<
    ZkInputDef,
    CampaignError,
>)
    ensures
        match r {
            Ok(d) => {
                &&& state.status is Active
                &&& d.on_inputted is None
                &&& d.metadata == (SecretVarType::Contribution {
                    owner: ctx.sender,
                    timestamp: ctx.block_production_time,
                })
            },
            Err(e) => !(state.status is Active) && e == CampaignError::NotActive,
        },
{
    if state.status != CampaignStatus::Active {
        return Err(CampaignError::NotActive);
    }
    Ok(
        ZkInputDef {
            on_inputted: None,
            metadata: SecretVarType::Contribution {
                owner: ctx.sender,
                timestamp: ctx.block_production_time,
            },
        },
    )
}

/// Move real tokens behind a contribution commitment.  Allowed only while
/// the campaign is active, for a positive amount, and only for a sender who
/// has already committed a secret contribution.  Issues one asynchronous
/// `transfer_from(sender -> contract)` call on the token ledger, in ledger
/// units, chained to the contribution callback carrying the raw amount.
pub fn contribute_tokens(ctx: &Context, state: &ContractState, zk: &ZkState, amount: u32) -> (r:
    Result<EventGroup, CampaignError>)
    ensures
        match r {
            Ok(g) => {
                &&& state.status is Active
                &&& amount > 0
                &&& has_contribution_of(zk.secret_variables@, ctx.sender)
                &&& g.interactions@.len() == 1
                &&& g.interactions@[0].dest == state.token_address
                &&& g.interactions@[0].payload@ == transfer_from_payload(
                    ctx.sender,
                    ctx.contract_address,
                    (amount * WEI_PER_TOKEN_UNIT) as u128,
                )
                &&& g.callback matches Some(cb) && cb.shortname == CONTRIBUTION_CALLBACK_SHORTNAME
                    && cb.payload@ == spec_u32_to_le_bytes(amount)
                &&& g.raw_events@.len() == 0
            },
            Err(e) => {
                &&& !(state.status is Active && amount > 0 && has_contribution_of(
                    zk.secret_variables@,
                    ctx.sender,
                ))
                &&& e == (if !(state.status is Active) {
                    CampaignError::NotActive
                } else if amount == 0 {
                    CampaignError::ZeroAmount
                } else {
                    CampaignError::MissingCommitment
                })
            },
        },
{
    if state.status != CampaignStatus::Active {
        return Err(CampaignError::NotActive);
    }
    if amount == 0 {
        return Err(CampaignError::ZeroAmount);
    }
    if !zk.sender_has_commitment(&ctx.sender) {
        return Err(CampaignError::MissingCommitment);
    }

    let wei_amount = token_units_to_wei(amount);
    let interface = MPC20TokenInterface::new(state.token_address);
    let mut group = interface.transfer_from(ctx.sender, ctx.contract_address, wei_amount);
    group.callback = Some(
        Callback { shortname: CONTRIBUTION_CALLBACK_SHORTNAME, payload: u32_to_le_bytes(amount) },
    );
    Ok(group)
}

/// Callback after the contribution token transfer.  A failed transfer is
/// fatal: the error aborts the callback transaction, so the host reverts
/// every effect of the contribution.  On success there is nothing to record;
/// privacy is preserved by not tracking amounts outside the secret domain.
pub fn contribute_callback(callback_ctx: &CallbackContext, state: ContractState) -> (r: Result<
    ContractState,
    CampaignError,
>)
    ensures
        match r {
            Ok(s) => callback_ctx.success && s == state,
            Err(e) => !callback_ctx.success && e == CampaignError::TransferFailed,
        },
{
    if !callback_ctx.success {
        return Err(CampaignError::TransferFailed);
    }
    Ok(state)
}

/// End the campaign.  Only the owner, only from the active stage, and only
/// while the computation engine is idle.  With no contributions the campaign
/// completes immediately as failed, without starting a computation; otherwise
/// it moves to the computing stage, records the contributor count, and starts
/// the threshold computation with the funding target as public input and the
/// three output declarations in their fixed order.
pub fn end_campaign(ctx: &Context, state: ContractState, zk: &ZkState) -> (r: Result<
    (ContractState, Vec<ZkStateChange>),
    CampaignError,
>)
    requires
        zk.secret_variables@.len() <= u32::MAX,
    ensures
        match r {
            Ok((s, changes)) => {
                &&& addr_eq(ctx.sender, state.owner)
                &&& state.status is Active
                &&& zk.calculation_state is Waiting
                &&& campaign_step_ok(state, s)
                &&& if count_contributions(zk.secret_variables@) == 0 {
                    &&& s == (ContractState {
                        status: CampaignStatus::Completed,
                        num_contributors: Some(0u32),
                        is_successful: false,
                        total_raised: None,
                        ..state
                    })
                    &&& changes@.len() == 0
                } else {
                    &&& s == (ContractState {
                        status: CampaignStatus::Computing,
                        num_contributors: Some(
                            count_contributions(zk.secret_variables@) as u32,
                        ),
                        ..state
                    })
                    &&& changes@.len() == 1
                    &&& changes@[0] matches ZkStateChange::StartComputation {
                        function_shortname,
                        output_metadata,
                        public_inputs,
                        on_complete,
                    } && function_shortname == ZK_THRESHOLD_CHECK_SHORTNAME && output_metadata@
                        =~= seq![
                        SecretVarType::ThresholdCheckResult,
                        SecretVarType::ConditionalTotal,
                        SecretVarType::ActualTotal,
                    ] && public_inputs@ =~= seq![state.funding_target] && on_complete == Some(
                        THRESHOLD_CHECK_COMPLETE_SHORTNAME,
                    )
                }
            },
            Err(e) => {
                &&& !(addr_eq(ctx.sender, state.owner) && state.status is Active
                    && zk.calculation_state is Waiting)
                &&& e == (if !addr_eq(ctx.sender, state.owner) {
                    CampaignError::NotOwner
                } else if !(state.status is Active) {
                    CampaignError::NotActive
                } else {
                    CampaignError::ComputationBusy
                })
            },
        },
{
    if ctx.sender != state.owner {
        return Err(CampaignError::NotOwner);
    }
    if state.status != CampaignStatus::Active {
        return Err(CampaignError::NotActive);
    }
    if zk.calculation_state != CalculationStatus::Waiting {
        return Err(CampaignError::ComputationBusy);
    }

    let contributions = zk.count_commitments();
    proof {
        lemma_count_le_len(zk.secret_variables@);
    }

    let mut next = state;

    if contributions == 0 {
        // No contributions: the campaign cannot succeed, so complete it
        // directly instead of running the computation on an empty set.
        next.status = CampaignStatus::Completed;
        next.num_contributors = Some(0);
        next.is_successful = false;
        next.total_raised = None;
        return Ok((next, Vec::new()));
    }

    next.status = CampaignStatus::Computing;
    next.num_contributors = Some(contributions as u32);

    let mut output_metadata: Vec<SecretVarType> = Vec::new();
    output_metadata.push(SecretVarType::ThresholdCheckResult);
    output_metadata.push(SecretVarType::ConditionalTotal);
    output_metadata.push(SecretVarType::ActualTotal);

    let mut public_inputs: Vec<u32> = Vec::new();
    public_inputs.push(next.funding_target);

    let mut changes: Vec<ZkStateChange> = Vec::new();
    changes.push(
        ZkStateChange::StartComputation {
            function_shortname: ZK_THRESHOLD_CHECK_SHORTNAME,
            output_metadata,
            public_inputs,
            on_complete: Some(THRESHOLD_CHECK_COMPLETE_SHORTNAME),
        },
    );

    Ok((next, changes))
}

/// Hook invoked when the threshold computation completes.  Stores the
/// conditional-total and actual-total handles and requests declassification
/// of the threshold flag alone: the aggregate stays secret until the boolean
/// outcome is known.  A malformed output list completes the campaign as
/// failed.
pub fn threshold_check_complete(state: ContractState, output_variables: &Vec<SecretVarId>) -> (r: (
    ContractState,
    Vec<ZkStateChange>,
))
    ensures
        campaign_step_ok(state, r.0),
        if output_variables@.len() >= 3 {
            &&& r.0 == (ContractState {
                balance_tracker_id: Some(output_variables@[1]),
                withdrawal_tracker_id: Some(output_variables@[2]),
                ..state
            })
            &&& r.1@.len() == 1
            &&& r.1@[0] matches ZkStateChange::OpenVariables { variables } && variables@ =~= seq![
                output_variables@[0],
            ]
        } else {
            &&& r.0 == (ContractState {
                status: CampaignStatus::Completed,
                is_successful: false,
                total_raised: None,
                ..state
            })
            &&& r.1@.len() == 0
        },
{
    let mut next = state;
    if output_variables.len() >= 3 {
        next.balance_tracker_id = Some(output_variables[1]);
        next.withdrawal_tracker_id = Some(output_variables[2]);

        let mut to_open: Vec<SecretVarId> = Vec::new();
        to_open.push(output_variables[0]);
        let mut changes: Vec<ZkStateChange> = Vec::new();
        changes.push(ZkStateChange::OpenVariables { variables: to_open });
        (next, changes)
    } else {
        next.status = CampaignStatus::Completed;
        next.is_successful = false;
        next.total_raised = None;
        (next, Vec::new())
    }
}

/// What the opened-variables hook does in the computing stage, where the
/// opened variable is the threshold flag: the campaign completes; when the
/// flag reads one the campaign is successful and the conditional (public)
/// total is requested for declassification as a second step; otherwise the
/// campaign has failed and nothing further is ever declassified publicly.
pub open spec fn threshold_flag_outcome(
    state: ContractState,
    flag: u32,
    next: ContractState,
    changes: Seq<ZkStateChange>,
) -> bool {
    if flag == 1 {
        &&& next == (ContractState {
            status: CampaignStatus::Completed,
            is_successful: true,
            ..state
        })
        &&& match state.balance_tracker_id {
            Some(b) => {
                &&& changes.len() == 1
                &&& changes[0] matches ZkStateChange::OpenVariables { variables } && variables@
                    =~= seq![b]
            },
            None => changes.len() == 0,
        }
    } else {
        &&& next == (ContractState {
            status: CampaignStatus::Completed,
            is_successful: false,
            total_raised: None,
            ..state
        })
        &&& changes.len() == 0
    }
}

/// Hook invoked whenever declassified variables come back.  It fires for
/// three distinct reasons across the campaign's lifetime and disambiguates
/// them by the current status and the recorded tracker handles:
///
/// - in the computing stage the opened variable is the threshold flag;
/// - once completed, the conditional-total tracker carries the public total,
///   put on display only for a successful campaign;
/// - after a withdrawal, the withdrawal tracker carries the true total,
///   which is turned directly into a token transfer to the owner and never
///   stored.
pub fn handle_opened_variables(
    state: ContractState,
    zk: &ZkState,
    opened_variables: &Vec<SecretVarId>,
) -> (r: (ContractState, Vec<EventGroup>, Vec<ZkStateChange>))
    requires
        opened_variables@.len() > 0 ==> spec_lookup(zk.secret_variables@, opened_variables@[0])
            is Some,
    ensures
        campaign_step_ok(state, r.0),
        opened_variables@.len() == 0 ==> r.0 == state && r.1@.len() == 0 && r.2@.len() == 0,
        opened_variables@.len() > 0 ==> ({
            let v = spec_lookup(zk.secret_variables@, opened_variables@[0])->Some_0;
            let value = opened_value(v.data);
            if state.status is Computing {
                &&& threshold_flag_outcome(state, value, r.0, r.2@)
                &&& r.1@.len() == 0
            } else if state.balance_tracker_id matches Some(b) && opened_variables@[0] == b {
                &&& r.0 == (ContractState {
                    total_raised: if state.is_successful {
                        Some(value)
                    } else {
                        state.total_raised
                    },
                    ..state
                })
                &&& r.1@.len() == 0
                &&& r.2@.len() == 0
            } else if state.withdrawal_tracker_id matches Some(w) && opened_variables@[0] == w
                && state.funds_withdrawn {
                &&& r.0 == state
                &&& r.2@.len() == 0
                &&& if value > 0 {
                    &&& r.1@.len() == 1
                    &&& r.1@[0].interactions@.len() == 1
                    &&& r.1@[0].interactions@[0].dest == state.token_address
                    &&& r.1@[0].interactions@[0].payload@ == transfer_payload(
                        state.owner,
                        (value * WEI_PER_TOKEN_UNIT) as u128,
                    )
                    &&& r.1@[0].callback is None
                    &&& r.1@[0].raw_events@.len() == 0
                } else {
                    r.1@.len() == 0
                }
            } else {
                r.0 == state && r.1@.len() == 0 && r.2@.len() == 0
            }
        }),
{
    if opened_variables.len() == 0 {
        return (state, Vec::new(), Vec::new());
    }

    let variable_id = opened_variables[0];
    let opened_variable = match zk.get_variable(variable_id) {
        Some(v) => v,
        None => {
            proof {
                assert(false);
            }
            return (state, Vec::new(), Vec::new());
        },
    };
    let value = read_variable_u32_le(opened_variable);

    let mut next = state;

    if next.status == CampaignStatus::Computing {
        // First revelation round: the threshold flag.
        next.status = CampaignStatus::Completed;
        if value == 1 {
            next.is_successful = true;
            match next.balance_tracker_id {
                Some(balance_tracker_id) => {
                    // Second declassification step: put the conditional
                    // total on public display.
                    let mut to_open: Vec<SecretVarId> = Vec::new();
                    to_open.push(balance_tracker_id);
                    let mut changes: Vec<ZkStateChange> = Vec::new();
                    changes.push(ZkStateChange::OpenVariables { variables: to_open });
                    return (next, Vec::new(), changes);
                },
                None => {
                    return (next, Vec::new(), Vec::new());
                },
            }
        } else {
            // Threshold missed: the public total stays hidden forever.
            next.is_successful = false;
            next.total_raised = None;
            return (next, Vec::new(), Vec::new());
        }
    }

    match next.balance_tracker_id {
        Some(balance_tracker_id) => {
            if variable_id == balance_tracker_id {
                // The conditional total, revealed for public display; only a
                // successful campaign ever puts it on display.
                if next.is_successful {
                    next.total_raised = Some(value);
                }
                return (next, Vec::new(), Vec::new());
            }
        },
        None => {},
    }

    match next.withdrawal_tracker_id {
        Some(withdrawal_tracker_id) => {
            if variable_id == withdrawal_tracker_id && next.funds_withdrawn {
                // The true total, declassified transiently for the owner's
                // withdrawal: turn it into a transfer and forget it.
                if value > 0 {
                    let wei_amount = token_units_to_wei(value);
                    let interface = MPC20TokenInterface::new(next.token_address);
                    let group = interface.transfer(next.owner, wei_amount);
                    let mut events: Vec<EventGroup> = Vec::new();
                    events.push(group);
                    return (next, events, Vec::new());
                }
                return (next, Vec::new(), Vec::new());
            }
        },
        None => {},
    }

    (next, Vec::new(), Vec::new())
}

/// Whether a withdrawal request is accepted: only the owner, only once the
/// campaign has completed, only once, and only when a withdrawal tracker
/// exists.  Under the privacy-preserving policy the campaign need not have
/// been successful: the owner recovers the true total through the owner-only
/// path even when the public threshold was missed.
pub open spec fn withdraw_allowed(ctx: Context, s: ContractState) -> bool {
    &&& addr_eq(ctx.sender, s.owner)
    &&& s.status is Completed
    &&& !s.funds_withdrawn
    &&& s.withdrawal_tracker_id is Some
}

/// The state after a successful withdrawal request: the guard is set, and
/// nothing else changes.
pub open spec fn withdraw_next(s: ContractState) -> ContractState {
    ContractState { funds_withdrawn: true, ..s }
}

/// Withdraw the raised funds.  Marks the funds as withdrawn and requests
/// declassification of the owner-only withdrawal tracker; the resulting
/// token transfer is issued by the opened-variables hook once the true total
/// comes back.
pub fn withdraw_funds(ctx: &Context, state: ContractState) -> (r: Result<
    (ContractState, Vec<ZkStateChange>),
    CampaignError,
>)
    ensures
        match r {
            Ok((s, changes)) => {
                &&& withdraw_allowed(*ctx, state)
                &&& s == withdraw_next(state)
                &&& campaign_step_ok(state, s)
                &&& changes@.len() == 1
                &&& changes@[0] matches ZkStateChange::OpenVariables { variables } && variables@
                    =~= seq![state.withdrawal_tracker_id->Some_0]
            },
            Err(e) => {
                &&& !withdraw_allowed(*ctx, state)
                &&& e == (if !addr_eq(ctx.sender, state.owner) {
                    CampaignError::NotOwner
                } else if !(state.status is Completed) {
                    CampaignError::NotCompleted
                } else if state.funds_withdrawn {
                    CampaignError::AlreadyWithdrawn
                } else {
                    CampaignError::MissingWithdrawalTracker
                })
            },
        },
{
    if ctx.sender != state.owner {
        return Err(CampaignError::NotOwner);
    }
    if state.status != CampaignStatus::Completed {
        return Err(CampaignError::NotCompleted);
    }
    if state.funds_withdrawn {
        return Err(CampaignError::AlreadyWithdrawn);
    }
    let withdrawal_tracker_id = match state.withdrawal_tracker_id {
        Some(id) => id,
        None => {
            return Err(CampaignError::MissingWithdrawalTracker);
        },
    };

    let mut next = state;
    next.funds_withdrawn = true;

    let mut to_open: Vec<SecretVarId> = Vec::new();
    to_open.push(withdrawal_tracker_id);
    let mut changes: Vec<ZkStateChange> = Vec::new();
    changes.push(ZkStateChange::OpenVariables { variables: to_open });

    Ok((next, changes))
}

/// No double withdrawal: once a withdrawal has been accepted, any further
/// withdrawal request — by any caller, after any interleaving that preserves
/// the withdrawn guard — is rejected.
pub proof fn lemma_no_double_withdrawal(first: Context, second: Context, s: ContractState)
    requires
        withdraw_allowed(first, s),
    ensures
        !withdraw_allowed(second, withdraw_next(s)),
{
}

/// The publicly readable projection of a campaign: everything a caller may
/// learn.  Unrevealed totals never appear here — `total_raised` is populated
/// only once the disclosure rules have put it on display — and individual
/// contributions never leave the secret domain at all.
#[derive(Debug)]
pub struct CampaignInfo {
    /// The campaign owner.
    pub owner: Address,
    /// The campaign title.
    pub title: String,
    /// The campaign description.
    pub description: String,
    /// The token ledger used for transfers.
    pub token_address: Address,
    /// The public funding target, in raw token units.
    pub funding_target: u32,
    /// Where the campaign stands in its lifecycle.
    pub status: CampaignStatus,
    /// The revealed total, when disclosure rules permit.
    pub total_raised: Option<u32>,
    /// The contributor count, once the campaign left the active stage.
    pub num_contributors: Option<u32>,
    /// Whether the funding target was met; meaningful once completed.
    pub is_successful: bool,
    /// Whether the owner has withdrawn the funds.
    pub funds_withdrawn: bool,
}

/// Read the public state of the campaign.
pub fn get_campaign_info(state: &ContractState) -> (r: CampaignInfo)
    ensures
        r.owner == state.owner,
        r.title == state.title,
        r.description == state.description,
        r.token_address == state.token_address,
        r.funding_target == state.funding_target,
        r.status == state.status,
        r.total_raised == state.total_raised,
        r.num_contributors == state.num_contributors,
        r.is_successful == state.is_successful,
        r.funds_withdrawn == state.funds_withdrawn,
{
    CampaignInfo {
        owner: state.owner,
        title: state.title.clone(),
        description: state.description.clone(),
        token_address: state.token_address,
        funding_target: state.funding_target,
        status: state.status,
        total_raised: state.total_raised,
        num_contributors: state.num_contributors,
        is_successful: state.is_successful,
        funds_withdrawn: state.funds_withdrawn,
    }
}

} // verus!
