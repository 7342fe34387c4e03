//! The refund-supporting crowdfunding campaign.
//!
//! This variant keeps a map from contributor to contribution handle so that
//! a failed campaign can pay each contributor back.  It follows the simpler
//! disclosure policy: once the summing computation completes, the total is
//! always published, success is `total >= target`, and the owner may
//! withdraw only from a successful campaign; refunds are open to
//! contributors of a failed one.

use crate::events::{CampaignEvent, EventGroup};
use crate::host::{
    Address, CalculationStatus, Context, SecretVarId, SecretVarType, ZkInputDef, ZkState,
    ZkStateChange, addr_eq, count_contributions, lemma_count_le_len, opened_value,
    read_variable_u32_le, spec_lookup,
};
use crate::token_interface::{MPC20TokenInterface, transfer_payload, transfer_from_payload};
use vstd::prelude::*;
use vstd::std_specs::vec::vec_index_mut;

verus! {

/// Shortname of the hook invoked when a secret input has been committed.
pub const INPUTTED_VARIABLE_SHORTNAME: u32 = 0x41;

/// Shortname of the hook invoked when the summing computation completes.
pub const SUM_COMPUTE_COMPLETE_SHORTNAME: u32 = 0x42;

/// Shortname of the summing computation function.
pub const ZK_SUM_COMPUTE_SHORTNAME: u32 = 0x61;

/// Status of the crowdfunding campaign.
#[derive(Debug, Clone, Copy, PartialEq, Eq, Structural)]
pub enum CampaignStatus {
    /// Initial stage: awaiting token approval before contributions open.
    Setup,
    /// Accepting contributions.
    Active,
    /// The summing computation is in flight.
    Computing,
    /// Terminal; success or failure is fixed.
    Completed,
}

/// Position of a status along the campaign's one-way lifecycle.
pub open spec fn status_rank(s: CampaignStatus) -> int {
    match s {
        CampaignStatus::Setup => 0,
        CampaignStatus::Active => 1,
        CampaignStatus::Computing => 2,
        CampaignStatus::Completed => 3,
    }
}

/// The wire tag of a status, as raw status-changed events carry it.
pub open spec fn spec_status_tag(s: CampaignStatus) -> u8 {
    match s {
        CampaignStatus::Setup => 0,
        CampaignStatus::Active => 1,
        CampaignStatus::Computing => 2,
        CampaignStatus::Completed => 3,
    }
}

/// The wire tag of a status, for raw status-changed events.
pub fn status_tag(s: CampaignStatus) -> (r: u8)
    ensures
        r == spec_status_tag(s),
{
    match s {
        CampaignStatus::Setup => 0,
        CampaignStatus::Active => 1,
        CampaignStatus::Computing => 2,
        CampaignStatus::Completed => 3,
    }
}

/// First value stored under a key equal to `a`, scanning left to right.
pub open spec fn spec_assoc_get(entries: Seq<(Address, SecretVarId)>, a: Address) -> Option<
    SecretVarId,
>
    decreases entries.len(),
{
    if entries.len() == 0 {
        None
    } else if addr_eq(entries[0].0, a) {
        Some(entries[0].1)
    } else {
        spec_assoc_get(entries.skip(1), a)
    }
}

/// When nothing before index `i` matches `a` and index `i` does, the lookup
/// yields the value at `i`.
proof fn lemma_assoc_get_first_match(entries: Seq<(Address, SecretVarId)>, a: Address, i: int)
    requires
        0 <= i < entries.len(),
        forall|j: int| 0 <= j < i ==> !addr_eq(entries[j].0, a),
        addr_eq(entries[i].0, a),
    ensures
        spec_assoc_get(entries, a) == Some(entries[i].1),
    decreases i,
{
    if i > 0 {
        lemma_assoc_get_first_match(entries.skip(1), a, i - 1);
    }
}

/// When no key matches `a`, the lookup yields nothing.
proof fn lemma_assoc_get_no_match(entries: Seq<(Address, SecretVarId)>, a: Address)
    requires
        forall|j: int| 0 <= j < entries.len() ==> !addr_eq(entries[j].0, a),
    ensures
        spec_assoc_get(entries, a) is None,
    decreases entries.len(),
{
    if entries.len() > 0 {
        lemma_assoc_get_no_match(entries.skip(1), a);
    }
}

/// Overwriting an entry whose key does not match `b` (with another such key)
/// leaves the lookup of `b` unchanged.
proof fn lemma_assoc_get_update(
    entries: Seq<(Address, SecretVarId)>,
    i: int,
    x: (Address, SecretVarId),
    b: Address,
)
    requires
        0 <= i < entries.len(),
        !addr_eq(entries[i].0, b),
        !addr_eq(x.0, b),
    ensures
        spec_assoc_get(entries.update(i, x), b) == spec_assoc_get(entries, b),
    decreases i,
{
    let updated = entries.update(i, x);
    if i == 0 {
        assert(updated.skip(1) =~= entries.skip(1));
    } else {
        assert(updated.skip(1) =~= entries.skip(1).update(i - 1, x));
        lemma_assoc_get_update(entries.skip(1), i - 1, x, b);
    }
}

/// What appending an entry does to every lookup: hits before the new entry
/// win, the new entry answers for its own key, everything else stays empty.
proof fn lemma_assoc_get_push(
    entries: Seq<(Address, SecretVarId)>,
    x: (Address, SecretVarId),
    b: Address,
)
    ensures
        spec_assoc_get(entries.push(x), b) == (if spec_assoc_get(entries, b) is Some {
            spec_assoc_get(entries, b)
        } else if addr_eq(x.0, b) {
            Some(x.1)
        } else {
            None
        }),
    decreases entries.len(),
{
    if entries.len() == 0 {
        assert(entries.push(x)[0] == x);
        assert(entries.push(x).skip(1) =~= Seq::<(Address, SecretVarId)>::empty());
        assert(spec_assoc_get(Seq::<(Address, SecretVarId)>::empty(), b) is None);
        assert(spec_assoc_get(entries, b) is None);
    } else {
        assert(entries.push(x)[0] == entries[0]);
        assert(entries.push(x).skip(1) =~= entries.skip(1).push(x));
        lemma_assoc_get_push(entries.skip(1), x, b);
    }
}

/// Map from contributor address to the handle of their contribution
/// variable, so a failed campaign can refund each contributor.
#[derive(Debug)]
pub struct ContributorMap {
    /// The entries; a lookup takes the first matching key.
    pub entries: Vec<(Address, SecretVarId)>,
}

impl ContributorMap {
    /// What the map associates with address `a`.
    pub open spec fn get_spec(&self, a: Address) -> Option<SecretVarId> {
        spec_assoc_get(self.entries@, a)
    }

    /// Whether address `a` has an entry.
    pub open spec fn contains_spec(&self, a: Address) -> bool {
        self.get_spec(a) is Some
    }

    /// The empty map.
    pub fn new() -> (r: Self)
        ensures
            r.entries@.len() == 0,
            forall|b: Address| !r.contains_spec(b),
    {
        let r = ContributorMap { entries: Vec::new() };
        proof {
            assert forall|b: Address| !r.contains_spec(b) by {
                lemma_assoc_get_no_match(r.entries@, b);
            }
        }
        r
    }

    /// Whether address `a` has an entry.
    pub fn contains_key(&self, a: &Address) -> (r: bool)
        ensures
            r == self.contains_spec(*a),
    {
        self.get(a).is_some()
    }

    /// Look the entry of address `a` up.
    pub fn get(&self, a: &Address) -> (r: Option<SecretVarId>)
        ensures
            r == self.get_spec(*a),
    {
        let n = self.entries.len();
        let mut i: usize = 0;
        while i < n
            invariant
                0 <= i <= n,
                n == self.entries@.len(),
                forall|j: int| 0 <= j < i ==> !addr_eq(self.entries@[j].0, *a),
            decreases n - i,
        {
            if self.entries[i].0 == *a {
                proof {
                    lemma_assoc_get_first_match(self.entries@, *a, i as int);
                }
                return Some(self.entries[i].1);
            }
            i = i + 1;
        }
        proof {
            lemma_assoc_get_no_match(self.entries@, *a);
        }
        None
    }

    /// Associate address `a` with `id`, replacing any earlier entry.
    pub fn insert(&mut self, a: Address, id: SecretVarId)
        ensures
            final(self).get_spec(a) == Some(id),
            forall|b: Address|
                !addr_eq(b, a) ==> final(self).get_spec(b) == old(self).get_spec(b),
    {
        let n = self.entries.len();
        let mut i: usize = 0;
        while i < n
            invariant
                0 <= i <= n,
                n == self.entries@.len(),
                *self == *old(self),
                forall|j: int| 0 <= j < i ==> !addr_eq(self.entries@[j].0, a),
            decreases n - i,
        {
            if self.entries[i].0 == a {
                let ghost pre = self.entries@;
                let ghost idx = i as int;
                let slot = vec_index_mut(&mut self.entries, i);
                *slot = (a, id);
                proof {
                    assert(self.entries@ =~= pre.update(idx, (a, id)));
                    lemma_assoc_get_first_match(self.entries@, a, idx);
                    assert forall|b: Address|
                        !addr_eq(b, a) implies self.get_spec(b) == spec_assoc_get(pre, b) by {
                        lemma_assoc_get_update(pre, idx, (a, id), b);
                    }
                }
                return ;
            }
            i = i + 1;
        }
        let ghost pre = self.entries@;
        self.entries.push((a, id));
        proof {
            lemma_assoc_get_no_match(pre, a);
            lemma_assoc_get_push(pre, (a, id), a);
            assert forall|b: Address|
                !addr_eq(b, a) implies self.get_spec(b) == spec_assoc_get(pre, b) by {
                lemma_assoc_get_push(pre, (a, id), b);
            }
        }
    }
}

/// The campaign's public contract state.
#[derive(Debug)]
pub struct ContractState {
    /// May start and end the campaign and withdraw; fixed at creation.
    pub owner: Address,
    /// Immutable campaign title.
    pub title: String,
    /// Immutable campaign description.
    pub description: String,
    /// The token ledger used for all transfers; fixed at creation.
    pub token_address: Address,
    /// The funding target in ledger units; fixed, always positive.
    pub funding_target: u128,
    /// Deadline timestamp in milliseconds.
    pub deadline: u64,
    /// Where the campaign stands in its lifecycle.
    pub status: CampaignStatus,
    /// The total raised, published once the computation completes.
    pub total_raised: Option<u128>,
    /// Number of contribution commitments, fixed at completion.
    pub num_contributors: Option<u32>,
    /// Whether the funding target was met; meaningful once completed.
    pub is_successful: bool,
    /// Contributor address to contribution handle, for refunds.
    pub contributor_var_ids: ContributorMap,
}

impl ContractState {
    /// Structural validity: the target is positive, the deadline fits the
    /// host's signed clock, and a successful campaign has its total on
    /// record (so a withdrawal can always read it).
    pub open spec fn wf(&self) -> bool {
        &&& self.funding_target > 0
        &&& self.deadline <= i64::MAX
        &&& (self.is_successful ==> self.total_raised is Some)
    }
}

/// Why a campaign action was rejected.  A rejected action leaves no state
/// change: the caller's transaction fails as a whole.
#[derive(Clone, Copy, PartialEq, Eq, Structural, Debug)]
pub enum CampaignError {
    /// The title must not be empty.
    EmptyTitle,
    /// The description must not be empty.
    EmptyDescription,
    /// The funding target must be positive.
    ZeroFundingTarget,
    /// The deadline must lie in the future.
    DeadlineNotFuture,
    /// Only the owner may do this.
    NotOwner,
    /// The action needs a campaign in the setup stage.
    NotSetup,
    /// The action needs an active campaign.
    NotActive,
    /// The campaign deadline has passed.
    DeadlinePassed,
    /// Each address may contribute only once.
    AlreadyContributed,
    /// Before the deadline, only the owner may end the campaign.
    OnlyOwnerBeforeDeadline,
    /// The computation engine is not idle.
    ComputationBusy,
    /// At least one contribution is needed before computing.
    NoContributors,
    /// The declassification returned an unexpected number of variables.
    UnexpectedOpenedCount,
    /// The action needs a completed campaign.
    NotCompleted,
    /// Funds can be withdrawn only from a successful campaign.
    NotSuccessful,
    /// Refunds exist only for a failed campaign.
    CampaignSucceeded,
    /// No contribution is recorded for this address.
    NoContribution,
}

/// A status-changed raw event for the current block, wrapped alone in an
/// event group.
fn status_changed_group(ctx: &Context, new_status: CampaignStatus) -> (r: EventGroup)
    requires
        ctx.block_production_time >= 0,
    ensures
        r.interactions@.len() == 0,
        r.callback is None,
        r.raw_events@ =~= seq![
            CampaignEvent::StatusChanged {
                campaign_address: ctx.contract_address,
                new_status_tag: spec_status_tag(new_status),
                timestamp: ctx.block_production_time as u64,
            },
        ],
{
    let mut raw_events: Vec<CampaignEvent> = Vec::new();
    raw_events.push(
        CampaignEvent::StatusChanged {
            campaign_address: ctx.contract_address,
            new_status_tag: status_tag(new_status),
            timestamp: ctx.block_production_time as u64,
        },
    );
    EventGroup { interactions: Vec::new(), callback: None, raw_events }
}

/// Initialize the campaign.  Rejects an empty title or description, a zero
/// funding target and a deadline that is not in the future; otherwise
/// produces the initial state, in the setup stage, with an empty contributor
/// map.
pub fn initialize(
    ctx: &Context,
    title: String,
    description: String,
    token_address: Address,
    funding_target: u128,
    deadline: u64,
) -> (r: Result<ContractState, CampaignError>)
    requires
        ctx.block_production_time >= 0,
        deadline <= i64::MAX,
    ensures
        match r {
            Ok(s) => {
                &&& title@.len() > 0
                &&& description@.len() > 0
                &&& funding_target > 0
                &&& deadline > ctx.block_production_time
                &&& s == (ContractState {
                    owner: ctx.sender,
                    title: title,
                    description: description,
                    token_address: token_address,
                    funding_target: funding_target,
                    deadline: deadline,
                    status: CampaignStatus::Setup,
                    total_raised: None,
                    num_contributors: None,
                    is_successful: false,
                    contributor_var_ids: s.contributor_var_ids,
                })
                &&& s.contributor_var_ids.entries@.len() == 0
                &&& s.wf()
            },
            Err(e) => {
                &&& (title@.len() == 0 || description@.len() == 0 || funding_target == 0
                    || deadline <= ctx.block_production_time)
                &&& e == (if title@.len() == 0 {
                    CampaignError::EmptyTitle
                } else if description@.len() == 0 {
                    CampaignError::EmptyDescription
                } else if funding_target == 0 {
                    CampaignError::ZeroFundingTarget
                } else {
                    CampaignError::DeadlineNotFuture
                })
            },
        },
{
    if title.as_str().is_empty() {
        return Err(CampaignError::EmptyTitle);
    }
    if description.as_str().is_empty() {
        return Err(CampaignError::EmptyDescription);
    }
    if funding_target == 0 {
        return Err(CampaignError::ZeroFundingTarget);
    }
    if deadline <= ctx.block_production_time as u64 {
        return Err(CampaignError::DeadlineNotFuture);
    }
    Ok(
        ContractState {
            owner: ctx.sender,
            title,
            description,
            token_address,
            funding_target,
            deadline,
            status: CampaignStatus::Setup,
            total_raised: None,
            num_contributors: None,
            is_successful: false,
            contributor_var_ids: ContributorMap::new(),
        },
    )
}

/// Start the campaign: only the owner, only from the setup stage.  Moves the
/// campaign to the active stage and announces the change.
pub fn start_campaign(ctx: &Context, state: ContractState) -> (r: Result<
    (ContractState, Vec<EventGroup>),
    CampaignError,
>)
    requires
        ctx.block_production_time >= 0,
    ensures
        match r {
            Ok((s, events)) => {
                &&& addr_eq(ctx.sender, state.owner)
                &&& state.status is Setup
                &&& s == (ContractState { status: CampaignStatus::Active, ..state })
                &&& events@.len() == 1
                &&& events@[0].raw_events@ =~= seq![
                    CampaignEvent::StatusChanged {
                        campaign_address: ctx.contract_address,
                        new_status_tag: spec_status_tag(CampaignStatus::Active),
                        timestamp: ctx.block_production_time as u64,
                    },
                ]
                &&& events@[0].interactions@.len() == 0
                &&& status_rank(s.status) >= status_rank(state.status)
            },
            Err(e) => {
                &&& !(addr_eq(ctx.sender, state.owner) && state.status is Setup)
                &&& e == (if !addr_eq(ctx.sender, state.owner) {
                    CampaignError::NotOwner
                } else {
                    CampaignError::NotSetup
                })
            },
        },
{
    if ctx.sender != state.owner {
        return Err(CampaignError::NotOwner);
    }
    if state.status != CampaignStatus::Setup {
        return Err(CampaignError::NotSetup);
    }

    let mut next = state;
    next.status = CampaignStatus::Active;

    let group = status_changed_group(ctx, CampaignStatus::Active);
    let mut events: Vec<EventGroup> = Vec::new();
    events.push(group);
    Ok((next, events))
}

/// Register a contribution as a pending secret input.  Allowed only while
/// the campaign is active and before the deadline, and only once per
/// address, to preserve privacy.  The token transfer follows in the
/// inputted-variable hook, once the secret value is committed on chain.
pub fn add_contribution(ctx: &Context, state: &ContractState) -> (r: Result<
    (ZkInputDef, Vec<EventGroup>),
    CampaignError,
>)
    requires
        ctx.block_production_time >= 0,
        state.deadline <= i64::MAX,
    ensures
        match r {
            Ok((d, events)) => {
                &&& state.status is Active
                &&& ctx.block_production_time <= state.deadline
                &&& !state.contributor_var_ids.contains_spec(ctx.sender)
                &&& d.on_inputted == Some(INPUTTED_VARIABLE_SHORTNAME)
                &&& d.metadata == (SecretVarType::Contribution {
                    owner: ctx.sender,
                    timestamp: ctx.block_production_time,
                })
                &&& events@.len() == 1
                &&& events@[0].raw_events@ =~= seq![
                    CampaignEvent::ContributionReceived {
                        contributor: ctx.sender,
                        timestamp: ctx.block_production_time as u64,
                    },
                ]
                &&& events@[0].interactions@.len() == 0
            },
            Err(e) => {
                &&& !(state.status is Active && ctx.block_production_time <= state.deadline
                    && !state.contributor_var_ids.contains_spec(ctx.sender))
                &&& e == (if !(state.status is Active) {
                    CampaignError::NotActive
                } else if ctx.block_production_time > state.deadline {
                    CampaignError::DeadlinePassed
                } else {
                    CampaignError::AlreadyContributed
                })
            },
        },
{
    if state.status != CampaignStatus::Active {
        return Err(CampaignError::NotActive);
    }
    if ctx.block_production_time as u64 > state.deadline {
        return Err(CampaignError::DeadlinePassed);
    }
    if state.contributor_var_ids.contains_key(&ctx.sender) {
        return Err(CampaignError::AlreadyContributed);
    }

    let input_def = ZkInputDef {
        on_inputted: Some(INPUTTED_VARIABLE_SHORTNAME),
        metadata: SecretVarType::Contribution {
            owner: ctx.sender,
            timestamp: ctx.block_production_time,
        },
    };

    let mut raw_events: Vec<CampaignEvent> = Vec::new();
    raw_events.push(
        CampaignEvent::ContributionReceived {
            contributor: ctx.sender,
            timestamp: ctx.block_production_time as u64,
        },
    );
    let mut events: Vec<EventGroup> = Vec::new();
    events.push(EventGroup { interactions: Vec::new(), callback: None, raw_events });

    Ok((input_def, events))
}

/// Hook invoked when a secret input has been committed on chain.  For a
/// contribution, records the contributor's variable handle for later refunds
/// and issues the token transfer from the contributor to the contract for
/// the committed amount (when it is positive).  Other variables pass
/// through unchanged.
pub fn inputted_variable(ctx: &Context, state: ContractState, zk: &ZkState, inputted: SecretVarId)
    -> (r: (ContractState, Vec<EventGroup>))
    requires
        spec_lookup(zk.secret_variables@, inputted) is Some,
    ensures
        ({
            let v = spec_lookup(zk.secret_variables@, inputted)->Some_0;
            let amount = opened_value(v.data) as u128;
            if v.metadata is Contribution {
                &&& r.0.contributor_var_ids.get_spec(v.owner) == Some(inputted)
                &&& forall|b: Address|
                    !addr_eq(b, v.owner) ==> r.0.contributor_var_ids.get_spec(b)
                        == state.contributor_var_ids.get_spec(b)
                &&& r.0 == (ContractState {
                    contributor_var_ids: r.0.contributor_var_ids,
                    ..state
                })
                &&& if amount > 0 {
                    &&& r.1@.len() == 1
                    &&& r.1@[0].interactions@.len() == 1
                    &&& r.1@[0].interactions@[0].dest == state.token_address
                    &&& r.1@[0].interactions@[0].payload@ == transfer_from_payload(
                        v.owner,
                        ctx.contract_address,
                        amount,
                    )
                    &&& r.1@[0].callback is None
                } else {
                    r.1@.len() == 0
                }
            } else {
                r.0 == state && r.1@.len() == 0
            }
        }),
{
    let variable = match zk.get_variable(inputted) {
        Some(v) => v,
        None => {
            proof {
                assert(false);
            }
            return (state, Vec::new());
        },
    };

    let is_contribution_var = match &variable.metadata {
        SecretVarType::Contribution { .. } => true,
        _ => false,
    };
    if !is_contribution_var {
        return (state, Vec::new());
    }

    let amount = read_variable_u32_le(variable) as u128;

    let mut next = state;
    next.contributor_var_ids.insert(variable.owner, inputted);

    let mut events: Vec<EventGroup> = Vec::new();
    if amount > 0 {
        let interface = MPC20TokenInterface::new(next.token_address);
        let group = interface.transfer_from(variable.owner, ctx.contract_address, amount);
        events.push(group);
    }
    (next, events)
}

/// End the campaign and start the summing computation.  The owner may end it
/// at any time, anyone else only after the deadline; the campaign must be
/// active, the engine idle, and at least one contribution committed.
pub fn end_campaign(ctx: &Context, state: ContractState, zk: &ZkState) -> (r: Result<
    (ContractState, Vec<EventGroup>, Vec<ZkStateChange>),
    CampaignError,
>)
    requires
        ctx.block_production_time >= 0,
        state.deadline <= i64::MAX,
        zk.secret_variables@.len() <= u32::MAX,
    ensures
        match r {
            Ok((s, events, changes)) => {
                &&& (addr_eq(ctx.sender, state.owner) || ctx.block_production_time
                    > state.deadline)
                &&& state.status is Active
                &&& zk.calculation_state is Waiting
                &&& count_contributions(zk.secret_variables@) > 0
                &&& s == (ContractState {
                    status: CampaignStatus::Computing,
                    num_contributors: Some(count_contributions(zk.secret_variables@) as u32),
                    ..state
                })
                &&& status_rank(s.status) >= status_rank(state.status)
                &&& events@.len() == 1
                &&& events@[0].raw_events@ =~= seq![
                    CampaignEvent::StatusChanged {
                        campaign_address: ctx.contract_address,
                        new_status_tag: spec_status_tag(CampaignStatus::Computing),
                        timestamp: ctx.block_production_time as u64,
                    },
                ]
                &&& changes@.len() == 1
                &&& changes@[0] matches ZkStateChange::StartComputation {
                    function_shortname,
                    output_metadata,
                    public_inputs,
                    on_complete,
                } && function_shortname == ZK_SUM_COMPUTE_SHORTNAME && output_metadata@ =~= seq![
                    SecretVarType::SumResult,
                ] && public_inputs@.len() == 0 && on_complete == Some(
                    SUM_COMPUTE_COMPLETE_SHORTNAME,
                )
            },
            Err(e) => {
                &&& !((addr_eq(ctx.sender, state.owner) || ctx.block_production_time
                    > state.deadline) && state.status is Active && zk.calculation_state
                    is Waiting && count_contributions(zk.secret_variables@) > 0)
                &&& e == (if !addr_eq(ctx.sender, state.owner) && ctx.block_production_time
                    <= state.deadline {
                    CampaignError::OnlyOwnerBeforeDeadline
                } else if !(state.status is Active) {
                    CampaignError::NotActive
                } else if !(zk.calculation_state is Waiting) {
                    CampaignError::ComputationBusy
                } else {
                    CampaignError::NoContributors
                })
            },
        },
{
    if ctx.sender != state.owner {
        if ctx.block_production_time as u64 <= state.deadline {
            return Err(CampaignError::OnlyOwnerBeforeDeadline);
        }
    }
    if state.status != CampaignStatus::Active {
        return Err(CampaignError::NotActive);
    }
    if zk.calculation_state != CalculationStatus::Waiting {
        return Err(CampaignError::ComputationBusy);
    }

    let num_contributors = zk.count_commitments();
    proof {
        lemma_count_le_len(zk.secret_variables@);
    }
    if num_contributors == 0 {
        return Err(CampaignError::NoContributors);
    }

    let mut next = state;
    next.status = CampaignStatus::Computing;
    next.num_contributors = Some(num_contributors as u32);

    let group = status_changed_group(ctx, CampaignStatus::Computing);
    let mut events: Vec<EventGroup> = Vec::new();
    events.push(group);

    let mut output_metadata: Vec<SecretVarType> = Vec::new();
    output_metadata.push(SecretVarType::SumResult);

    let mut changes: Vec<ZkStateChange> = Vec::new();
    changes.push(
        ZkStateChange::StartComputation {
            function_shortname: ZK_SUM_COMPUTE_SHORTNAME,
            output_metadata,
            public_inputs: Vec::new(),
            on_complete: Some(SUM_COMPUTE_COMPLETE_SHORTNAME),
        },
    );

    Ok((next, events, changes))
}

/// Hook invoked when the summing computation completes: request
/// declassification of every output variable.
pub fn sum_compute_complete(state: ContractState, output_variables: Vec<SecretVarId>) -> (r: (
    ContractState,
    Vec<ZkStateChange>,
))
    ensures
        r.0 == state,
        r.1@.len() == 1,
        r.1@[0] matches ZkStateChange::OpenVariables { variables } && variables@
            == output_variables@,
{
    let mut changes: Vec<ZkStateChange> = Vec::new();
    changes.push(ZkStateChange::OpenVariables { variables: output_variables });
    (state, changes)
}

/// Hook invoked when the sum result is declassified.  Publishes the total,
/// fixes success as `total >= funding_target`, records the contributor
/// count, completes the campaign, announces completion, and concludes the
/// contract's zero-knowledge lifecycle.  A declassification round that does
/// not carry exactly one variable is rejected; a non-sum variable passes
/// through unchanged.
pub fn open_sum_variable(
    ctx: &Context,
    state: ContractState,
    zk: &ZkState,
    opened_variables: &Vec<SecretVarId>,
) -> (r: Result<(ContractState, Vec<EventGroup>, Vec<ZkStateChange>), CampaignError>)
    requires
        ctx.block_production_time >= 0,
        zk.secret_variables@.len() <= u32::MAX,
        opened_variables@.len() == 1 ==> spec_lookup(zk.secret_variables@, opened_variables@[0])
            is Some,
    ensures
        match r {
            Ok((s, events, changes)) => {
                &&& opened_variables@.len() == 1
                &&& ({
                    let v = spec_lookup(zk.secret_variables@, opened_variables@[0])->Some_0;
                    let total = opened_value(v.data) as u128;
                    if v.metadata is SumResult {
                        &&& s == (ContractState {
                            status: CampaignStatus::Completed,
                            total_raised: Some(total),
                            num_contributors: Some(
                                count_contributions(zk.secret_variables@) as u32,
                            ),
                            is_successful: total >= state.funding_target,
                            ..state
                        })
                        &&& s.is_successful == (total >= state.funding_target)
                        &&& status_rank(s.status) >= status_rank(state.status)
                        &&& events@.len() == 1
                        &&& events@[0].interactions@.len() == 0
                        &&& events@[0].raw_events@ =~= seq![
                            CampaignEvent::StatusChanged {
                                campaign_address: ctx.contract_address,
                                new_status_tag: spec_status_tag(CampaignStatus::Completed),
                                timestamp: ctx.block_production_time as u64,
                            },
                            CampaignEvent::CampaignCompleted {
                                campaign_address: ctx.contract_address,
                                is_successful: total >= state.funding_target,
                                total_contributors: count_contributions(
                                    zk.secret_variables@,
                                ) as u32,
                                total_raised: Some(total),
                                timestamp: ctx.block_production_time as u64,
                            },
                        ]
                        &&& changes@.len() == 1
                        &&& changes@[0] is ContractDone
                    } else {
                        &&& s == state
                        &&& events@.len() == 0
                        &&& changes@.len() == 0
                    }
                })
            },
            Err(e) => {
                &&& opened_variables@.len() != 1
                &&& e == CampaignError::UnexpectedOpenedCount
            },
        },
{
    if opened_variables.len() != 1 {
        return Err(CampaignError::UnexpectedOpenedCount);
    }

    let opened_variable = match zk.get_variable(opened_variables[0]) {
        Some(v) => v,
        None => {
            proof {
                assert(false);
            }
            return Err(CampaignError::UnexpectedOpenedCount);
        },
    };

    let is_sum_result = match &opened_variable.metadata {
        SecretVarType::SumResult => true,
        _ => false,
    };
    if !is_sum_result {
        return Ok((state, Vec::new(), Vec::new()));
    }

    let total_raised = read_variable_u32_le(opened_variable) as u128;
    let num_contributors = zk.count_commitments();
    proof {
        lemma_count_le_len(zk.secret_variables@);
    }

    let is_successful = total_raised >= state.funding_target;

    let mut next = state;
    next.total_raised = Some(total_raised);
    next.num_contributors = Some(num_contributors as u32);
    next.is_successful = is_successful;
    next.status = CampaignStatus::Completed;

    let mut raw_events: Vec<CampaignEvent> = Vec::new();
    raw_events.push(
        CampaignEvent::StatusChanged {
            campaign_address: ctx.contract_address,
            new_status_tag: status_tag(CampaignStatus::Completed),
            timestamp: ctx.block_production_time as u64,
        },
    );
    raw_events.push(
        CampaignEvent::CampaignCompleted {
            campaign_address: ctx.contract_address,
            is_successful,
            total_contributors: num_contributors as u32,
            total_raised: Some(total_raised),
            timestamp: ctx.block_production_time as u64,
        },
    );
    let mut events: Vec<EventGroup> = Vec::new();
    events.push(EventGroup { interactions: Vec::new(), callback: None, raw_events });

    let mut changes: Vec<ZkStateChange> = Vec::new();
    changes.push(ZkStateChange::ContractDone);

    Ok((next, events, changes))
}

/// Withdraw the raised funds: only the owner, only from a completed and
/// successful campaign.  Transfers the whole recorded total to the owner and
/// announces the withdrawal; the state itself does not change.
pub fn withdraw_funds(ctx: &Context, state: &ContractState) -> (r: Result<
    Vec<EventGroup>,
    CampaignError,
>)
    requires
        ctx.block_production_time >= 0,
        state.wf(),
    ensures
        match r {
            Ok(events) => {
                &&& state.status is Completed
                &&& addr_eq(ctx.sender, state.owner)
                &&& state.is_successful
                &&& ({
                    let amount = state.total_raised->Some_0;
                    &&& events@.len() == 2
                    &&& events@[0].interactions@.len() == 0
                    &&& events@[0].raw_events@ =~= seq![
                        CampaignEvent::FundsWithdrawn {
                            campaign_address: ctx.contract_address,
                            owner: state.owner,
                            amount: amount,
                            timestamp: ctx.block_production_time as u64,
                        },
                    ]
                    &&& events@[1].interactions@.len() == 1
                    &&& events@[1].interactions@[0].dest == state.token_address
                    &&& events@[1].interactions@[0].payload@ == transfer_payload(
                        state.owner,
                        amount,
                    )
                })
            },
            Err(e) => {
                &&& !(state.status is Completed && addr_eq(ctx.sender, state.owner)
                    && state.is_successful)
                &&& e == (if !(state.status is Completed) {
                    CampaignError::NotCompleted
                } else if !addr_eq(ctx.sender, state.owner) {
                    CampaignError::NotOwner
                } else {
                    CampaignError::NotSuccessful
                })
            },
        },
{
    if state.status != CampaignStatus::Completed {
        return Err(CampaignError::NotCompleted);
    }
    if ctx.sender != state.owner {
        return Err(CampaignError::NotOwner);
    }
    if !state.is_successful {
        return Err(CampaignError::NotSuccessful);
    }

    let amount = match state.total_raised {
        Some(a) => a,
        None => {
            proof {
                assert(false);
            }
            0
        },
    };

    let mut raw_events: Vec<CampaignEvent> = Vec::new();
    raw_events.push(
        CampaignEvent::FundsWithdrawn {
            campaign_address: ctx.contract_address,
            owner: state.owner,
            amount,
            timestamp: ctx.block_production_time as u64,
        },
    );

    let interface = MPC20TokenInterface::new(state.token_address);
    let transfer_events = interface.transfer(state.owner, amount);

    let mut events: Vec<EventGroup> = Vec::new();
    events.push(EventGroup { interactions: Vec::new(), callback: None, raw_events });
    events.push(transfer_events);
    Ok(events)
}

/// Claim a refund: only from a completed, failed campaign, and only for an
/// address with a recorded contribution.  Transfers the contributor's
/// committed amount back and announces the refund; the state itself does not
/// change.
pub fn claim_refund(ctx: &Context, state: &ContractState, zk: &ZkState) -> (r: Result<
    Vec<EventGroup>,
    CampaignError,
>)
    requires
        ctx.block_production_time >= 0,
        state.contributor_var_ids.get_spec(ctx.sender) matches Some(id) ==> spec_lookup(
            zk.secret_variables@,
            id,
        ) is Some,
    ensures
        match r {
            Ok(events) => {
                &&& state.status is Completed
                &&& !state.is_successful
                &&& state.contributor_var_ids.contains_spec(ctx.sender)
                &&& ({
                    let id = state.contributor_var_ids.get_spec(ctx.sender)->Some_0;
                    let v = spec_lookup(zk.secret_variables@, id)->Some_0;
                    let amount = opened_value(v.data) as u128;
                    &&& events@.len() == 2
                    &&& events@[0].interactions@.len() == 0
                    &&& events@[0].raw_events@ =~= seq![
                        CampaignEvent::RefundProcessed {
                            campaign_address: ctx.contract_address,
                            contributor: ctx.sender,
                            timestamp: ctx.block_production_time as u64,
                        },
                    ]
                    &&& events@[1].interactions@.len() == 1
                    &&& events@[1].interactions@[0].dest == state.token_address
                    &&& events@[1].interactions@[0].payload@ == transfer_payload(
                        ctx.sender,
                        amount,
                    )
                })
            },
            Err(e) => {
                &&& !(state.status is Completed && !state.is_successful
                    && state.contributor_var_ids.contains_spec(ctx.sender))
                &&& e == (if !(state.status is Completed) {
                    CampaignError::NotCompleted
                } else if state.is_successful {
                    CampaignError::CampaignSucceeded
                } else {
                    CampaignError::NoContribution
                })
            },
        },
{
    if state.status != CampaignStatus::Completed {
        return Err(CampaignError::NotCompleted);
    }
    if state.is_successful {
        return Err(CampaignError::CampaignSucceeded);
    }

    let var_id = match state.contributor_var_ids.get(&ctx.sender) {
        Some(id) => id,
        None => {
            return Err(CampaignError::NoContribution);
        },
    };

    let variable = match zk.get_variable(var_id) {
        Some(v) => v,
        None => {
            proof {
                assert(false);
            }
            return Err(CampaignError::NoContribution);
        },
    };
    let contribution_amount = read_variable_u32_le(variable) as u128;

    let mut raw_events: Vec<CampaignEvent> = Vec::new();
    raw_events.push(
        CampaignEvent::RefundProcessed {
            campaign_address: ctx.contract_address,
            contributor: ctx.sender,
            timestamp: ctx.block_production_time as u64,
        },
    );

    let interface = MPC20TokenInterface::new(state.token_address);
    let transfer_events = interface.transfer(ctx.sender, contribution_amount);

    let mut events: Vec<EventGroup> = Vec::new();
    events.push(EventGroup { interactions: Vec::new(), callback: None, raw_events });
    events.push(transfer_events);
    Ok(events)
}

/// Verify that the caller contributed to this campaign, without revealing
/// the amount: succeeds exactly when the campaign has completed and the
/// caller has a recorded contribution.
pub fn verify_my_contribution(ctx: &Context, state: &ContractState) -> (r: Result<
    (),
    CampaignError,
>)
    ensures
        match r {
            Ok(()) => state.status is Completed && state.contributor_var_ids.contains_spec(
                ctx.sender,
            ),
            Err(e) => {
                &&& !(state.status is Completed && state.contributor_var_ids.contains_spec(
                    ctx.sender,
                ))
                &&& e == (if !(state.status is Completed) {
                    CampaignError::NotCompleted
                } else {
                    CampaignError::NoContribution
                })
            },
        },
{
    if state.status != CampaignStatus::Completed {
        return Err(CampaignError::NotCompleted);
    }
    if !state.contributor_var_ids.contains_key(&ctx.sender) {
        return Err(CampaignError::NoContribution);
    }
    Ok(())
}

} // verus!
