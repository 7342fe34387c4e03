//! The campaign factory: bookkeeping of deployed crowdfunding campaigns.
//!
//! Creating a campaign records its metadata; once the campaign contract is
//! actually deployed, the admin registers its address against the recorded
//! entry.  Read-only projections list all campaigns, the caller's campaigns,
//! and a campaign by address.

use crate::host::{Address, Context, addr_eq};
use vstd::prelude::*;
use vstd::std_specs::vec::vec_index_mut;

verus! {

/// Information about a deployed crowdfunding campaign.
#[derive(Debug)]
pub struct CampaignInfo {
    /// Address of the crowdfunding contract.
    pub address: Address,
    /// Owner of the campaign.
    pub owner: Address,
    /// Title of the campaign.
    pub title: String,
    /// Brief description of the campaign.
    pub description: String,
    /// Creation timestamp.
    pub creation_time: u64,
    /// Funding target amount.
    pub target: u32,
    /// Deadline as timestamp.
    pub deadline: u64,
}

impl Clone for CampaignInfo {
    fn clone(&self) -> (r: Self)
        ensures
            r == *self,
    {
        CampaignInfo {
            address: self.address,
            owner: self.owner,
            title: self.title.clone(),
            description: self.description.clone(),
            creation_time: self.creation_time,
            target: self.target,
            deadline: self.deadline,
        }
    }
}

/// Parameters for creating a new campaign.
#[derive(Debug)]
pub struct CreateCampaignParams {
    /// Title of the campaign.
    pub title: String,
    /// Brief description of the campaign.
    pub description: String,
    /// Category label of the campaign.
    pub category: String,
    /// Optional image link.
    pub image_url: Option<String>,
    /// Funding target amount.
    pub funding_target: u32,
    /// Deadline as timestamp.
    pub deadline: u64,
}

/// The factory's state: who administers it and which campaigns it recorded.
#[derive(Debug)]
pub struct ContractState {
    /// Admin address; may register deployed campaign addresses.
    pub admin: Address,
    /// The recorded campaigns, in creation order.
    pub campaigns: Vec<CampaignInfo>,
}

/// Why a factory action was rejected.  A rejected action leaves no state
/// change: the caller's transaction fails as a whole.
#[derive(Clone, Copy, PartialEq, Eq, Structural, Debug)]
pub enum FactoryError {
    /// The title must not be empty.
    EmptyTitle,
    /// The description must not be empty.
    EmptyDescription,
    /// The category must not be empty.
    EmptyCategory,
    /// The funding target must be positive.
    ZeroFundingTarget,
    /// The deadline must lie in the future.
    DeadlineNotFuture,
    /// Only the admin may register campaigns.
    NotAdmin,
    /// The campaign index does not exist.
    InvalidIndex,
}

/// The campaigns of `cs` owned by `owner`, in their recorded order.
pub open spec fn owned_campaigns(cs: Seq<CampaignInfo>, owner: Address) -> Seq<CampaignInfo>
    decreases cs.len(),
{
    if cs.len() == 0 {
        Seq::empty()
    } else {
        let rest = owned_campaigns(cs.drop_last(), owner);
        if addr_eq(cs.last().owner, owner) {
            rest.push(cs.last())
        } else {
            rest
        }
    }
}

/// The first campaign of `cs` recorded under `address`, if any.
pub open spec fn find_campaign(cs: Seq<CampaignInfo>, address: Address) -> Option<CampaignInfo>
    decreases cs.len(),
{
    if cs.len() == 0 {
        None
    } else if addr_eq(cs[0].address, address) {
        Some(cs[0])
    } else {
        find_campaign(cs.skip(1), address)
    }
}

/// Bootstrap the factory: the creator administers it, with no campaigns yet.
pub fn initialize(ctx: &Context) -> (r: ContractState)
    ensures
        r.admin == ctx.sender,
        r.campaigns@.len() == 0,
{
    ContractState { admin: ctx.sender, campaigns: Vec::new() }
}

/// Record a new campaign.  Rejects empty metadata, a zero target and a
/// deadline that is not in the future; otherwise appends the campaign,
/// owned by the caller, with the caller's address standing in for the
/// contract address until the admin registers the deployed one.
pub fn create_campaign(ctx: &Context, state: ContractState, params: CreateCampaignParams) -> (r:
    Result<ContractState, FactoryError>)
    requires
        ctx.block_production_time >= 0,
    ensures
        match r {
            Ok(s) => {
                &&& params.title@.len() > 0
                &&& params.description@.len() > 0
                &&& params.category@.len() > 0
                &&& params.funding_target > 0
                &&& params.deadline > ctx.block_production_time
                &&& s.admin == state.admin
                &&& s.campaigns@ =~= state.campaigns@.push(
                    CampaignInfo {
                        address: ctx.sender,
                        owner: ctx.sender,
                        title: params.title,
                        description: params.description,
                        creation_time: ctx.block_production_time as u64,
                        target: params.funding_target,
                        deadline: params.deadline,
                    },
                )
            },
            Err(e) => {
                &&& (params.title@.len() == 0 || params.description@.len() == 0
                    || params.category@.len() == 0 || params.funding_target == 0
                    || params.deadline <= ctx.block_production_time)
                &&& e == (if params.title@.len() == 0 {
                    FactoryError::EmptyTitle
                } else if params.description@.len() == 0 {
                    FactoryError::EmptyDescription
                } else if params.category@.len() == 0 {
                    FactoryError::EmptyCategory
                } else if params.funding_target == 0 {
                    FactoryError::ZeroFundingTarget
                } else {
                    FactoryError::DeadlineNotFuture
                })
            },
        },
{
    if params.title.as_str().is_empty() {
        return Err(FactoryError::EmptyTitle);
    }
    if params.description.as_str().is_empty() {
        return Err(FactoryError::EmptyDescription);
    }
    if params.category.as_str().is_empty() {
        return Err(FactoryError::EmptyCategory);
    }
    if params.funding_target == 0 {
        return Err(FactoryError::ZeroFundingTarget);
    }
    if params.deadline <= ctx.block_production_time as u64 {
        return Err(FactoryError::DeadlineNotFuture);
    }

    let info = CampaignInfo {
        address: ctx.sender,
        owner: ctx.sender,
        title: params.title,
        description: params.description,
        creation_time: ctx.block_production_time as u64,
        target: params.funding_target,
        deadline: params.deadline,
    };

    let mut next = state;
    next.campaigns.push(info);
    Ok(next)
}

/// Register a deployed campaign's address: only the admin, only for a
/// recorded index.  Everything else about the entry stays as recorded.
pub fn register_campaign(
    ctx: &Context,
    state: ContractState,
    campaign_address: Address,
    owner: Address,
    index: u32,
) -> (r: Result<ContractState, FactoryError>)
    ensures
        match r {
            Ok(s) => {
                &&& addr_eq(ctx.sender, state.admin)
                &&& index < state.campaigns@.len()
                &&& s.admin == state.admin
                &&& s.campaigns@ =~= state.campaigns@.update(
                    index as int,
                    (CampaignInfo { address: campaign_address, ..state.campaigns@[index as int] }),
                )
            },
            Err(e) => {
                &&& !(addr_eq(ctx.sender, state.admin) && index < state.campaigns@.len())
                &&& e == (if !addr_eq(ctx.sender, state.admin) {
                    FactoryError::NotAdmin
                } else {
                    FactoryError::InvalidIndex
                })
            },
        },
{
    if ctx.sender != state.admin {
        return Err(FactoryError::NotAdmin);
    }
    if !((index as usize) < state.campaigns.len()) {
        return Err(FactoryError::InvalidIndex);
    }

    let mut next = state;
    let slot = vec_index_mut(&mut next.campaigns, index as usize);
    slot.address = campaign_address;
    Ok(next)
}

/// All recorded campaigns.
pub fn get_campaigns(ctx: &Context, state: ContractState) -> (r: Vec<CampaignInfo>)
    ensures
        r@ == state.campaigns@,
{
    state.campaigns
}

/// The caller's campaigns, in their recorded order.
pub fn get_my_campaigns(ctx: &Context, state: &ContractState) -> (r: Vec<CampaignInfo>)
    ensures
        r@ == owned_campaigns(state.campaigns@, ctx.sender),
{
    let n = state.campaigns.len();
    let mut result: Vec<CampaignInfo> = Vec::new();
    let mut i: usize = 0;
    proof {
        assert(state.campaigns@.take(0) =~= Seq::<CampaignInfo>::empty());
    }
    while i < n
        invariant
            0 <= i <= n,
            n == state.campaigns@.len(),
            result@ == owned_campaigns(state.campaigns@.take(i as int), ctx.sender),
        decreases n - i,
    {
        proof {
            let next = state.campaigns@.take(i as int + 1);
            assert(next.drop_last() =~= state.campaigns@.take(i as int));
            assert(next.last() == state.campaigns@[i as int]);
        }
        if state.campaigns[i].owner == ctx.sender {
            result.push(state.campaigns[i].clone());
        }
        i = i + 1;
    }
    proof {
        assert(state.campaigns@.take(n as int) =~= state.campaigns@);
    }
    result
}

/// The first campaign recorded under `address`, if any.
pub fn get_campaign_by_address(ctx: &Context, state: &ContractState, address: Address) -> (r:
    Option<CampaignInfo>)
    ensures
        r == find_campaign(state.campaigns@, address),
{
    let n = state.campaigns.len();
    let mut i: usize = 0;
    proof {
        assert(state.campaigns@.skip(0) =~= state.campaigns@);
    }
    while i < n
        invariant
            0 <= i <= n,
            n == state.campaigns@.len(),
            find_campaign(state.campaigns@, address) == find_campaign(
                state.campaigns@.skip(i as int),
                address,
            ),
        decreases n - i,
    {
        proof {
            assert(state.campaigns@.skip(i as int)[0] == state.campaigns@[i as int]);
            assert(state.campaigns@.skip(i as int).skip(1) =~= state.campaigns@.skip(i as int + 1));
        }
        if state.campaigns[i].address == address {
            return Some(state.campaigns[i].clone());
        }
        i = i + 1;
    }
    None
}

} // verus!
