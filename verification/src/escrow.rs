//! A conditional token escrow.
//!
//! The sender deposits tokens; a designated approver signals fulfilment of
//! the off-chain condition before the deadline; after approval the receiver
//! may claim the balance, and after a missed deadline the sender may take it
//! back.  All token movement goes through the MPC-20 binary interface, and a
//! deposit is only booked once its transfer callback reports success.

use crate::events::{Callback, EventGroup};
use crate::host::{Address, CallbackContext, Context, PUBLIC_CONTRACT_ADDRESS, addr_eq};
use crate::token_interface::{
    MPC20TokenInterface, transfer_from_payload, transfer_payload,
};
use vstd::bytes::{spec_u128_to_le_bytes, u128_to_le_bytes};
use vstd::prelude::*;

verus! {

/// Initial state after contract creation.
pub const STATE_CREATED: u8 = 0;

/// State after tokens have been transferred to the contract; the contract
/// now awaits approval from the approver.
pub const STATE_AWAITING_APPROVAL: u8 = 1;

/// State after the approver has signalled fulfilment of the condition.
pub const STATE_APPROVED: u8 = 2;

/// Shortname of the deposit callback.
pub const DEPOSIT_CALLBACK_SHORTNAME: u32 = 0x02;

/// The escrow contract state.
#[derive(Debug)]
pub struct ContractState {
    /// The sender of the tokens.
    pub sender: Address,
    /// The receiver of the tokens following approval of the condition.
    pub receiver: Address,
    /// The approver that can signal fulfilment of the condition.
    pub approver: Address,
    /// The address of the token used in the contract.
    pub token_type: Address,
    /// The amount of tokens currently in the contract.
    pub balance: u128,
    /// The start time of the contract in milliseconds.
    pub start_time_millis: i64,
    /// The deadline of the contract in milliseconds.
    pub end_time_millis: i64,
    /// The current status of the contract.
    pub status: u8,
}

/// Why an escrow action was rejected.  A rejected action leaves no state
/// change: the caller's transaction fails as a whole.
#[derive(Clone, Copy, PartialEq, Eq, Structural, Debug)]
pub enum EscrowError {
    /// The token must be a public contract address.
    TokenNotPublicContract,
    /// Only the token sender may deposit.
    NotSender,
    /// No deposit may follow an approved condition.
    AlreadyApproved,
    /// The deadline has passed.
    DeadlinePassed,
    /// The token ledger reported a failed transfer.
    TransferFailed,
    /// Only the designated approver may approve.
    NotApprover,
    /// Approval must come while awaiting approval.
    NotAwaitingApproval,
    /// Only the sender and the receiver may claim.
    NotParticipant,
    /// Nothing has been deposited yet.
    NothingDeposited,
    /// The balance is zero.
    ZeroBalance,
    /// The receiver cannot claim before the condition is fulfilled.
    ConditionNotFulfilled,
    /// The sender cannot claim once the condition is fulfilled.
    ConditionFulfilled,
    /// The sender cannot claim before the deadline has passed.
    DeadlineNotReached,
}

/// Bootstrap the escrow.  The token must be a public contract; the deadline
/// lies the given number of hours after the current block time.
pub fn initialize(
    ctx: &Context,
    sender: Address,
    receiver: Address,
    approver: Address,
    token_type: Address,
    hours_until_deadline: u32,
) -> (r: Result<ContractState, EscrowError>)
    requires
        ctx.block_production_time + hours_until_deadline * 3_600_000 <= i64::MAX,
    ensures
        match r {
            Ok(s) => {
                &&& token_type.address_type == PUBLIC_CONTRACT_ADDRESS
                &&& s == (ContractState {
                    sender: sender,
                    receiver: receiver,
                    approver: approver,
                    token_type: token_type,
                    balance: 0u128,
                    start_time_millis: ctx.block_production_time,
                    end_time_millis: (ctx.block_production_time + hours_until_deadline
                        * 3_600_000) as i64,
                    status: STATE_CREATED,
                })
            },
            Err(e) => {
                &&& token_type.address_type != PUBLIC_CONTRACT_ADDRESS
                &&& e == EscrowError::TokenNotPublicContract
            },
        },
{
    if token_type.address_type != PUBLIC_CONTRACT_ADDRESS {
        return Err(EscrowError::TokenNotPublicContract);
    }
    let millis_until_deadline = (hours_until_deadline as i64) * 60 * 60 * 1000;
    let end_time_millis = ctx.block_production_time + millis_until_deadline;
    Ok(
        ContractState {
            sender,
            receiver,
            approver,
            token_type,
            balance: 0,
            start_time_millis: ctx.block_production_time,
            end_time_millis,
            status: STATE_CREATED,
        },
    )
}

/// Deposit tokens into the escrow.  Only the sender, never after approval or
/// past the deadline.  Issues a `transfer_from(sender -> contract)` call on
/// the token ledger, chained to the deposit callback carrying the amount;
/// the state itself changes only once that callback confirms the transfer.
pub fn deposit(ctx: &Context, state: &ContractState, amount: u128) -> (r: Result<
    EventGroup,
    EscrowError,
>)
    ensures
        match r {
            Ok(g) => {
                &&& addr_eq(ctx.sender, state.sender)
                &&& state.status != STATE_APPROVED
                &&& ctx.block_production_time <= state.end_time_millis
                &&& g.interactions@.len() == 1
                &&& g.interactions@[0].dest == state.token_type
                &&& g.interactions@[0].payload@ == transfer_from_payload(
                    ctx.sender,
                    ctx.contract_address,
                    amount,
                )
                &&& g.callback matches Some(cb) && cb.shortname == DEPOSIT_CALLBACK_SHORTNAME
                    && cb.payload@ == spec_u128_to_le_bytes(amount)
                &&& g.raw_events@.len() == 0
            },
            Err(e) => {
                &&& !(addr_eq(ctx.sender, state.sender) && state.status != STATE_APPROVED
                    && ctx.block_production_time <= state.end_time_millis)
                &&& e == (if !addr_eq(ctx.sender, state.sender) {
                    EscrowError::NotSender
                } else if state.status == STATE_APPROVED {
                    EscrowError::AlreadyApproved
                } else {
                    EscrowError::DeadlinePassed
                })
            },
        },
{
    if ctx.sender != state.sender {
        return Err(EscrowError::NotSender);
    }
    if state.status == STATE_APPROVED {
        return Err(EscrowError::AlreadyApproved);
    }
    if ctx.block_production_time > state.end_time_millis {
        return Err(EscrowError::DeadlinePassed);
    }

    let interface = MPC20TokenInterface::new(state.token_type);
    let mut group = interface.transfer_from(ctx.sender, ctx.contract_address, amount);
    group.callback = Some(
        Callback { shortname: DEPOSIT_CALLBACK_SHORTNAME, payload: u128_to_le_bytes(amount) },
    );
    Ok(group)
}

/// Callback after the deposit transfer.  A failed transfer is fatal: the
/// error aborts the callback transaction, so the host reverts the deposit.
/// On success the balance grows by the deposited amount and the escrow
/// awaits approval.
pub fn deposit_callback(
    callback_ctx: &CallbackContext,
    state: ContractState,
    amount: u128,
) -> (r: Result<ContractState, EscrowError>)
    requires
        state.balance + amount <= u128::MAX,
    ensures
        match r {
            Ok(s) => {
                &&& callback_ctx.success
                &&& s == (ContractState {
                    balance: (state.balance + amount) as u128,
                    status: STATE_AWAITING_APPROVAL,
                    ..state
                })
            },
            Err(e) => !callback_ctx.success && e == EscrowError::TransferFailed,
        },
{
    if !callback_ctx.success {
        return Err(EscrowError::TransferFailed);
    }
    let mut new_state = state;
    new_state.balance = new_state.balance + amount;
    new_state.status = STATE_AWAITING_APPROVAL;
    Ok(new_state)
}

/// Signal fulfilment of the condition.  Only the approver, only before the
/// deadline, and only while the escrow awaits approval.
pub fn approve(ctx: &Context, state: ContractState) -> (r: Result<ContractState, EscrowError>)
    ensures
        match r {
            Ok(s) => {
                &&& addr_eq(ctx.sender, state.approver)
                &&& ctx.block_production_time <= state.end_time_millis
                &&& state.status == STATE_AWAITING_APPROVAL
                &&& s == (ContractState { status: STATE_APPROVED, ..state })
            },
            Err(e) => {
                &&& !(addr_eq(ctx.sender, state.approver) && ctx.block_production_time
                    <= state.end_time_millis && state.status == STATE_AWAITING_APPROVAL)
                &&& e == (if !addr_eq(ctx.sender, state.approver) {
                    EscrowError::NotApprover
                } else if ctx.block_production_time > state.end_time_millis {
                    EscrowError::DeadlinePassed
                } else {
                    EscrowError::NotAwaitingApproval
                })
            },
        },
{
    if ctx.sender != state.approver {
        return Err(EscrowError::NotApprover);
    }
    if ctx.block_production_time > state.end_time_millis {
        return Err(EscrowError::DeadlinePassed);
    }
    if state.status != STATE_AWAITING_APPROVAL {
        return Err(EscrowError::NotAwaitingApproval);
    }

    let mut new_state = state;
    new_state.status = STATE_APPROVED;
    Ok(new_state)
}

/// Whether `claim` accepts the request: tokens must have been deposited and
/// still be present; the receiver may claim once the condition is fulfilled;
/// the sender may take the tokens back once the deadline has passed without
/// fulfilment.
pub open spec fn claim_allowed(ctx: Context, s: ContractState) -> bool {
    &&& (addr_eq(ctx.sender, s.receiver) || addr_eq(ctx.sender, s.sender))
    &&& s.status != STATE_CREATED
    &&& s.balance != 0
    &&& (addr_eq(ctx.sender, s.receiver) ==> s.status == STATE_APPROVED)
    &&& (addr_eq(ctx.sender, s.sender) ==> s.status != STATE_APPROVED
        && ctx.block_production_time >= s.end_time_millis)
}

/// Claim the escrowed tokens.  On success the whole balance is transferred
/// to the claimant and the recorded balance drops to zero.
pub fn claim(ctx: &Context, state: ContractState) -> (r: Result<
    (ContractState, EventGroup),
    EscrowError,
>)
    ensures
        match r {
            Ok((s, g)) => {
                &&& claim_allowed(*ctx, state)
                &&& s == (ContractState { balance: 0u128, ..state })
                &&& g.interactions@.len() == 1
                &&& g.interactions@[0].dest == state.token_type
                &&& g.interactions@[0].payload@ == transfer_payload(ctx.sender, state.balance)
                &&& g.callback is None
                &&& g.raw_events@.len() == 0
            },
            Err(e) => {
                &&& !claim_allowed(*ctx, state)
                &&& e == (if !(addr_eq(ctx.sender, state.receiver) || addr_eq(
                    ctx.sender,
                    state.sender,
                )) {
                    EscrowError::NotParticipant
                } else if state.status == STATE_CREATED {
                    EscrowError::NothingDeposited
                } else if state.balance == 0 {
                    EscrowError::ZeroBalance
                } else if addr_eq(ctx.sender, state.receiver) && state.status != STATE_APPROVED {
                    EscrowError::ConditionNotFulfilled
                } else if state.status == STATE_APPROVED {
                    EscrowError::ConditionFulfilled
                } else {
                    EscrowError::DeadlineNotReached
                })
            },
        },
{
    let can_claim = ctx.sender == state.receiver || ctx.sender == state.sender;
    if !can_claim {
        return Err(EscrowError::NotParticipant);
    }
    if state.status == STATE_CREATED {
        return Err(EscrowError::NothingDeposited);
    }
    if state.balance == 0 {
        return Err(EscrowError::ZeroBalance);
    }
    if ctx.sender == state.receiver && state.status != STATE_APPROVED {
        return Err(EscrowError::ConditionNotFulfilled);
    }
    if ctx.sender == state.sender {
        if state.status == STATE_APPROVED {
            return Err(EscrowError::ConditionFulfilled);
        }
        if ctx.block_production_time < state.end_time_millis {
            return Err(EscrowError::DeadlineNotReached);
        }
    }

    let interface = MPC20TokenInterface::new(state.token_type);
    let group = interface.transfer(ctx.sender, state.balance);

    let mut new_state = state;
    new_state.balance = 0;
    Ok((new_state, group))
}

} // verus!
