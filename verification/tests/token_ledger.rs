use zk_crowdfunding::host::{Address, Context};
use zk_crowdfunding::token::{
    approve, approve_relative, bulk_transfer, bulk_transfer_from, initialize, transfer,
    transfer_from, LedgerMap, TokenError, TokenState, Transfer,
};

fn tok_addr(fill: u8) -> Address {
    Address { address_type: 0, identifier: [fill; 20] }
}

fn tok_ctx(sender: Address) -> Context {
    Context { sender, contract_address: tok_addr(99), block_production_time: 0 }
}

#[test]
fn minting_and_transfer_move_balances() {
    let minter = tok_addr(1);
    let alice = tok_addr(2);

    let state = initialize(&tok_ctx(minter), "Token".to_string(), "TOK".to_string(), 8, 1_000);
    assert_eq!(state.balance_of(&minter), 1_000);
    assert_eq!(state.balance_of(&alice), 0);
    assert_eq!(state.total_supply, 1_000);
    assert_eq!(state.get_symbol(), "TOK");

    let state = transfer(&tok_ctx(minter), state, alice, 300).unwrap();
    assert_eq!(state.balance_of(&minter), 700);
    assert_eq!(state.balance_of(&alice), 300);

    // Moving everything erases the payer's entry; the balance reads zero.
    let state = transfer(&tok_ctx(minter), state, alice, 700).unwrap();
    assert_eq!(state.balance_of(&minter), 0);
    assert_eq!(state.balance_of(&alice), 1_000);
}

#[test]
fn transfer_needs_funds() {
    let minter = tok_addr(1);
    let alice = tok_addr(2);
    let state = initialize(&tok_ctx(minter), "Token".to_string(), "TOK".to_string(), 8, 10);
    assert_eq!(
        transfer(&tok_ctx(alice), state, minter, 1).unwrap_err(),
        TokenError::InsufficientFunds
    );
}

#[test]
fn self_transfer_changes_nothing() {
    let minter = tok_addr(1);
    let state = initialize(&tok_ctx(minter), "Token".to_string(), "TOK".to_string(), 8, 10);
    let state = transfer(&tok_ctx(minter), state, minter, 10).unwrap();
    assert_eq!(state.balance_of(&minter), 10);
}

#[test]
fn bulk_transfer_applies_in_order() {
    let minter = tok_addr(1);
    let alice = tok_addr(2);
    let bob = tok_addr(3);
    let state = initialize(&tok_ctx(minter), "Token".to_string(), "TOK".to_string(), 8, 100);

    let state = bulk_transfer(
        &tok_ctx(minter),
        state,
        vec![
            Transfer { to: alice, amount: 40 },
            Transfer { to: bob, amount: 50 },
        ],
    )
    .unwrap();
    assert_eq!(state.balance_of(&minter), 10);
    assert_eq!(state.balance_of(&alice), 40);
    assert_eq!(state.balance_of(&bob), 50);

    // The first failing transfer rejects the whole bulk.
    let state2 = initialize(&tok_ctx(minter), "Token".to_string(), "TOK".to_string(), 8, 100);
    assert_eq!(
        bulk_transfer(
            &tok_ctx(minter),
            state2,
            vec![
                Transfer { to: alice, amount: 90 },
                Transfer { to: bob, amount: 20 },
            ],
        )
        .unwrap_err(),
        TokenError::InsufficientFunds
    );
}

#[test]
fn allowances_gate_delegated_transfers() {
    let minter = tok_addr(1);
    let spender = tok_addr(2);
    let dest = tok_addr(3);
    let state = initialize(&tok_ctx(minter), "Token".to_string(), "TOK".to_string(), 8, 100);

    // Without an allowance, a delegated transfer fails.
    assert_eq!(
        transfer_from(&tok_ctx(spender), state, minter, dest, 5).unwrap_err(),
        TokenError::InsufficientAllowance
    );

    let state = initialize(&tok_ctx(minter), "Token".to_string(), "TOK".to_string(), 8, 100);
    let state = approve(&tok_ctx(minter), state, spender, 30);
    assert_eq!(state.allowance(&minter, &spender), 30);

    let state = transfer_from(&tok_ctx(spender), state, minter, dest, 20).unwrap();
    assert_eq!(state.balance_of(&minter), 80);
    assert_eq!(state.balance_of(&dest), 20);
    assert_eq!(state.allowance(&minter, &spender), 10);

    // The remaining allowance does not cover another 20.
    assert_eq!(
        transfer_from(&tok_ctx(spender), state, minter, dest, 20).unwrap_err(),
        TokenError::InsufficientAllowance
    );
}

#[test]
fn bulk_transfer_from_spends_allowance_per_step() {
    let minter = tok_addr(1);
    let spender = tok_addr(2);
    let alice = tok_addr(3);
    let bob = tok_addr(4);
    let state = initialize(&tok_ctx(minter), "Token".to_string(), "TOK".to_string(), 8, 100);
    let state = approve(&tok_ctx(minter), state, spender, 60);

    let state = bulk_transfer_from(
        &tok_ctx(spender),
        state,
        minter,
        vec![
            Transfer { to: alice, amount: 25 },
            Transfer { to: bob, amount: 35 },
        ],
    )
    .unwrap();
    assert_eq!(state.balance_of(&alice), 25);
    assert_eq!(state.balance_of(&bob), 35);
    assert_eq!(state.allowance(&minter, &spender), 0);
}

#[test]
fn relative_approval_adjusts_and_guards() {
    let minter = tok_addr(1);
    let spender = tok_addr(2);
    let state = initialize(&tok_ctx(minter), "Token".to_string(), "TOK".to_string(), 8, 100);

    let state = approve_relative(&tok_ctx(minter), state, spender, 50).unwrap();
    assert_eq!(state.allowance(&minter, &spender), 50);
    let state = approve_relative(&tok_ctx(minter), state, spender, -20).unwrap();
    assert_eq!(state.allowance(&minter, &spender), 30);

    // Driving the allowance below zero fails and changes nothing.
    assert_eq!(
        approve_relative(&tok_ctx(minter), state, spender, -40).unwrap_err(),
        TokenError::NegativeAllowance
    );
}

#[test]
fn transfers_and_approvals_guard_overflow() {
    let minter = tok_addr(1);
    let alice = tok_addr(2);

    // Two accounts already at the brink: one more token overflows.
    let state = TokenState {
        name: "Token".to_string(),
        decimals: 8,
        symbol: "TOK".to_string(),
        owner: minter,
        total_supply: u128::MAX,
        balances: LedgerMap { entries: vec![(minter, 10), (alice, u128::MAX)] },
        allowed: LedgerMap { entries: vec![] },
    };
    assert_eq!(
        transfer(&tok_ctx(minter), state, alice, 1).unwrap_err(),
        TokenError::BalanceOverflow
    );

    // A relative approval past the representable range fails.
    let state = initialize(&tok_ctx(minter), "Token".to_string(), "TOK".to_string(), 8, 10);
    let state = approve(&tok_ctx(minter), state, alice, u128::MAX);
    assert_eq!(
        approve_relative(&tok_ctx(minter), state, alice, 1).unwrap_err(),
        TokenError::AllowanceOverflow
    );
}
