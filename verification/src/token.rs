//! The MPC-20 fungible-token ledger contract.
//!
//! Balances and allowances live in association maps keyed by address (and by
//! owner/spender pair); only non-zero values are stored.  Every operation's
//! contract is stated against the abstract `Map` view of those ledgers, so a
//! transfer is exactly "deduct here, add there, touch nothing else".

use crate::host::{Address, Context, lemma_addr_eq_is_eq};
use vstd::map::*;
use vstd::prelude::*;
use vstd::std_specs::cmp::PartialEqSpec;
use vstd::std_specs::vec::vec_index_mut;

verus! {

/// Address pair representing an allowance: `owner` allows `spender` to
/// transfer tokens on their behalf.
#[derive(Debug, Clone, Copy)]
pub struct AllowedAddress {
    /// Owner of the tokens.
    pub owner: Address,
    /// User allowed to transfer on behalf of the owner.
    pub spender: Address,
}

impl PartialEq for AllowedAddress {
    fn eq(&self, other: &Self) -> (r: bool) {
        proof {
            lemma_addr_eq_is_eq(self.owner, other.owner);
            lemma_addr_eq_is_eq(self.spender, other.spender);
        }
        self.owner == other.owner && self.spender == other.spender
    }
}

impl vstd::std_specs::cmp::PartialEqSpecImpl for AllowedAddress {
    open spec fn obeys_eq_spec() -> bool {
        true
    }

    open spec fn eq_spec(&self, other: &Self) -> bool {
        *self == *other
    }
}

/// First value stored under a key equal to `k`, scanning left to right.
pub open spec fn assoc_value<K>(entries: Seq<(K, u128)>, k: K) -> Option<u128>
    decreases entries.len(),
{
    if entries.len() == 0 {
        None
    } else if entries[0].0 == k {
        Some(entries[0].1)
    } else {
        assoc_value(entries.skip(1), k)
    }
}

/// No two entries share a key.
pub open spec fn distinct_keys<K>(entries: Seq<(K, u128)>) -> bool {
    forall|i: int, j: int| 0 <= i < j < entries.len() ==> entries[i].0 != entries[j].0
}

/// When nothing before index `i` matches `k` and index `i` does, the lookup
/// yields the value at `i`.
proof fn lemma_assoc_first_match<K>(entries: Seq<(K, u128)>, k: K, i: int)
    requires
        0 <= i < entries.len(),
        forall|j: int| 0 <= j < i ==> entries[j].0 != k,
        entries[i].0 == k,
    ensures
        assoc_value(entries, k) == Some(entries[i].1),
    decreases i,
{
    if i > 0 {
        lemma_assoc_first_match(entries.skip(1), k, i - 1);
    }
}

/// When no key matches `k`, the lookup yields nothing.
proof fn lemma_assoc_no_match<K>(entries: Seq<(K, u128)>, k: K)
    requires
        forall|j: int| 0 <= j < entries.len() ==> entries[j].0 != k,
    ensures
        assoc_value(entries, k) is None,
    decreases entries.len(),
{
    if entries.len() > 0 {
        lemma_assoc_no_match(entries.skip(1), k);
    }
}

/// Overwriting an entry whose key is not `b` (with another such key) leaves
/// the lookup of `b` unchanged.
proof fn lemma_assoc_update<K>(entries: Seq<(K, u128)>, i: int, x: (K, u128), b: K)
    requires
        0 <= i < entries.len(),
        entries[i].0 != b,
        x.0 != b,
    ensures
        assoc_value(entries.update(i, x), b) == assoc_value(entries, b),
    decreases i,
{
    let updated = entries.update(i, x);
    if i == 0 {
        assert(updated.skip(1) =~= entries.skip(1));
    } else {
        assert(updated.skip(1) =~= entries.skip(1).update(i - 1, x));
        lemma_assoc_update(entries.skip(1), i - 1, x, b);
    }
}

/// What appending an entry does to every lookup: hits before the new entry
/// win, the new entry answers for its own key, everything else stays empty.
proof fn lemma_assoc_push<K>(entries: Seq<(K, u128)>, x: (K, u128), b: K)
    ensures
        assoc_value(entries.push(x), b) == (if assoc_value(entries, b) is Some {
            assoc_value(entries, b)
        } else if x.0 == b {
            Some(x.1)
        } else {
            None
        }),
    decreases entries.len(),
{
    if entries.len() == 0 {
        assert(entries.push(x)[0] == x);
        assert(entries.push(x).skip(1) =~= Seq::<(K, u128)>::empty());
        assert(assoc_value(Seq::<(K, u128)>::empty(), b) is None);
        assert(assoc_value(entries, b) is None);
    } else {
        assert(entries.push(x)[0] == entries[0]);
        assert(entries.push(x).skip(1) =~= entries.skip(1).push(x));
        lemma_assoc_push(entries.skip(1), x, b);
    }
}

/// Removing an entry whose key is not `b` leaves the lookup of `b`
/// unchanged.
proof fn lemma_assoc_remove<K>(entries: Seq<(K, u128)>, i: int, b: K)
    requires
        0 <= i < entries.len(),
        entries[i].0 != b,
    ensures
        assoc_value(entries.remove(i), b) == assoc_value(entries, b),
    decreases i,
{
    let removed = entries.remove(i);
    if i == 0 {
        assert(removed =~= entries.skip(1));
    } else {
        assert(removed[0] == entries[0]);
        assert(removed.skip(1) =~= entries.skip(1).remove(i - 1));
        lemma_assoc_remove(entries.skip(1), i - 1, b);
    }
}

/// The value a ledger reports for key `k`: what the map stores, or zero.
pub open spec fn stored_or_zero<K>(m: Map<K, u128>, k: K) -> u128 {
    if m.dom().contains(k) {
        m[k]
    } else {
        0
    }
}

/// The ledger after setting key `k` to `v`: a zero value erases the entry,
/// so only non-zero values are ever stored.
pub open spec fn spec_set_entry<K>(m: Map<K, u128>, k: K, v: u128) -> Map<K, u128> {
    if v == 0 {
        m.remove(k)
    } else {
        m.insert(k, v)
    }
}

/// An association map from keys to non-zero amounts; a key without an entry
/// implicitly holds zero.
#[derive(Debug)]
pub struct LedgerMap<K> {
    /// The entries, with pairwise distinct keys.
    pub entries: Vec<(K, u128)>,
}

/// The assumptions the ledger operations make of the key type: its `==`
/// operator agrees with logical equality.
pub open spec fn key_eq_works<K: PartialEq>() -> bool {
    &&& K::obeys_eq_spec()
    &&& forall|a: K, b: K| #[trigger] a.eq_spec(&b) <==> a == b
}

impl<K: PartialEq + Copy> LedgerMap<K> {
    /// Distinct keys: every key occurs at most once.
    pub open spec fn wf(&self) -> bool {
        distinct_keys(self.entries@)
    }

    /// The ledger as an abstract map; its domain carries exactly the keys
    /// with a non-zero amount.
    pub open spec fn as_map(&self) -> Map<K, u128> {
        Map::new(
            |k: K| assoc_value(self.entries@, k) is Some,
            |k: K| assoc_value(self.entries@, k)->Some_0,
        )
    }

    /// The empty ledger.
    pub fn new() -> (r: Self)
        ensures
            r.wf(),
            r.as_map() == Map::<K, u128>::empty(),
    {
        let r = LedgerMap { entries: Vec::new() };
        proof {
            assert forall|k: K| assoc_value(r.entries@, k) is None by {
                lemma_assoc_no_match(r.entries@, k);
            }
            assert(r.as_map() =~= Map::<K, u128>::empty());
        }
        r
    }

    /// The amount held under `k`, zero when no entry exists.
    pub fn get_or_zero(&self, k: &K) -> (r: u128)
        requires
            key_eq_works::<K>(),
        ensures
            r == stored_or_zero(self.as_map(), *k),
    {
        let n = self.entries.len();
        let mut i: usize = 0;
        while i < n
            invariant
                key_eq_works::<K>(),
                0 <= i <= n,
                n == self.entries@.len(),
                forall|j: int| 0 <= j < i ==> self.entries@[j].0 != *k,
            decreases n - i,
        {
            if self.entries[i].0 == *k {
                proof {
                    lemma_assoc_first_match(self.entries@, *k, i as int);
                }
                return self.entries[i].1;
            }
            i = i + 1;
        }
        proof {
            lemma_assoc_no_match(self.entries@, *k);
        }
        0
    }

    /// Set the amount under `k` to `v`, erasing the entry when `v` is zero.
    pub fn insert_balance(&mut self, k: K, v: u128)
        requires
            key_eq_works::<K>(),
            old(self).wf(),
        ensures
            final(self).wf(),
            final(self).as_map() == spec_set_entry(old(self).as_map(), k, v),
    {
        let n = self.entries.len();
        let mut i: usize = 0;
        while i < n
            invariant
                key_eq_works::<K>(),
                old(self).wf(),
                0 <= i <= n,
                n == self.entries@.len(),
                *self == *old(self),
                forall|j: int| 0 <= j < i ==> self.entries@[j].0 != k,
            decreases n - i,
        {
            if self.entries[i].0 == k {
                let ghost pre = self.entries@;
                let ghost idx = i as int;
                if v == 0 {
                    self.entries.remove(i);
                    proof {
                        assert(self.entries@ == pre.remove(idx));
                        pre.remove_ensures(idx);
                        assert(self.entries@.len() == pre.len() - 1);
                        assert(forall|m: int|
                            0 <= m < idx ==> pre.remove(idx)[m] == pre[m]);
                        assert(forall|m: int|
                            idx <= m < pre.len() - 1 ==> pre.remove(idx)[m] == pre[m + 1]);
                        assert forall|m: int, l: int|
                            0 <= m < l < self.entries@.len() implies self.entries@[m].0
                            != self.entries@[l].0 by {
                            assert(self.entries@[m] == (if m < idx {
                                pre[m]
                            } else {
                                pre[m + 1]
                            }));
                            assert(self.entries@[l] == (if l < idx {
                                pre[l]
                            } else {
                                pre[l + 1]
                            }));
                        }
                        assert forall|j: int|
                            0 <= j < self.entries@.len() implies self.entries@[j].0 != k by {
                            assert(self.entries@[j] == (if j < idx {
                                pre[j]
                            } else {
                                pre[j + 1]
                            }));
                        }
                        lemma_assoc_no_match(self.entries@, k);
                        assert forall|b: K| b != k implies assoc_value(self.entries@, b)
                            == assoc_value(pre, b) by {
                            lemma_assoc_remove(pre, idx, b);
                        }
                        assert(self.as_map() =~= spec_set_entry(old(self).as_map(), k, v));
                    }
                } else {
                    let slot = vec_index_mut(&mut self.entries, i);
                    *slot = (k, v);
                    proof {
                        assert(self.entries@ =~= pre.update(idx, (k, v)));
                        assert forall|m: int, l: int|
                            0 <= m < l < self.entries@.len() implies self.entries@[m].0
                            != self.entries@[l].0 by {
                            assert(pre[m].0 == self.entries@[m].0);
                            assert(pre[l].0 == self.entries@[l].0);
                        }
                        lemma_assoc_first_match(self.entries@, k, idx);
                        assert forall|b: K| b != k implies assoc_value(self.entries@, b)
                            == assoc_value(pre, b) by {
                            lemma_assoc_update(pre, idx, (k, v), b);
                        }
                        assert(self.as_map() =~= spec_set_entry(old(self).as_map(), k, v));
                    }
                }
                return ;
            }
            i = i + 1;
        }
        let ghost pre = self.entries@;
        proof {
            lemma_assoc_no_match(pre, k);
        }
        if v == 0 {
            proof {
                assert(self.as_map() =~= spec_set_entry(old(self).as_map(), k, v));
            }
            return ;
        }
        self.entries.push((k, v));
        proof {
            assert forall|m: int, l: int|
                0 <= m < l < self.entries@.len() implies self.entries@[m].0
                != self.entries@[l].0 by {
                if l < pre.len() {
                    assert(self.entries@[m] == pre[m]);
                    assert(self.entries@[l] == pre[l]);
                } else {
                    assert(self.entries@[m] == pre[m]);
                    assert(self.entries@[l] == (k, v));
                }
            }
            assert forall|b: K| b != k implies assoc_value(self.entries@, b) == assoc_value(
                pre,
                b,
            ) by {
                lemma_assoc_push(pre, (k, v), b);
            }
            lemma_assoc_push(pre, (k, v), k);
            assert(self.as_map() =~= spec_set_entry(old(self).as_map(), k, v));
        }
    }
}

/// Every `==` assumption the ledgers make holds of `Address`.
pub proof fn lemma_address_key_eq_works()
    ensures
        key_eq_works::<Address>(),
{
    assert forall|a: Address, b: Address| #[trigger] a.eq_spec(&b) <==> a == b by {
        lemma_addr_eq_is_eq(a, b);
    }
}

/// Every `==` assumption the ledgers make holds of `AllowedAddress`.
pub proof fn lemma_allowed_key_eq_works()
    ensures
        key_eq_works::<AllowedAddress>(),
{
}

/// Why a token action was rejected.  A rejected action leaves no state
/// change: the caller's transaction fails as a whole.
#[derive(Clone, Copy, PartialEq, Eq, Structural, Debug)]
pub enum TokenError {
    /// The payer holds fewer tokens than the transfer moves.
    InsufficientFunds,
    /// The transfer would push the recipient's balance past the
    /// representable range.
    BalanceOverflow,
    /// The spender's allowance is smaller than the transfer.
    InsufficientAllowance,
    /// A relative approval may not drive the allowance below zero.
    NegativeAllowance,
    /// A relative approval may not push the allowance past the
    /// representable range.
    AllowanceOverflow,
}

/// What one transfer does to the balance ledger: the payer must hold the
/// amount, the recipient's balance must stay representable; the amount moves
/// from the one to the other and nothing else changes.  A transfer to
/// oneself leaves the ledger as it was.
pub open spec fn spec_transfer(
    balances: Map<Address, u128>,
    from: Address,
    to: Address,
    amount: u128,
) -> Result<Map<Address, u128>, TokenError> {
    let from_balance = stored_or_zero(balances, from);
    if from_balance < amount {
        Err(TokenError::InsufficientFunds)
    } else {
        let deducted = spec_set_entry(balances, from, (from_balance - amount) as u128);
        let to_balance = stored_or_zero(deducted, to);
        if to_balance + amount > u128::MAX {
            Err(TokenError::BalanceOverflow)
        } else {
            Ok(spec_set_entry(deducted, to, (to_balance + amount) as u128))
        }
    }
}

/// What a sequence of transfers from one sender does to the balance ledger:
/// the transfers apply in order, and the first to fail rejects the whole
/// sequence.
pub open spec fn spec_bulk_transfer(
    balances: Map<Address, u128>,
    sender: Address,
    transfers: Seq<Transfer>,
) -> Result<Map<Address, u128>, TokenError>
    decreases transfers.len(),
{
    if transfers.len() == 0 {
        Ok(balances)
    } else {
        match spec_transfer(balances, sender, transfers[0].to, transfers[0].amount) {
            Ok(next) => spec_bulk_transfer(next, sender, transfers.skip(1)),
            Err(e) => Err(e),
        }
    }
}

/// MPC-20 token contract state.
#[derive(Debug)]
pub struct TokenState {
    /// The name of the token.
    pub name: String,
    /// The number of decimals the token uses.
    pub decimals: u8,
    /// The symbol of the token.
    pub symbol: String,
    /// The owner of the contract; receives the initial minting.
    pub owner: Address,
    /// Total amount of tokens in existence.
    pub total_supply: u128,
    /// Ledger of account balances.
    pub balances: LedgerMap<Address>,
    /// Ledger of allowances: who may spend on whose behalf, and how much.
    pub allowed: LedgerMap<AllowedAddress>,
}

impl TokenState {
    /// Structural validity: both ledgers keep their keys distinct.
    pub open spec fn wf(&self) -> bool {
        &&& self.balances.wf()
        &&& self.allowed.wf()
    }

    /// All fields but the two ledgers, unchanged from `other`.
    pub open spec fn same_token_metadata(&self, other: &TokenState) -> bool {
        &&& self.name == other.name
        &&& self.decimals == other.decimals
        &&& self.symbol == other.symbol
        &&& self.owner == other.owner
        &&& self.total_supply == other.total_supply
    }

    /// The token's symbol.
    pub fn get_symbol(&self) -> (r: &str)
        ensures
            r@ == self.symbol@,
    {
        self.symbol.as_str()
    }

    /// The balance of `owner`, zero when no entry exists.
    pub fn balance_of(&self, owner: &Address) -> (r: u128)
        ensures
            r == stored_or_zero(self.balances.as_map(), *owner),
    {
        proof {
            lemma_address_key_eq_works();
        }
        self.balances.get_or_zero(owner)
    }

    /// Set the balance of `owner`, erasing the entry when `amount` is zero.
    pub fn update_balance(&mut self, owner: Address, amount: u128)
        requires
            old(self).wf(),
        ensures
            final(self).wf(),
            final(self).balances.as_map() == spec_set_entry(
                old(self).balances.as_map(),
                owner,
                amount,
            ),
            final(self).allowed == old(self).allowed,
            final(self).same_token_metadata(&*old(self)),
    {
        proof {
            lemma_address_key_eq_works();
        }
        self.balances.insert_balance(owner, amount);
    }

    /// The allowance `owner` has granted `spender`, zero when none exists.
    pub fn allowance(&self, owner: &Address, spender: &Address) -> (r: u128)
        ensures
            r == stored_or_zero(
                self.allowed.as_map(),
                AllowedAddress { owner: *owner, spender: *spender },
            ),
    {
        proof {
            lemma_allowed_key_eq_works();
        }
        self.allowed.get_or_zero(&AllowedAddress { owner: *owner, spender: *spender })
    }

    /// Set the allowance from `owner` to `spender`, erasing the entry when
    /// `amount` is zero.
    pub fn update_allowance(&mut self, owner: Address, spender: Address, amount: u128)
        requires
            old(self).wf(),
        ensures
            final(self).wf(),
            final(self).allowed.as_map() == spec_set_entry(
                old(self).allowed.as_map(),
                AllowedAddress { owner, spender },
                amount,
            ),
            final(self).balances == old(self).balances,
            final(self).same_token_metadata(&*old(self)),
    {
        proof {
            lemma_allowed_key_eq_works();
        }
        self.allowed.insert_balance(AllowedAddress { owner, spender }, amount);
    }
}

/// Bootstrap the token: the whole supply is minted to the creator.
pub fn initialize(
    ctx: &Context,
    name: String,
    symbol: String,
    decimals: u8,
    total_supply: u128,
) -> (r: TokenState)
    ensures
        r.wf(),
        r.name == name,
        r.symbol == symbol,
        r.decimals == decimals,
        r.owner == ctx.sender,
        r.total_supply == total_supply,
        r.balances.as_map() == spec_set_entry(
            Map::<Address, u128>::empty(),
            ctx.sender,
            total_supply,
        ),
        r.allowed.as_map() == Map::<AllowedAddress, u128>::empty(),
{
    let mut initial_state = TokenState {
        name,
        symbol,
        decimals,
        owner: ctx.sender,
        total_supply,
        balances: LedgerMap::new(),
        allowed: LedgerMap::new(),
    };
    initial_state.update_balance(ctx.sender, total_supply);
    initial_state
}

/// Individual transfer for use in `bulk_transfer`.
#[derive(Debug, Clone, Copy)]
pub struct Transfer {
    /// The address to transfer to.
    pub to: Address,
    /// The amount to transfer.
    pub amount: u128,
}

/// Move `amount` tokens, inside `state`'s balance ledger, from `from` to
/// `to`.  Consumes the state; on an error the caller's transaction is
/// rejected and the mutated state is discarded.
fn execute_transfer(state: TokenState, from: Address, to: Address, amount: u128) -> (r: Result<
    TokenState,
    TokenError,
>)
    requires
        state.wf(),
    ensures
        match r {
            Ok(s) => {
                &&& s.wf()
                &&& spec_transfer(state.balances.as_map(), from, to, amount) == Ok::<
                    _,
                    TokenError,
                >(s.balances.as_map())
                &&& s.allowed == state.allowed
                &&& s.same_token_metadata(&state)
            },
            Err(e) => spec_transfer(state.balances.as_map(), from, to, amount) == Err::<
                Map<Address, u128>,
                _,
            >(e),
        },
{
    let mut next = state;
    let from_balance = next.balance_of(&from);
    if from_balance < amount {
        return Err(TokenError::InsufficientFunds);
    }
    next.update_balance(from, from_balance - amount);
    let to_balance = next.balance_of(&to);
    if to_balance > u128::MAX - amount {
        return Err(TokenError::BalanceOverflow);
    }
    next.update_balance(to, to_balance + amount);
    Ok(next)
}

/// Transfer `amount` tokens from the caller to `to`.
pub fn transfer(ctx: &Context, state: TokenState, to: Address, amount: u128) -> (r: Result<
    TokenState,
    TokenError,
>)
    requires
        state.wf(),
    ensures
        match r {
            Ok(s) => {
                &&& s.wf()
                &&& spec_transfer(state.balances.as_map(), ctx.sender, to, amount) == Ok::<
                    _,
                    TokenError,
                >(s.balances.as_map())
                &&& s.allowed == state.allowed
                &&& s.same_token_metadata(&state)
            },
            Err(e) => spec_transfer(state.balances.as_map(), ctx.sender, to, amount) == Err::<
                Map<Address, u128>,
                _,
            >(e),
        },
{
    execute_transfer(state, ctx.sender, to, amount)
}

/// Transfer a bulk of amounts from the caller, one `Transfer` at a time; the
/// first failing transfer rejects the whole bulk.
pub fn bulk_transfer(ctx: &Context, state: TokenState, transfers: Vec<Transfer>) -> (r: Result<
    TokenState,
    TokenError,
>)
    requires
        state.wf(),
    ensures
        match r {
            Ok(s) => {
                &&& s.wf()
                &&& spec_bulk_transfer(state.balances.as_map(), ctx.sender, transfers@) == Ok::<
                    _,
                    TokenError,
                >(s.balances.as_map())
                &&& s.allowed == state.allowed
                &&& s.same_token_metadata(&state)
            },
            Err(e) => spec_bulk_transfer(state.balances.as_map(), ctx.sender, transfers@) == Err::<
                Map<Address, u128>,
                _,
            >(e),
        },
{
    let n = transfers.len();
    let mut next = state;
    let mut i: usize = 0;
    proof {
        assert(transfers@.skip(0) =~= transfers@);
    }
    while i < n
        invariant
            0 <= i <= n,
            n == transfers@.len(),
            next.wf(),
            next.allowed == state.allowed,
            next.same_token_metadata(&state),
            spec_bulk_transfer(state.balances.as_map(), ctx.sender, transfers@)
                == spec_bulk_transfer(next.balances.as_map(), ctx.sender, transfers@.skip(i as int)),
        decreases n - i,
    {
        let t = transfers[i];
        proof {
            assert(transfers@.skip(i as int)[0] == transfers@[i as int]);
            assert(transfers@.skip(i as int).skip(1) =~= transfers@.skip(i as int + 1));
        }
        next = match execute_transfer(next, ctx.sender, t.to, t.amount) {
            Ok(s) => s,
            Err(e) => {
                return Err(e);
            },
        };
        i = i + 1;
    }
    proof {
        assert(transfers@.skip(n as int) =~= Seq::<Transfer>::empty());
    }
    Ok(next)
}

/// What one delegated transfer does to the two ledgers: the caller's
/// allowance from `from` must cover the amount and is reduced by it, and the
/// transfer itself applies to the balances.
pub open spec fn spec_transfer_from(
    balances: Map<Address, u128>,
    allowances: Map<AllowedAddress, u128>,
    sender: Address,
    from: Address,
    to: Address,
    amount: u128,
) -> Result<(Map<Address, u128>, Map<AllowedAddress, u128>), TokenError> {
    let key = AllowedAddress { owner: from, spender: sender };
    let allowed = stored_or_zero(allowances, key);
    if allowed < amount {
        Err(TokenError::InsufficientAllowance)
    } else {
        let spent = spec_set_entry(allowances, key, (allowed - amount) as u128);
        match spec_transfer(balances, from, to, amount) {
            Ok(moved) => Ok((moved, spent)),
            Err(e) => Err(e),
        }
    }
}

/// What a sequence of delegated transfers does to the two ledgers: the
/// transfers apply in order, each spending allowance, and the first to fail
/// rejects the whole sequence.
pub open spec fn spec_bulk_transfer_from(
    balances: Map<Address, u128>,
    allowances: Map<AllowedAddress, u128>,
    sender: Address,
    from: Address,
    transfers: Seq<Transfer>,
) -> Result<(Map<Address, u128>, Map<AllowedAddress, u128>), TokenError>
    decreases transfers.len(),
{
    if transfers.len() == 0 {
        Ok((balances, allowances))
    } else {
        match spec_transfer_from(
            balances,
            allowances,
            sender,
            from,
            transfers[0].to,
            transfers[0].amount,
        ) {
            Ok((b, a)) => spec_bulk_transfer_from(b, a, sender, from, transfers.skip(1)),
            Err(e) => Err(e),
        }
    }
}

/// Transfer `amount` tokens from `from` to `to` on the caller's initiative:
/// the caller spends their allowance from `from`, which must cover the
/// amount, and the transfer itself must go through.
pub fn transfer_from(
    ctx: &Context,
    state: TokenState,
    from: Address,
    to: Address,
    amount: u128,
) -> (r: Result<TokenState, TokenError>)
    requires
        state.wf(),
    ensures
        match r {
            Ok(s) => {
                &&& s.wf()
                &&& spec_transfer_from(
                    state.balances.as_map(),
                    state.allowed.as_map(),
                    ctx.sender,
                    from,
                    to,
                    amount,
                ) == Ok::<_, TokenError>((s.balances.as_map(), s.allowed.as_map()))
                &&& s.same_token_metadata(&state)
            },
            Err(e) => spec_transfer_from(
                state.balances.as_map(),
                state.allowed.as_map(),
                ctx.sender,
                from,
                to,
                amount,
            ) == Err::<(Map<Address, u128>, Map<AllowedAddress, u128>), _>(e),
        },
{
    let mut next = state;
    let allowed_amount = next.allowance(&from, &ctx.sender);
    if allowed_amount < amount {
        return Err(TokenError::InsufficientAllowance);
    }
    next.update_allowance(from, ctx.sender, allowed_amount - amount);
    execute_transfer(next, from, to, amount)
}

/// Transfer a bulk of amounts from `from` on the caller's initiative; each
/// transfer spends allowance, and the first failure rejects the whole bulk.
pub fn bulk_transfer_from(
    ctx: &Context,
    state: TokenState,
    from: Address,
    transfers: Vec<Transfer>,
) -> (r: Result<TokenState, TokenError>)
    requires
        state.wf(),
    ensures
        match r {
            Ok(s) => {
                &&& s.wf()
                &&& spec_bulk_transfer_from(
                    state.balances.as_map(),
                    state.allowed.as_map(),
                    ctx.sender,
                    from,
                    transfers@,
                ) == Ok::<_, TokenError>((s.balances.as_map(), s.allowed.as_map()))
                &&& s.same_token_metadata(&state)
            },
            Err(e) => spec_bulk_transfer_from(
                state.balances.as_map(),
                state.allowed.as_map(),
                ctx.sender,
                from,
                transfers@,
            ) == Err::<(Map<Address, u128>, Map<AllowedAddress, u128>), _>(e),
        },
{
    let n = transfers.len();
    let mut next = state;
    let mut i: usize = 0;
    proof {
        assert(transfers@.skip(0) =~= transfers@);
    }
    while i < n
        invariant
            0 <= i <= n,
            n == transfers@.len(),
            next.wf(),
            next.same_token_metadata(&state),
            spec_bulk_transfer_from(
                state.balances.as_map(),
                state.allowed.as_map(),
                ctx.sender,
                from,
                transfers@,
            ) == spec_bulk_transfer_from(
                next.balances.as_map(),
                next.allowed.as_map(),
                ctx.sender,
                from,
                transfers@.skip(i as int),
            ),
        decreases n - i,
    {
        let t = transfers[i];
        proof {
            assert(transfers@.skip(i as int)[0] == transfers@[i as int]);
            assert(transfers@.skip(i as int).skip(1) =~= transfers@.skip(i as int + 1));
        }
        next = match transfer_from(ctx, next, from, t.to, t.amount) {
            Ok(s) => s,
            Err(e) => {
                return Err(e);
            },
        };
        i = i + 1;
    }
    proof {
        assert(transfers@.skip(n as int) =~= Seq::<Transfer>::empty());
    }
    Ok(next)
}

/// Allow `spender` to withdraw up to `amount` from the caller's account,
/// overwriting any earlier allowance.
pub fn approve(ctx: &Context, state: TokenState, spender: Address, amount: u128) -> (r: TokenState)
    requires
        state.wf(),
    ensures
        r.wf(),
        r.allowed.as_map() == spec_set_entry(
            state.allowed.as_map(),
            AllowedAddress { owner: ctx.sender, spender: spender },
            amount,
        ),
        r.balances == state.balances,
        r.same_token_metadata(&state),
{
    let mut next = state;
    next.update_allowance(ctx.sender, spender, amount);
    next
}

/// Adjust the caller's allowance for `spender` by `delta`, relative to the
/// current allowance.  The result may neither fall below zero nor leave the
/// representable range.
pub fn approve_relative(ctx: &Context, state: TokenState, spender: Address, delta: i128) -> (r:
    Result<TokenState, TokenError>)
    requires
        state.wf(),
    ensures
        ({
            let key = AllowedAddress { owner: ctx.sender, spender: spender };
            let current = stored_or_zero(state.allowed.as_map(), key);
            match r {
                Ok(s) => {
                    &&& 0 <= current + delta <= u128::MAX
                    &&& s.wf()
                    &&& s.allowed.as_map() == spec_set_entry(
                        state.allowed.as_map(),
                        key,
                        (current + delta) as u128,
                    )
                    &&& s.balances == state.balances
                    &&& s.same_token_metadata(&state)
                },
                Err(e) => {
                    &&& !(0 <= current + delta <= u128::MAX)
                    &&& e == (if current + delta < 0 {
                        TokenError::NegativeAllowance
                    } else {
                        TokenError::AllowanceOverflow
                    })
                },
            }
        }),
{
    let mut next = state;
    let current = next.allowance(&ctx.sender, &spender);
    if delta >= 0 {
        let increase = delta as u128;
        if current > u128::MAX - increase {
            return Err(TokenError::AllowanceOverflow);
        }
        next.update_allowance(ctx.sender, spender, current + increase);
    } else {
        let decrease = if delta == i128::MIN {
            (i128::MAX as u128) + 1
        } else {
            (-delta) as u128
        };
        if current < decrease {
            return Err(TokenError::NegativeAllowance);
        }
        next.update_allowance(ctx.sender, spender, current - decrease);
    }
    Ok(next)
}

} // verus!
