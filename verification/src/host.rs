//! Model of the data the host chain hands to a contract invocation and of the
//! requests a contract hands back: addresses, invocation contexts, the
//! secret-variable store, and zero-knowledge state-change requests.

use vstd::prelude::*;

verus! {

/// Address type tag of an ordinary user account.
pub const ACCOUNT_ADDRESS: u8 = 0;

/// Address type tag of a system contract.
pub const SYSTEM_CONTRACT_ADDRESS: u8 = 1;

/// Address type tag of a public (deployed, non-ZK) contract.
pub const PUBLIC_CONTRACT_ADDRESS: u8 = 2;

/// Address type tag of a zero-knowledge contract.
pub const ZK_CONTRACT_ADDRESS: u8 = 3;

/// A chain address: one type byte followed by a 20-byte identifier.
#[derive(Debug, Clone, Copy)]
pub struct Address {
    /// Which kind of entity the address names (account, contract, ...).
    pub address_type: u8,
    /// The 20-byte identifier of the entity.
    pub identifier: [u8; 20],
}

/// Two addresses name the same entity: same type byte, same identifier bytes.
pub open spec fn addr_eq(a: Address, b: Address) -> bool {
    a.address_type == b.address_type && a.identifier@ == b.identifier@
}

/// `addr_eq` is exactly equality of addresses: the identifier array is
/// determined by its bytes.
pub proof fn lemma_addr_eq_is_eq(a: Address, b: Address)
    ensures
        addr_eq(a, b) <==> a == b,
{
    if addr_eq(a, b) {
        assert(a.identifier =~= b.identifier);
    }
}

impl PartialEq for Address {
    fn eq(&self, other: &Self) -> bool {
        if self.address_type != other.address_type {
            return false;
        }
        let mut i: usize = 0;
        while i < 20
            invariant
                0 <= i <= 20,
                self.address_type == other.address_type,
                forall|j: int| 0 <= j < i ==> self.identifier@[j] == other.identifier@[j],
            decreases 20 - i,
        {
            if self.identifier[i] != other.identifier[i] {
                return false;
            }
            i = i + 1;
        }
        proof {
            assert(self.identifier@ =~= other.identifier@);
        }
        true
    }
}

impl vstd::std_specs::cmp::PartialEqSpecImpl for Address {
    open spec fn obeys_eq_spec() -> bool {
        true
    }

    open spec fn eq_spec(&self, other: &Self) -> bool {
        addr_eq(*self, *other)
    }
}

/// The context the chain attaches to one contract invocation: who signed it,
/// which contract is running, and the block production time in milliseconds.
#[derive(Debug, Clone, Copy)]
pub struct Context {
    /// The cryptographically recovered sender of the invocation.
    pub sender: Address,
    /// The address of the contract being invoked.
    pub contract_address: Address,
    /// Production time of the enclosing block, in milliseconds.
    pub block_production_time: i64,
}

/// The context the chain attaches to a callback invocation.
#[derive(Debug, Clone, Copy)]
pub struct CallbackContext {
    /// Whether every interaction of the awaited event group succeeded.
    pub success: bool,
}

/// Handle of one secret variable in the host's secret-variable store.
#[derive(Debug, Clone, Copy, PartialEq, Eq, Structural)]
pub struct SecretVarId {
    /// The host-assigned numeric id.
    pub raw_id: u32,
}

/// Contract-chosen metadata attached to each secret variable, naming the
/// variable's semantic role.
#[derive(Debug, Clone, Copy)]
pub enum SecretVarType {
    /// One contributor's secret contribution amount.
    Contribution { owner: Address, timestamp: i64 },
    /// A secret token-balance record.
    TokenBalance { owner: Address, timestamp: i64 },
    /// Computation output: whether the funding target was met.
    ThresholdCheckResult,
    /// Computation output: the total, or zero when the target was missed.
    ConditionalTotal,
    /// Computation output: the true total, for the owner's withdrawal.
    ActualTotal,
    /// Computation output of the plain summing computation.
    SumResult,
}

/// One secret variable as the contract sees it: its handle, its input owner,
/// its metadata, and — once declassified — its plaintext bytes.
#[derive(Debug)]
pub struct SecretVariable {
    /// The host-assigned handle.
    pub id: SecretVarId,
    /// The address that committed the secret input (or the contract, for
    /// computation outputs).
    pub owner: Address,
    /// The contract-chosen metadata.
    pub metadata: SecretVarType,
    /// Plaintext bytes, present only after the variable has been opened.
    pub data: Option<Vec<u8>>,
}

/// Status of the host's secret-computation engine for this contract.
#[derive(Debug, Clone, Copy, PartialEq, Eq, Structural)]
pub enum CalculationStatus {
    /// No computation in flight; a new one may be started.
    Waiting,
    /// A computation is running on the MPC nodes.
    Calculating,
    /// Output variables are being committed.
    Output,
    /// The contract has concluded its ZK lifecycle.
    Done,
}

/// The host's zero-knowledge state as handed to each invocation: the engine
/// status and every secret variable of this contract.
#[derive(Debug)]
pub struct ZkState {
    /// Status of the computation engine.
    pub calculation_state: CalculationStatus,
    /// All committed secret variables, with their metadata.
    pub secret_variables: Vec<SecretVariable>,
}

/// First secret variable of `vars` carrying the handle `id`, if any.
pub open spec fn spec_lookup(vars: Seq<SecretVariable>, id: SecretVarId) -> Option<SecretVariable>
    decreases vars.len(),
{
    if vars.len() == 0 {
        None
    } else if vars[0].id == id {
        Some(vars[0])
    } else {
        spec_lookup(vars.skip(1), id)
    }
}

impl ZkState {
    /// Look a secret variable up by its handle.
    pub fn get_variable(&self, id: SecretVarId) -> (r: Option<&SecretVariable>)
        ensures
            match r {
                Some(v) => spec_lookup(self.secret_variables@, id) == Some(*v),
                None => spec_lookup(self.secret_variables@, id) is None,
            },
    {
        let n = self.secret_variables.len();
        let mut i: usize = 0;
        proof {
            assert(self.secret_variables@.skip(0) =~= self.secret_variables@);
        }
        while i < n
            invariant
                0 <= i <= n,
                n == self.secret_variables@.len(),
                spec_lookup(self.secret_variables@, id) == spec_lookup(
                    self.secret_variables@.skip(i as int),
                    id,
                ),
            decreases n - i,
        {
            proof {
                assert(self.secret_variables@.skip(i as int)[0] == self.secret_variables@[i as int]);
                assert(self.secret_variables@.skip(i as int).skip(1) =~= self.secret_variables@.skip(
                    i as int + 1,
                ));
            }
            if self.secret_variables[i].id == id {
                return Some(&self.secret_variables[i]);
            }
            i = i + 1;
        }
        None
    }
}

/// Whether this secret variable is a contribution commitment.
pub open spec fn is_contribution(v: SecretVariable) -> bool {
    v.metadata is Contribution
}

/// Whether this secret variable is a contribution committed by `sender`.
pub open spec fn is_contribution_of(v: SecretVariable, sender: Address) -> bool {
    v.metadata matches SecretVarType::Contribution { owner, .. } && addr_eq(owner, sender)
}

/// Whether `sender` has at least one contribution commitment in `vars`.
pub open spec fn has_contribution_of(vars: Seq<SecretVariable>, sender: Address) -> bool {
    exists|i: int| 0 <= i < vars.len() && is_contribution_of(vars[i], sender)
}

/// How many of `vars` are contribution commitments.
pub open spec fn count_contributions(vars: Seq<SecretVariable>) -> nat
    decreases vars.len(),
{
    if vars.len() == 0 {
        0
    } else {
        count_contributions(vars.drop_last()) + if is_contribution(vars.last()) {
            1nat
        } else {
            0nat
        }
    }
}

/// There are never more contribution commitments than variables.
pub proof fn lemma_count_le_len(vars: Seq<SecretVariable>)
    ensures
        count_contributions(vars) <= vars.len(),
    decreases vars.len(),
{
    if vars.len() > 0 {
        lemma_count_le_len(vars.drop_last());
    }
}

/// The value of an opened variable: the first four plaintext bytes read as a
/// little-endian unsigned integer, or zero when the payload is missing or
/// shorter than four bytes, so that a malformed result can never wedge a
/// campaign.
pub open spec fn opened_value(data: Option<Vec<u8>>) -> u32 {
    match data {
        Some(bytes) => if bytes@.len() >= 4 {
            vstd::bytes::spec_u32_from_le_bytes(bytes@.subrange(0, 4))
        } else {
            0
        },
        None => 0,
    }
}

/// Read a variable's opened data as a `u32`, guarding against missing or
/// short payloads.
pub fn read_variable_u32_le(variable: &SecretVariable) -> (r: u32)
    ensures
        r == opened_value(variable.data),
{
    match &variable.data {
        Some(bytes) => {
            if bytes.len() >= 4 {
                vstd::bytes::u32_from_le_bytes(
                    vstd::slice::slice_subrange(bytes.as_slice(), 0, 4),
                )
            } else {
                0
            }
        },
        None => 0,
    }
}

impl ZkState {
    /// Whether `sender` already holds a contribution commitment.
    pub fn sender_has_commitment(&self, sender: &Address) -> (r: bool)
        ensures
            r == has_contribution_of(self.secret_variables@, *sender),
    {
        let n = self.secret_variables.len();
        let mut i: usize = 0;
        while i < n
            invariant
                0 <= i <= n,
                n == self.secret_variables@.len(),
                forall|j: int|
                    0 <= j < i ==> !is_contribution_of(self.secret_variables@[j], *sender),
            decreases n - i,
        {
            match &self.secret_variables[i].metadata {
                SecretVarType::Contribution { owner, .. } => {
                    if *owner == *sender {
                        return true;
                    }
                },
                _ => {},
            }
            i = i + 1;
        }
        false
    }

    /// Count the contribution commitments in the store.
    pub fn count_commitments(&self) -> (n: usize)
        ensures
            n == count_contributions(self.secret_variables@),
    {
        let total = self.secret_variables.len();
        let mut n: usize = 0;
        let mut i: usize = 0;
        proof {
            assert(self.secret_variables@.take(0) =~= Seq::<SecretVariable>::empty());
        }
        while i < total
            invariant
                0 <= i <= total,
                total == self.secret_variables@.len(),
                n == count_contributions(self.secret_variables@.take(i as int)),
            decreases total - i,
        {
            proof {
                let next = self.secret_variables@.take(i as int + 1);
                assert(next.drop_last() =~= self.secret_variables@.take(i as int));
                assert(next.last() == self.secret_variables@[i as int]);
                lemma_count_le_len(next);
            }
            match &self.secret_variables[i].metadata {
                SecretVarType::Contribution { .. } => {
                    n = n + 1;
                },
                _ => {},
            }
            i = i + 1;
        }
        proof {
            assert(self.secret_variables@.take(total as int) =~= self.secret_variables@);
        }
        n
    }
}

/// A definition of a pending secret input, as returned to the host: the
/// metadata the new variable will carry and the hook invoked once the input
/// is committed on chain.
#[derive(Debug)]
pub struct ZkInputDef {
    /// Shortname of the hook invoked when the variable has been committed.
    pub on_inputted: Option<u32>,
    /// Metadata for the new secret variable.
    pub metadata: SecretVarType,
}

/// A request from the contract to the host's zero-knowledge engine.
#[derive(Debug)]
pub enum ZkStateChange {
    /// Start a computation over the committed secret variables.
    StartComputation {
        /// Shortname of the computation function to run.
        function_shortname: u32,
        /// Metadata for each output variable, in output order.
        output_metadata: Vec<SecretVarType>,
        /// Public inputs handed to the computation.
        public_inputs: Vec<u32>,
        /// Shortname of the hook invoked when the computation completes.
        on_complete: Option<u32>,
    },
    /// Declassify the named variables; their plaintext bytes come back
    /// through the opened-variables hook.
    OpenVariables {
        /// The handles to declassify.
        variables: Vec<SecretVarId>,
    },
    /// Conclude the contract's zero-knowledge lifecycle.
    ContractDone,
}

} // verus!
