//! Fork identifiers, transaction environment, gas accounting and the
//! settlement steps shared by every chain.
use crate::state::{Account, AccountInfo, TOUCHED};
use crate::word::{min_nat, u256_max, Address, U256};
use vstd::prelude::*;

verus! {

/// Hardforks, oldest first.
#[derive(Clone, Copy, Debug, PartialEq, Eq, Structural, Hash)]
pub enum SpecId {
    Frontier,
    Homestead,
    Tangerine,
    SpuriousDragon,
    Byzantium,
    Petersburg,
    Istanbul,
    Berlin,
    London,
    Merge,
    Shanghai,
    PreBernoulli,
    Bernoulli,
    Curie,
    Cancun,
}

impl SpecId {
    pub open spec fn spec_ordinal(self) -> nat {
        match self {
            SpecId::Frontier => 0,
            SpecId::Homestead => 1,
            SpecId::Tangerine => 2,
            SpecId::SpuriousDragon => 3,
            SpecId::Byzantium => 4,
            SpecId::Petersburg => 5,
            SpecId::Istanbul => 6,
            SpecId::Berlin => 7,
            SpecId::London => 8,
            SpecId::Merge => 9,
            SpecId::Shanghai => 10,
            SpecId::PreBernoulli => 11,
            SpecId::Bernoulli => 12,
            SpecId::Curie => 13,
            SpecId::Cancun => 14,
        }
    }

    pub fn ordinal(&self) -> (r: u8)
        ensures
            r == self.spec_ordinal(),
    {
        match self {
            SpecId::Frontier => 0,
            SpecId::Homestead => 1,
            SpecId::Tangerine => 2,
            SpecId::SpuriousDragon => 3,
            SpecId::Byzantium => 4,
            SpecId::Petersburg => 5,
            SpecId::Istanbul => 6,
            SpecId::Berlin => 7,
            SpecId::London => 8,
            SpecId::Merge => 9,
            SpecId::Shanghai => 10,
            SpecId::PreBernoulli => 11,
            SpecId::Bernoulli => 12,
            SpecId::Curie => 13,
            SpecId::Cancun => 14,
        }
    }

    /// Whether the rules of `fork` apply under `self`.
    pub fn enabled(&self, fork: SpecId) -> (r: bool)
        ensures
            r == (self.spec_ordinal() >= fork.spec_ordinal()),
    {
        self.ordinal() >= fork.ordinal()
    }
}

/// Engine configuration.
#[derive(Clone, Copy, Debug)]
pub struct CfgEnv {
    pub spec_id: SpecId,
    pub disable_gas_refund: bool,
}

/// The block being built.
#[derive(Clone, Copy, Debug)]
pub struct BlockEnv {
    pub coinbase: Address,
    pub basefee: U256,
}

/// Fields the rollup adds to a transaction.
#[derive(Clone, Debug)]
pub struct TxScroll {
    /// The transaction is a message from L1 and pays no fee.
    pub is_l1_msg: bool,
    /// The encoded transaction, whose size the L1 data fee is charged on.
    pub rlp_bytes: Option<Vec<u8>>,
}

/// The transaction being executed.
#[derive(Clone, Debug)]
pub struct TxEnv {
    pub caller: Address,
    pub gas_limit: u64,
    pub gas_price: U256,
    pub gas_priority_fee: Option<U256>,
    /// The transaction calls an account (otherwise it creates one).
    pub is_call: bool,
    /// L1 fee the transaction was quoted.
    pub l1_fee: U256,
    pub scroll: TxScroll,
}

#[derive(Clone, Debug)]
pub struct Env {
    pub cfg: CfgEnv,
    pub block: BlockEnv,
    pub tx: TxEnv,
}

/// The price per gas the transaction pays: the gas price, capped at base fee
/// plus priority fee when a priority fee is given.
pub open spec fn effective_gas_price_of(env: Env) -> nat {
    match env.tx.gas_priority_fee {
        None => env.tx.gas_price.value(),
        Some(p) => {
            let cap = min_nat(env.block.basefee.value() + p.value(), u256_max());
            if env.tx.gas_price.value() <= cap { env.tx.gas_price.value() } else { cap }
        },
    }
}

impl Env {
    pub fn effective_gas_price(&self) -> (r: U256)
        ensures
            r.value() == effective_gas_price_of(*self),
    {
        match self.tx.gas_priority_fee {
            None => self.tx.gas_price,
            Some(p) => {
                let cap = self.block.basefee.saturating_add(p);
                if self.tx.gas_price.gt(cap) { cap } else { self.tx.gas_price }
            },
        }
    }
}

/// Gas of one frame: the limit, what is left of it, and the refund collected.
#[derive(Clone, Copy, Debug)]
pub struct Gas {
    limit: u64,
    remaining: u64,
    refunded: i64,
}

impl Gas {
    #[verifier::type_invariant]
    spec fn inv(&self) -> bool {
        self.remaining <= self.limit
    }

    pub closed spec fn spec_limit(self) -> u64 {
        self.limit
    }

    pub closed spec fn spec_remaining(self) -> u64 {
        self.remaining
    }

    pub closed spec fn spec_refunded(self) -> i64 {
        self.refunded
    }

    pub open spec fn spec_spent(self) -> nat {
        (self.spec_limit() - self.spec_remaining()) as nat
    }

    /// All of `limit` left, nothing refunded.
    pub fn new(limit: u64) -> (r: Gas)
        ensures
            r.spec_limit() == limit,
            r.spec_remaining() == limit,
            r.spec_refunded() == 0,
    {
        Gas { limit, remaining: limit, refunded: 0 }
    }

    pub fn limit(&self) -> (r: u64)
        ensures
            r == self.spec_limit(),
    {
        self.limit
    }

    pub fn remaining(&self) -> (r: u64)
        ensures
            r == self.spec_remaining(),
    {
        self.remaining
    }

    pub fn refunded(&self) -> (r: i64)
        ensures
            r == self.spec_refunded(),
    {
        self.refunded
    }

    /// Gas used so far.
    pub fn spent(&self) -> (r: u64)
        ensures
            r == self.spec_spent(),
    {
        proof {
            use_type_invariant(self);
        }
        self.limit - self.remaining
    }

    /// Charges `cost`; returns false, charging nothing, when not that much is left.
    pub fn record_cost(&mut self, cost: u64) -> (r: bool)
        ensures
            r == (cost <= old(self).spec_remaining()),
            final(self).spec_limit() == old(self).spec_limit(),
            final(self).spec_refunded() == old(self).spec_refunded(),
            final(self).spec_remaining() == if r { (old(self).spec_remaining() - cost) as u64 } else {
                old(self).spec_remaining()
            },
    {
        proof {
            use_type_invariant(&*self);
        }
        if cost > self.remaining {
            return false;
        }
        *self = Gas { limit: self.limit, remaining: self.remaining - cost, refunded: self.refunded };
        true
    }

    /// Gives back `returned` unused gas.
    pub fn erase_cost(&mut self, returned: u64)
        requires
            old(self).spec_remaining() + returned <= old(self).spec_limit(),
        ensures
            final(self).spec_limit() == old(self).spec_limit(),
            final(self).spec_refunded() == old(self).spec_refunded(),
            final(self).spec_remaining() == old(self).spec_remaining() + returned,
    {
        *self = Gas { limit: self.limit, remaining: self.remaining + returned, refunded: self.refunded };
    }

    /// Adds `refund` (which may be negative) to the refund collected.
    pub fn record_refund(&mut self, refund: i64)
        requires
            i64::MIN <= old(self).spec_refunded() + refund <= i64::MAX,
        ensures
            final(self).spec_limit() == old(self).spec_limit(),
            final(self).spec_remaining() == old(self).spec_remaining(),
            final(self).spec_refunded() == old(self).spec_refunded() + refund,
    {
        proof {
            use_type_invariant(&*self);
        }
        *self = Gas { limit: self.limit, remaining: self.remaining, refunded: self.refunded + refund };
    }
}

/// How the interpreter ended a call.
#[derive(Clone, Copy, Debug, PartialEq, Eq, Structural)]
pub enum InstructionResult {
    Continue,
    Stop,
    Return,
    SelfDestruct,
    Revert,
    CallTooDeep,
    OutOfFund,
    OutOfGas,
    OpcodeNotFound,
    InvalidJump,
    StackUnderflow,
    StackOverflow,
    OutOfOffset,
    FatalExternalError,
}

/// The call succeeded.
pub open spec fn is_ok(r: InstructionResult) -> bool {
    r == InstructionResult::Continue || r == InstructionResult::Stop || r == InstructionResult::Return
        || r == InstructionResult::SelfDestruct
}

/// The call reverted, handing back its unused gas.
pub open spec fn is_revert(r: InstructionResult) -> bool {
    r == InstructionResult::Revert || r == InstructionResult::CallTooDeep || r
        == InstructionResult::OutOfFund
}

/// The transaction's gas after its call: all of the limit is spent, less what
/// a successful or reverted call hands back; only a successful call keeps its refund.
pub fn handle_call_return(env: &Env, call_result: InstructionResult, returned_gas: Gas) -> (r: Gas)
    requires
        returned_gas.spec_remaining() <= env.tx.gas_limit,
    ensures
        r.spec_limit() == env.tx.gas_limit,
        r.spec_remaining() == if is_ok(call_result) || is_revert(call_result) {
            returned_gas.spec_remaining()
        } else {
            0
        },
        r.spec_refunded() == if is_ok(call_result) { returned_gas.spec_refunded() } else { 0 },
{
    let tx_gas_limit = env.tx.gas_limit;
    let mut gas = Gas::new(tx_gas_limit);
    gas.record_cost(tx_gas_limit);
    match call_result {
        InstructionResult::Continue | InstructionResult::Stop | InstructionResult::Return
        | InstructionResult::SelfDestruct => {
            gas.erase_cost(returned_gas.remaining());
            gas.record_refund(returned_gas.refunded());
        },
        InstructionResult::Revert | InstructionResult::CallTooDeep | InstructionResult::OutOfFund => {
            gas.erase_cost(returned_gas.remaining());
        },
        _ => {},
    }
    gas
}

/// Pays the caller back for unused gas and the refund, at the effective gas price.
pub fn handle_reimburse_caller(caller: &mut Account, env: &Env, gas: &Gas, gas_refund: u64)
    requires
        gas.spec_remaining() + gas_refund <= u64::MAX,
    ensures
        final(caller).info.balance.value() == min_nat(
            old(caller).info.balance.value() + min_nat(
                effective_gas_price_of(*env) * (gas.spec_remaining() + gas_refund) as nat,
                u256_max(),
            ),
            u256_max(),
        ),
        final(caller).info == (AccountInfo { balance: final(caller).info.balance, ..old(caller).info }),
        final(caller).status == old(caller).status,
        final(caller).storage == old(caller).storage,
{
    let effective_gas_price = env.effective_gas_price();
    let amount = effective_gas_price.saturating_mul(U256::from_u64(gas.remaining() + gas_refund));
    caller.info.balance = caller.info.balance.saturating_add(amount);
}

/// Pays the beneficiary the gas spent less the refund at the effective gas
/// price, plus the transaction's quoted L1 fee, and marks it touched.
pub fn reward_beneficiary(coinbase: &mut Account, env: &Env, gas: &Gas, gas_refund: u64)
    requires
        gas_refund <= gas.spec_spent(),
    ensures
        final(coinbase).info.balance.value() == min_nat(
            min_nat(
                old(coinbase).info.balance.value() + min_nat(
                    effective_gas_price_of(*env) * (gas.spec_spent() - gas_refund) as nat,
                    u256_max(),
                ),
                u256_max(),
            ) + env.tx.l1_fee.value(),
            u256_max(),
        ),
        final(coinbase).info == (AccountInfo { balance: final(coinbase).info.balance, ..old(coinbase).info }),
        final(coinbase).status@ == old(coinbase).status@ | TOUCHED,
        final(coinbase).storage == old(coinbase).storage,
{
    let coinbase_gas_price = env.effective_gas_price();
    let amount = coinbase_gas_price.saturating_mul(U256::from_u64(gas.spent() - gas_refund));
    coinbase.mark_touch();
    coinbase.info.balance = coinbase.info.balance.saturating_add(amount).saturating_add(env.tx.l1_fee);
}

/// The refund owed: none when refunds are disabled, else the refund collected
/// capped at the gas spent divided by 5 (from London on) or by 2 (before). A
/// negative refund counts as no refund cap at all, so the cap is owed.
pub fn calculate_gas_refund(env: &Env, gas: &Gas) -> (r: u64)
    ensures
        r == if env.cfg.disable_gas_refund {
            0
        } else {
            let cap = gas.spec_spent() / refund_quotient(env.cfg.spec_id);
            if gas.spec_refunded() < 0 || gas.spec_refunded() >= cap { cap } else { gas.spec_refunded() as nat }
        },
{
    if env.cfg.disable_gas_refund {
        return 0;
    }
    let max_refund_quotient: u64 = if env.cfg.spec_id.enabled(SpecId::London) { 5 } else { 2 };
    let cap = gas.spent() / max_refund_quotient;
    let refunded = gas.refunded();
    if refunded < 0 || refunded as u64 >= cap {
        cap
    } else {
        refunded as u64
    }
}

/// The divisor of the gas spent that caps the refund.
pub open spec fn refund_quotient(spec_id: SpecId) -> nat {
    if spec_id.spec_ordinal() >= SpecId::London.spec_ordinal() { 5 } else { 2 }
}

} // verus!
