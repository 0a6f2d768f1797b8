//! Settlement on the rollup: the caller pays gas and the L1 data fee up
//! front, and the beneficiary collects both after execution.
use crate::handler::{effective_gas_price_of, Env, Gas, SpecId};
use crate::l1block::{fetched, l1_cost_of, Database, L1BlockInfo};
use crate::state::{Account, AccountInfo, TOUCHED};
use crate::word::{min_nat, u256_max, U256};
use vstd::prelude::*;

verus! {

/// Why settlement refused a transaction.
#[derive(Clone, Copy, Debug, PartialEq, Eq, Structural)]
pub enum ScrollError {
    /// The caller cannot pay the gas limit at its price plus the L1 data fee.
    LackOfFundForMaxFee { fee: U256, balance: U256 },
    /// The L1 fee parameters were never fetched.
    L1BlockInfoNotLoaded,
    /// The encoded transaction, which the L1 data fee is charged on, is missing.
    MissingRlpBytes,
}

/// Which implementation a settlement step uses.
#[derive(Clone, Copy, Debug, PartialEq, Eq, Structural)]
pub enum HandlerKind {
    Mainnet,
    Scroll,
}

/// The settlement steps an engine runs, chosen once per engine for its fork.
#[derive(Clone, Copy, Debug, PartialEq, Eq, Structural)]
pub struct EvmHandler {
    pub spec_id: SpecId,
    pub load_accounts: HandlerKind,
    pub deduct_caller: HandlerKind,
    pub reward_beneficiary: HandlerKind,
}

/// Installs the rollup's settlement steps: fetching the L1 fee parameters,
/// charging the caller and paying the beneficiary.
pub fn scroll_handle_register(handler: &mut EvmHandler)
    ensures
        *final(handler) == (EvmHandler {
            spec_id: old(handler).spec_id,
            load_accounts: HandlerKind::Scroll,
            deduct_caller: HandlerKind::Scroll,
            reward_beneficiary: HandlerKind::Scroll,
        }),
{
    handler.load_accounts = HandlerKind::Scroll;
    handler.deduct_caller = HandlerKind::Scroll;
    handler.reward_beneficiary = HandlerKind::Scroll;
}

/// Fetches the L1 fee parameters for the transaction; on a failed read the
/// error is handed back and nothing is stored.
pub fn load_accounts<DB: Database>(l1_block_info: &mut Option<L1BlockInfo>, db: &mut DB) -> (r: Result<(), DB::Error>)
    ensures
        match fetched(*old(db)) {
            Ok(info) => r is Ok && *final(l1_block_info) == Some(info),
            Err(e) => r == Err::<(), DB::Error>(e) && *final(l1_block_info) == *old(l1_block_info),
        },
{
    match L1BlockInfo::try_fetch(db) {
        Ok(info) => {
            *l1_block_info = Some(info);
            Ok(())
        },
        Err(e) => Err(e),
    }
}

/// What an ordinary transaction owes up front: its gas limit at the effective
/// price plus the L1 data fee of its encoding, both saturating.
pub open spec fn max_fee_of(env: Env, info: L1BlockInfo, rlp: Seq<u8>) -> nat {
    min_nat(
        min_nat((env.tx.gas_limit as nat) * effective_gas_price_of(env), u256_max()) + l1_cost_of(info, rlp),
        u256_max(),
    )
}

/// The nonce after the transaction: one more for a call (saturating); a
/// creation bumps it elsewhere.
pub open spec fn nonce_after(env: Env, nonce: u64) -> u64 {
    if env.tx.is_call && nonce < u64::MAX { (nonce + 1) as u64 } else { nonce }
}

/// Charges the caller before execution. An L1 message pays nothing. Any other
/// transaction pays its maximum fee; when the balance falls short, or a needed
/// input is missing, the account is left untouched.
pub fn deduct_caller(caller: &mut Account, env: &Env, l1_block_info: &Option<L1BlockInfo>) -> (r: Result<(), ScrollError>)
    ensures
        env.tx.scroll.is_l1_msg ==> r is Ok,
        !env.tx.scroll.is_l1_msg ==> match (env.tx.scroll.rlp_bytes, *l1_block_info) {
            (None, _) => r == Err::<(), ScrollError>(ScrollError::MissingRlpBytes),
            (Some(_), None) => r == Err::<(), ScrollError>(ScrollError::L1BlockInfoNotLoaded),
            (Some(rlp), Some(info)) => {
                let fee = max_fee_of(*env, info, rlp@);
                if fee > old(caller).info.balance.value() {
                    r matches Err(ScrollError::LackOfFundForMaxFee { fee: f, balance: b })
                        && f.value() == fee && b == old(caller).info.balance
                } else {
                    &&& r is Ok
                    &&& final(caller).info.balance.value() == old(caller).info.balance.value() - fee
                }
            },
        },
        r is Err ==> *final(caller) == *old(caller),
        r is Ok ==> {
            &&& final(caller).info == (AccountInfo {
                balance: final(caller).info.balance,
                nonce: nonce_after(*env, old(caller).info.nonce),
                ..old(caller).info
            })
            &&& final(caller).status@ == old(caller).status@ | TOUCHED
            &&& final(caller).storage == old(caller).storage
            &&& env.tx.scroll.is_l1_msg ==> final(caller).info.balance == old(caller).info.balance
        },
{
    if !env.tx.scroll.is_l1_msg {
        let rlp_bytes = match &env.tx.scroll.rlp_bytes {
            Some(b) => b,
            None => return Err(ScrollError::MissingRlpBytes),
        };
        let info = match l1_block_info {
            Some(i) => i,
            None => return Err(ScrollError::L1BlockInfoNotLoaded),
        };
        let gas_cost = U256::from_u64(env.tx.gas_limit).saturating_mul(env.effective_gas_price());
        let tx_l1_cost = info.calculate_tx_l1_cost(rlp_bytes.as_slice());
        let total = gas_cost.saturating_add(tx_l1_cost);
        if total.gt(caller.info.balance) {
            return Err(ScrollError::LackOfFundForMaxFee { fee: total, balance: caller.info.balance });
        }
        caller.info.balance = caller.info.balance.saturating_sub(total);
    }
    if env.tx.is_call {
        caller.info.nonce = caller.info.nonce.saturating_add(1);
    }
    caller.mark_touch();
    Ok(())
}

/// Pays the beneficiary after execution: the gas spent less the refund at the
/// effective price, plus, for transactions other than L1 messages, the L1 data
/// fee. The beneficiary is marked touched even when it gets nothing.
pub fn reward_beneficiary(coinbase: &mut Account, env: &Env, gas: &Gas, l1_block_info: &Option<L1BlockInfo>) -> (r: Result<(), ScrollError>)
    requires
        0 <= gas.spec_refunded() <= gas.spec_spent(),
    ensures
        !env.tx.scroll.is_l1_msg && l1_block_info is None ==> r == Err::<(), ScrollError>(
            ScrollError::L1BlockInfoNotLoaded,
        ),
        !env.tx.scroll.is_l1_msg && l1_block_info is Some && env.tx.scroll.rlp_bytes is None ==> r
            == Err::<(), ScrollError>(ScrollError::MissingRlpBytes),
        (env.tx.scroll.is_l1_msg || (l1_block_info is Some && env.tx.scroll.rlp_bytes is Some)) ==> r is Ok,
        r is Err ==> *final(coinbase) == *old(coinbase),
        r is Ok ==> {
            let gas_fee = min_nat(
                effective_gas_price_of(*env) * (gas.spec_spent() - gas.spec_refunded()) as nat,
                u256_max(),
            );
            let l1_fee = if env.tx.scroll.is_l1_msg {
                0
            } else {
                l1_cost_of(l1_block_info->Some_0, env.tx.scroll.rlp_bytes->Some_0@)
            };
            &&& final(coinbase).info.balance.value() == min_nat(
                min_nat(old(coinbase).info.balance.value() + gas_fee, u256_max()) + l1_fee,
                u256_max(),
            )
            &&& final(coinbase).info == (AccountInfo { balance: final(coinbase).info.balance, ..old(coinbase).info })
            &&& final(coinbase).status@ == old(coinbase).status@ | TOUCHED
            &&& final(coinbase).storage == old(coinbase).storage
        },
{
    let coinbase_gas_price = env.effective_gas_price();
    let l1_cost = if !env.tx.scroll.is_l1_msg {
        let info = match l1_block_info {
            Some(i) => i,
            None => return Err(ScrollError::L1BlockInfoNotLoaded),
        };
        let rlp_bytes = match &env.tx.scroll.rlp_bytes {
            Some(b) => b,
            None => return Err(ScrollError::MissingRlpBytes),
        };
        info.calculate_tx_l1_cost(rlp_bytes.as_slice())
    } else {
        U256::zero()
    };
    let used = gas.spent() - gas.refunded() as u64;
    let amount = coinbase_gas_price.saturating_mul(U256::from_u64(used));
    coinbase.mark_touch();
    coinbase.info.balance = coinbase.info.balance.saturating_add(amount).saturating_add(l1_cost);
    Ok(())
}

} // verus!
