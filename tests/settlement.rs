use scroll_revm::handler::{
    calculate_gas_refund, handle_call_return, handle_reimburse_caller, BlockEnv, CfgEnv, Env, Gas,
    InstructionResult, SpecId, TxEnv, TxScroll,
};
use scroll_revm::l1block::{Database, L1BlockInfo};
use scroll_revm::scroll::{
    deduct_caller, load_accounts, reward_beneficiary, scroll_handle_register, EvmHandler, HandlerKind,
    ScrollError,
};
use scroll_revm::state::{Account, AccountInfo};
use scroll_revm::word::{Address, U256};

fn env(gas_limit: u64, price: u64, is_call: bool, is_l1_msg: bool, rlp: Option<Vec<u8>>) -> Env {
    Env {
        cfg: CfgEnv { spec_id: SpecId::Curie, disable_gas_refund: false },
        block: BlockEnv { coinbase: Address { bytes: [7; 20] }, basefee: U256::zero() },
        tx: TxEnv {
            caller: Address { bytes: [1; 20] },
            gas_limit,
            gas_price: U256::from(price),
            gas_priority_fee: None,
            is_call,
            l1_fee: U256::zero(),
            scroll: TxScroll { is_l1_msg, rlp_bytes: rlp },
        },
    }
}

fn account_with_balance(balance: u64) -> Account {
    Account::from_info(AccountInfo::from_balance(U256::from(balance)))
}

fn zero_fee_info() -> Option<L1BlockInfo> {
    Some(L1BlockInfo::default())
}

fn gas_spent_refunded(spent: u64, refunded: i64) -> Gas {
    let mut gas = Gas::new(spent);
    assert!(gas.record_cost(spent));
    gas.record_refund(refunded);
    gas
}

#[test]
fn deduct_caller_debits_and_bumps_nonce() {
    let mut caller = account_with_balance(100);
    let e = env(10, 5, true, false, Some(vec![]));
    assert_eq!(deduct_caller(&mut caller, &e, &zero_fee_info()), Ok(()));
    assert_eq!(caller.info.balance, U256::from(50));
    assert_eq!(caller.info.nonce, 1);
    assert!(caller.is_touched());
}

#[test]
fn deduct_caller_insufficient_funds_leaves_account() {
    let mut caller = account_with_balance(40);
    let e = env(10, 5, true, false, Some(vec![]));
    assert_eq!(
        deduct_caller(&mut caller, &e, &zero_fee_info()),
        Err(ScrollError::LackOfFundForMaxFee { fee: U256::from(50), balance: U256::from(40) })
    );
    assert_eq!(caller.info.balance, U256::from(40));
    assert_eq!(caller.info.nonce, 0);
    assert!(!caller.is_touched());
}

#[test]
fn deduct_caller_adds_l1_fee_and_skips_nonce_for_create() {
    // (0 + 0 + 64) * 46_875_000 * 1 / 1e9 = 3
    let info = Some(L1BlockInfo {
        l1_base_fee: U256::from(46_875_000),
        l1_fee_overhead: U256::zero(),
        l1_base_fee_scalar: U256::from(1),
    });
    let mut caller = account_with_balance(100);
    let e = env(10, 5, false, false, Some(vec![]));
    assert_eq!(deduct_caller(&mut caller, &e, &info), Ok(()));
    assert_eq!(caller.info.balance, U256::from(47));
    assert_eq!(caller.info.nonce, 0);
    let mut poor = account_with_balance(52);
    assert_eq!(
        deduct_caller(&mut poor, &e, &info),
        Err(ScrollError::LackOfFundForMaxFee { fee: U256::from(53), balance: U256::from(52) })
    );
}

#[test]
fn deduct_caller_l1_message_pays_nothing() {
    let mut caller = account_with_balance(0);
    let e = env(10, 5, true, true, None);
    assert_eq!(deduct_caller(&mut caller, &e, &None), Ok(()));
    assert_eq!(caller.info.balance, U256::zero());
    assert_eq!(caller.info.nonce, 1);
    assert!(caller.is_touched());
}

#[test]
fn deduct_caller_missing_inputs() {
    let mut caller = account_with_balance(100);
    let e = env(10, 5, true, false, None);
    assert_eq!(deduct_caller(&mut caller, &e, &zero_fee_info()), Err(ScrollError::MissingRlpBytes));
    let e = env(10, 5, true, false, Some(vec![1]));
    assert_eq!(deduct_caller(&mut caller, &e, &None), Err(ScrollError::L1BlockInfoNotLoaded));
    assert_eq!(caller.info.balance, U256::from(100));
    assert!(!caller.is_touched());
}

#[test]
fn reward_beneficiary_pays_gas_and_l1_fee() {
    let info = Some(L1BlockInfo {
        l1_base_fee: U256::from(46_875_000),
        l1_fee_overhead: U256::zero(),
        l1_base_fee_scalar: U256::from(1),
    });
    let mut coinbase = account_with_balance(1000);
    let e = env(10, 5, true, false, Some(vec![]));
    let gas = gas_spent_refunded(10, 2);
    assert_eq!(reward_beneficiary(&mut coinbase, &e, &gas, &info), Ok(()));
    assert_eq!(coinbase.info.balance, U256::from(1043));
    assert!(coinbase.is_touched());
}

#[test]
fn reward_beneficiary_touches_on_zero_amount() {
    let mut coinbase = account_with_balance(0);
    let e = env(10, 0, true, false, Some(vec![]));
    let gas = gas_spent_refunded(10, 0);
    assert_eq!(reward_beneficiary(&mut coinbase, &e, &gas, &zero_fee_info()), Ok(()));
    assert_eq!(coinbase.info.balance, U256::zero());
    assert!(coinbase.is_touched());
}

#[test]
fn reward_beneficiary_l1_message_skips_l1_fee() {
    let mut coinbase = account_with_balance(0);
    let e = env(10, 5, true, true, None);
    let gas = gas_spent_refunded(10, 2);
    assert_eq!(reward_beneficiary(&mut coinbase, &e, &gas, &None), Ok(()));
    assert_eq!(coinbase.info.balance, U256::from(40));
    assert!(coinbase.is_touched());
}

#[test]
fn reward_beneficiary_missing_inputs() {
    let mut coinbase = account_with_balance(0);
    let gas = gas_spent_refunded(10, 2);
    let e = env(10, 5, true, false, Some(vec![]));
    assert_eq!(reward_beneficiary(&mut coinbase, &e, &gas, &None), Err(ScrollError::L1BlockInfoNotLoaded));
    let e = env(10, 5, true, false, None);
    assert_eq!(reward_beneficiary(&mut coinbase, &e, &gas, &zero_fee_info()), Err(ScrollError::MissingRlpBytes));
    assert!(!coinbase.is_touched());
}

#[test]
fn l1_cost_truncates_to_zero() {
    let info = L1BlockInfo {
        l1_base_fee: U256::from(1),
        l1_fee_overhead: U256::zero(),
        l1_base_fee_scalar: U256::from(1),
    };
    assert_eq!(info.data_gas(&[]), U256::zero());
    assert_eq!(info.calculate_tx_l1_cost(&[]), U256::zero());
}

#[test]
fn l1_cost_formula() {
    let info = L1BlockInfo {
        l1_base_fee: U256::from(1_000_000_000),
        l1_fee_overhead: U256::from(16),
        l1_base_fee_scalar: U256::from(2),
    };
    assert_eq!(info.data_gas(&[0, 1, 0, 0xff]), U256::from(40));
    // (40 + 16 + 64) * 1e9 * 2 / 1e9 = 240
    assert_eq!(info.calculate_tx_l1_cost(&[0, 1, 0, 0xff]), U256::from(240));
}

#[test]
fn l1_cost_saturates() {
    let max = U256 { l0: u64::MAX, l1: u64::MAX, l2: u64::MAX, l3: u64::MAX };
    let info = L1BlockInfo { l1_base_fee: U256::from(1), l1_fee_overhead: max, l1_base_fee_scalar: U256::from(1) };
    // (2^256 - 1) / 1e9
    let expected = U256 {
        l0: 636650559754554089,
        l1: 14171000123323785968,
        l2: 13088917067439035463,
        l3: 18446744073,
    };
    assert_eq!(info.calculate_tx_l1_cost(&[1]), expected);
}

struct Slots {
    reads: Vec<u64>,
    fail_at: Option<u64>,
}

impl Database for Slots {
    type Error = String;

    fn spec_storage(&self, _address: Address, index: U256) -> Result<U256, String> {
        if Some(index.l0) == self.fail_at {
            Err(format!("slot {}", index.l0))
        } else {
            Ok(U256::from(index.l0 * 10))
        }
    }

    fn storage(&mut self, address: Address, index: U256) -> Result<U256, String> {
        assert_eq!(address.bytes[0], 0x53);
        assert_eq!(address.bytes[19], 0x02);
        self.reads.push(index.l0);
        self.spec_storage(address, index)
    }
}

#[test]
fn try_fetch_reads_three_slots() {
    let mut db = Slots { reads: vec![], fail_at: None };
    let info = L1BlockInfo::try_fetch(&mut db).unwrap();
    assert_eq!(db.reads, vec![1, 2, 3]);
    assert_eq!(info.l1_base_fee, U256::from(10));
    assert_eq!(info.l1_fee_overhead, U256::from(20));
    assert_eq!(info.l1_base_fee_scalar, U256::from(30));
}

#[test]
fn load_accounts_passes_database_error() {
    let mut db = Slots { reads: vec![], fail_at: Some(2) };
    let mut slot = None;
    assert_eq!(load_accounts(&mut slot, &mut db), Err("slot 2".to_string()));
    assert_eq!(db.reads, vec![1, 2]);
    assert!(slot.is_none());
    let mut db = Slots { reads: vec![], fail_at: None };
    assert_eq!(load_accounts(&mut slot, &mut db), Ok(()));
    assert!(slot.is_some());
}

#[test]
fn gas_refund_cap_depends_on_fork() {
    let mut e = env(100, 1, true, false, None);
    let gas = gas_spent_refunded(100, 30);
    e.cfg.spec_id = SpecId::London;
    assert_eq!(calculate_gas_refund(&e, &gas), 20);
    e.cfg.spec_id = SpecId::Berlin;
    assert_eq!(calculate_gas_refund(&e, &gas), 30);
    e.cfg.disable_gas_refund = true;
    assert_eq!(calculate_gas_refund(&e, &gas), 0);
}

#[test]
fn call_return_keeps_gas_by_outcome() {
    let e = env(100, 1, true, false, None);
    let mut returned = Gas::new(60);
    assert!(returned.record_cost(20));
    returned.record_refund(5);
    let ok = handle_call_return(&e, InstructionResult::Return, returned);
    assert_eq!((ok.limit(), ok.remaining(), ok.refunded(), ok.spent()), (100, 40, 5, 60));
    let rev = handle_call_return(&e, InstructionResult::Revert, returned);
    assert_eq!((rev.remaining(), rev.refunded()), (40, 0));
    let halt = handle_call_return(&e, InstructionResult::OutOfGas, returned);
    assert_eq!((halt.remaining(), halt.refunded(), halt.spent()), (0, 0, 100));
}

#[test]
fn reimburse_caller_pays_unused_gas() {
    let mut caller = account_with_balance(1);
    let e = env(100, 3, true, false, None);
    let mut gas = Gas::new(100);
    assert!(gas.record_cost(60));
    handle_reimburse_caller(&mut caller, &e, &gas, 10);
    assert_eq!(caller.info.balance, U256::from(1 + 3 * 50));
}

#[test]
fn legacy_reward_uses_quoted_l1_fee() {
    let mut coinbase = account_with_balance(0);
    let mut e = env(10, 5, true, false, None);
    e.tx.l1_fee = U256::from(3);
    let gas = gas_spent_refunded(10, 0);
    scroll_revm::handler::reward_beneficiary(&mut coinbase, &e, &gas, 2);
    assert_eq!(coinbase.info.balance, U256::from(43));
    assert!(coinbase.is_touched());
}

#[test]
fn effective_gas_price_caps_at_basefee_plus_tip() {
    let mut e = env(10, 10, true, false, None);
    e.block.basefee = U256::from(3);
    e.tx.gas_priority_fee = Some(U256::from(2));
    assert_eq!(e.effective_gas_price(), U256::from(5));
    e.tx.gas_priority_fee = Some(U256::from(20));
    assert_eq!(e.effective_gas_price(), U256::from(10));
    assert!(SpecId::Curie.enabled(SpecId::London));
    assert!(!SpecId::Berlin.enabled(SpecId::London));
}

#[test]
fn register_installs_rollup_steps() {
    let mut h = EvmHandler {
        spec_id: SpecId::Bernoulli,
        load_accounts: HandlerKind::Mainnet,
        deduct_caller: HandlerKind::Mainnet,
        reward_beneficiary: HandlerKind::Mainnet,
    };
    scroll_handle_register(&mut h);
    assert_eq!(h.spec_id, SpecId::Bernoulli);
    assert_eq!(h.deduct_caller, HandlerKind::Scroll);
    assert_eq!(h.load_accounts, HandlerKind::Scroll);
    assert_eq!(h.reward_beneficiary, HandlerKind::Scroll);
}
