//! The L1 fee oracle: fee parameters read from the oracle contract, and the
//! cost of posting a transaction's data on L1.
use crate::word::{min_nat, u256_max, Address, U256};
use vstd::prelude::*;

verus! {

/// Data gas of a zero byte.
pub const ZERO_BYTE_COST: u64 = 4;
/// Data gas of a non-zero byte.
pub const NON_ZERO_BYTE_COST: u64 = 16;
/// Data gas added to every transaction for the commitment on L1.
pub const TX_L1_COMMIT_EXTRA_COST: u64 = 64;
/// Fixed-point precision of the fee scalar.
pub const TX_L1_FEE_PRECISION: u64 = 1_000_000_000;

/// Storage slots of the oracle contract that hold the fee parameters.
pub const L1_BASE_FEE_SLOT: u64 = 1;
pub const L1_OVERHEAD_SLOT: u64 = 2;
pub const L1_SCALAR_SLOT: u64 = 3;

/// The address of the L1 gas price oracle contract, `0x5300…0002`.
pub open spec fn oracle_address() -> Address {
    Address { bytes: [0x53u8, 0, 0, 0, 0, 0, 0, 0, 0, 0, 0, 0, 0, 0, 0, 0, 0, 0, 0, 0x02u8] }
}

pub fn l1_gas_price_oracle_address() -> (r: Address)
    ensures
        r == oracle_address(),
{
    Address { bytes: [0x53u8, 0, 0, 0, 0, 0, 0, 0, 0, 0, 0, 0, 0, 0, 0, 0, 0, 0, 0, 0x02u8] }
}

/// The backing store of account storage.
pub trait Database {
    type Error;

    /// What reading storage slot `index` of the account at `address` yields.
    spec fn spec_storage(&self, address: Address, index: U256) -> Result<U256, Self::Error>;

    /// Reads storage slot `index` of the account at `address`; reading changes
    /// nothing that later reads see.
    fn storage(&mut self, address: Address, index: U256) -> (r: Result<U256, Self::Error>)
        ensures
            r == old(self).spec_storage(address, index),
            forall|a: Address, i: U256| #[trigger] final(self).spec_storage(a, i) == old(self).spec_storage(a, i),
    ;
}

/// The fee parameters read from slots 1, 2 and 3 of the oracle contract, or the
/// error of the first read that failed.
pub open spec fn fetched<DB: Database>(db: DB) -> Result<L1BlockInfo, DB::Error> {
    let a = oracle_address();
    match db.spec_storage(a, U256 { l0: L1_BASE_FEE_SLOT, l1: 0, l2: 0, l3: 0 }) {
        Err(e) => Err(e),
        Ok(l1_base_fee) => match db.spec_storage(a, U256 { l0: L1_OVERHEAD_SLOT, l1: 0, l2: 0, l3: 0 }) {
            Err(e) => Err(e),
            Ok(l1_fee_overhead) => match db.spec_storage(a, U256 { l0: L1_SCALAR_SLOT, l1: 0, l2: 0, l3: 0 }) {
                Err(e) => Err(e),
                Ok(l1_base_fee_scalar) => Ok(L1BlockInfo { l1_base_fee, l1_fee_overhead, l1_base_fee_scalar }),
            },
        },
    }
}

/// Data gas of a payload: 4 per zero byte and 16 per other byte.
pub open spec fn data_gas_of(input: Seq<u8>) -> nat
    decreases input.len(),
{
    if input.len() == 0 {
        0
    } else {
        data_gas_of(input.drop_last()) + if input.last() == 0 { 4nat } else { 16nat }
    }
}

/// The L1 fee parameters of the current block.
#[derive(Clone, Copy, Debug, Default, PartialEq, Eq, Structural)]
pub struct L1BlockInfo {
    pub l1_base_fee: U256,
    pub l1_fee_overhead: U256,
    pub l1_base_fee_scalar: U256,
}

/// `((data gas + overhead + commit cost) * base fee * scalar) / precision`, each
/// addition and product saturating at `2^256 - 1`, the division truncating.
pub open spec fn l1_cost_of(info: L1BlockInfo, input: Seq<u8>) -> nat {
    let sum = min_nat(
        min_nat(data_gas_of(input) + info.l1_fee_overhead.value(), u256_max()) + (TX_L1_COMMIT_EXTRA_COST as nat),
        u256_max(),
    );
    let product = min_nat(
        min_nat(sum * info.l1_base_fee.value(), u256_max()) * info.l1_base_fee_scalar.value(),
        u256_max(),
    );
    product / (TX_L1_FEE_PRECISION as nat)
}

impl L1BlockInfo {
    /// Reads the three fee parameters from the oracle contract; the first failed
    /// read ends the fetch with its error.
    pub fn try_fetch<DB: Database>(db: &mut DB) -> (r: Result<L1BlockInfo, DB::Error>)
        ensures
            r == fetched(*old(db)),
    {
        let address = l1_gas_price_oracle_address();
        let l1_base_fee = match db.storage(address, U256::from_u64(L1_BASE_FEE_SLOT)) {
            Ok(v) => v,
            Err(e) => return Err(e),
        };
        let l1_fee_overhead = match db.storage(address, U256::from_u64(L1_OVERHEAD_SLOT)) {
            Ok(v) => v,
            Err(e) => return Err(e),
        };
        let l1_base_fee_scalar = match db.storage(address, U256::from_u64(L1_SCALAR_SLOT)) {
            Ok(v) => v,
            Err(e) => return Err(e),
        };
        Ok(L1BlockInfo { l1_base_fee, l1_fee_overhead, l1_base_fee_scalar })
    }

    /// Data gas of posting `input` on L1.
    pub fn data_gas(&self, input: &[u8]) -> (r: U256)
        ensures
            r.value() == data_gas_of(input@),
    {
        let mut acc: u128 = 0;
        let mut i: usize = 0;
        while i < input.len()
            invariant
                i <= input@.len(),
                acc == data_gas_of(input@.subrange(0, i as int)),
                acc <= 16 * i,
            decreases input@.len() - i,
        {
            proof {
                assert(input@.subrange(0, i + 1).drop_last() =~= input@.subrange(0, i as int));
            }
            if input[i] == 0 {
                acc = acc + ZERO_BYTE_COST as u128;
            } else {
                acc = acc + NON_ZERO_BYTE_COST as u128;
            }
            i = i + 1;
        }
        assert(input@.subrange(0, i as int) =~= input@);
        U256::from_u128(acc)
    }

    /// The L1 data fee of a transaction whose payload is `input`.
    pub fn calculate_tx_l1_cost(&self, input: &[u8]) -> (r: U256)
        ensures
            r.value() == l1_cost_of(*self, input@),
    {
        let tx_l1_gas = self.data_gas(input);
        tx_l1_gas.saturating_add(self.l1_fee_overhead).saturating_add(
            U256::from_u64(TX_L1_COMMIT_EXTRA_COST),
        ).saturating_mul(self.l1_base_fee).saturating_mul(self.l1_base_fee_scalar).div(
            U256::from_u64(TX_L1_FEE_PRECISION),
        )
    }
}

} // verus!
