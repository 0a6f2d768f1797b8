//! Hash precompiles: a linear gas charge, then the digest of the input.
use crate::digest::{ripemd160, ripemd160_of, sha256, sha256_of};
use vstd::prelude::*;

verus! {

/// Why a precompile failed.
#[derive(Clone, Copy, Debug, PartialEq, Eq, Structural)]
pub enum PrecompileError {
    OutOfGas,
    NotImplemented,
}

/// `base` plus `word` per started 32-byte word of input.
pub open spec fn linear_cost_of(len: nat, base: nat, word: nat) -> nat {
    base + ((len + 31) / 32) * word
}

/// The linear cost, computed wide enough that it cannot overflow.
fn calc_linear_cost(len: usize, base: u64, word: u64) -> (r: u128)
    ensures
        r == linear_cost_of(len as nat, base as nat, word as nat),
{
    let words: u128 = (len as u128 + 31) / 32;
    assert(words <= 0x1000_0000_0000_0000);
    assert(words * (word as u128) <= 0x1000_0000_0000_0000 * 0xffff_ffff_ffff_ffff) by (nonlinear_arith)
        requires
            words <= 0x1000_0000_0000_0000,
            word <= 0xffff_ffff_ffff_ffff,
    ;
    words * (word as u128) + base as u128
}

/// The outcome of a precompile run: the gas used and the output when the limit
/// covers the cost, out of gas otherwise.
pub open spec fn run_result(cost: nat, gas_limit: u64, output: Seq<u8>, r: Result<(u64, Vec<u8>), PrecompileError>) -> bool {
    if cost > gas_limit {
        r == Err::<(u64, Vec<u8>), PrecompileError>(PrecompileError::OutOfGas)
    } else {
        r matches Ok((g, out)) && g == cost && out@ == output
    }
}

/// SHA-256 of the input, for 60 gas plus 12 per word.
pub fn sha256_run(input: &[u8], gas_limit: u64) -> (r: Result<(u64, Vec<u8>), PrecompileError>)
    ensures
        run_result(linear_cost_of(input@.len(), 60, 12), gas_limit, sha256_of(input@), r),
        r matches Ok((_, out)) ==> out@.len() == 32,
{
    let cost = calc_linear_cost(input.len(), 60, 12);
    if cost > gas_limit as u128 {
        Err(PrecompileError::OutOfGas)
    } else {
        Ok((cost as u64, sha256(input)))
    }
}

/// RIPEMD-160 of the input, left-padded with zeros to 32 bytes, for 600 gas
/// plus 120 per word.
pub fn ripemd160_run(input: &[u8], gas_limit: u64) -> (r: Result<(u64, Vec<u8>), PrecompileError>)
    ensures
        run_result(
            linear_cost_of(input@.len(), 600, 120),
            gas_limit,
            Seq::new(12, |i: int| 0u8) + ripemd160_of(input@),
            r,
        ),
        r matches Ok((_, out)) ==> out@.len() == 32,
{
    let gas_used = calc_linear_cost(input.len(), 600, 120);
    if gas_used > gas_limit as u128 {
        return Err(PrecompileError::OutOfGas);
    }
    let digest = ripemd160(input);
    let mut output: Vec<u8> = Vec::new();
    let mut k: usize = 0;
    while k < 12
        invariant
            k <= 12,
            output@ == Seq::new(k as nat, |i: int| 0u8),
        decreases 12 - k,
    {
        output.push(0u8);
        k = k + 1;
        assert(output@ =~= Seq::new(k as nat, |i: int| 0u8));
    }
    let mut j: usize = 0;
    while j < digest.len()
        invariant
            j <= digest@.len(),
            output@ == Seq::new(12, |i: int| 0u8) + digest@.subrange(0, j as int),
        decreases digest@.len() - j,
    {
        output.push(digest[j]);
        j = j + 1;
        assert(output@ =~= Seq::new(12, |i: int| 0u8) + digest@.subrange(0, j as int));
    }
    assert(digest@.subrange(0, j as int) =~= digest@);
    Ok((gas_used as u64, output))
}

/// A precompile that is switched off: it always runs out of gas.
pub fn disable_run(input: &[u8], gas_limit: u64) -> (r: Result<(u64, Vec<u8>), PrecompileError>)
    ensures
        r == Err::<(u64, Vec<u8>), PrecompileError>(PrecompileError::OutOfGas),
{
    Err(PrecompileError::OutOfGas)
}

} // verus!
