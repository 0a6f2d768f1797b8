//! Settlement core of a rollup contract-execution engine: bytecode analysis,
//! the per-account ledger model, the L1 data-fee oracle and the fee handlers.
pub mod word;
pub mod analysis;
pub mod digest;
pub mod bytecode;
pub mod state;
pub mod l1block;
pub mod handler;
pub mod scroll;
pub mod precompile;
