//! Chain parameters and weight formulas used by the election solution miner
//! for the Polkadot, Kusama and Westend relay chains.

pub mod chain;
