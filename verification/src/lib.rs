pub mod constants;
pub mod field;
pub mod goldilocks;
pub mod poseidon;
