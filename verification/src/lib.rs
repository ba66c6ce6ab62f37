//! Row/column arithmetizations of two cryptographic sponge permutations,
//! Poseidon and Rescue-Prime, over the BLS12-381 scalar field.
//!
//! Both constructions share a state width of three field elements (rate 2,
//! capacity 1) and one 3x3 MDS mixing matrix. Each is described by a
//! parameter set (`PoseidonSpec`, `RescueSpec`) that is validated on
//! construction, turned into a purely structural circuit layout (selector
//! pattern, fixed round constants, copy constraints) together with its gate
//! polynomials, filled row by row by a deterministic witness generator, and
//! checked against the layout's gate relations and the expected public
//! outputs.

pub mod checker;
pub mod field;
pub mod gates;
pub mod layout;
pub mod params;
pub mod permute;
pub mod runner;
pub mod state;
pub mod tables;
pub mod witness;
