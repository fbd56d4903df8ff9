//! Incremental verifiable computation over the bn256/grumpkin curve cycle:
//! folding of a repeated step relation, incremental verification of the
//! folded state, and its compression into a succinct proof.

pub mod backend;
pub mod claim;
pub mod compress;
pub mod cycle;
pub mod errors;
pub mod field;
pub mod folding;
pub mod incremental;
pub mod params;
pub mod relation;
pub mod scenario;
