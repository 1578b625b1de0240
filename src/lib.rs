//! A registry of collectible kitties: deterministic genetics, ownership,
//! listing prices and sales, all verified.

pub mod dna;
pub mod randomness;
pub mod registry;
