pub mod circuit;
pub mod delivery;
