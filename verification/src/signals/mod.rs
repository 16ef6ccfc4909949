pub mod engine;
pub mod rules;
pub mod text;
pub mod types;
