pub mod engine;
pub mod errors;
