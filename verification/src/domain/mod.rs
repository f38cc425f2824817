//! Domain entities, newtypes and the rules that build them from raw request input.

pub mod dates;
pub mod digest;
pub mod models;
pub mod types;
