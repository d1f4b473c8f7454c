pub mod constants;
pub mod helpers;
pub mod laws;
pub mod types;
