pub mod config;
pub mod envelope;
pub mod errors;
pub mod identity;
pub mod paths;
pub mod wiring;
pub mod worker;
