pub mod address;
pub mod builders;
pub mod errors;
pub mod instruction;
pub mod mint;
pub mod orchestrator;
pub mod resolver;
