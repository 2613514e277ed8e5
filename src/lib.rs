//! A single configuration record on the ledger, holding an admin identity and
//! one byte of mutable value, with a secure and an insecure update entry point.

pub mod accounts;
pub mod address;
pub mod error;
pub mod gate;
pub mod instructions;
pub mod laws;
pub mod record;

pub use accounts::{ConfigAccount, InitializeConfig, SignerAccount, UpdateConfig};
pub use error::ErrorCode;
pub use instructions::{initialize_config, update_config_bad, update_config_good};
pub use record::Config;
