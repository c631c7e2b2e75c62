pub mod ask;
pub mod config;
pub mod service;

pub use self::ask::{AskAccount, ASK_SEED};
pub use self::config::{ConfigAccount, CONFIG_SEED};
pub use self::service::{ServiceAccount, ServiceAgreement, SERVICE_SEED};
