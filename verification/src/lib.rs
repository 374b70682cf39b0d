//! Lifecycle and configuration glue for an embedded anonymity-network client:
//! a lazily initialized, process-wide client slot; the configuration plan for
//! the client (onion addresses enabled, optional custom storage directories);
//! and the plan for publishing a local TCP service as a hidden service behind
//! a one-rule reverse proxy.

pub mod config;
pub mod errors;
pub mod launcher;
pub mod nickname;
pub mod proxy;
pub mod singleton;

pub use config::ClientConfigPlan;
pub use config::StorageDirs;
pub use config::client_config_plan;
pub use config::join_path;
pub use config::storage_dirs;
pub use errors::Error;
pub use launcher::LaunchPlan;
pub use launcher::plan_onion_service;
pub use nickname::Nickname;
pub use nickname::nickname_is_valid;
pub use proxy::ProxyConfigPlan;
pub use proxy::ProxyRule;
pub use proxy::TargetAddr;
pub use proxy::TargetIp;
pub use proxy::proxy_config_plan;
pub use singleton::AcquireStep;
pub use singleton::ClientCell;
pub use singleton::acquire_step;
