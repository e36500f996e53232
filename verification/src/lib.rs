//! Health monitoring of remote services: probe verdicts, the per-service
//! health ledger, the alerting policy with its thresholds, and the
//! supervisor's bookkeeping of monitor loops across configuration reloads.

pub mod app_state;
pub mod checks;
pub mod cli;
pub mod config;
pub mod laws;
pub mod listing;
pub mod monitor;
pub mod probe;
pub mod record;
pub mod registry;
pub mod telegram;
pub mod text;
pub mod time;
pub mod web;

pub use app_state::AppState;
pub use config::{CheckType, Config, State};
pub use telegram::TelegramClient;
