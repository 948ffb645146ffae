//! Rule-driven "keep the system awake" daemon logic: the rule
//! configuration, the rule engine over Rhai expressions, the daemon's
//! editable state, the sleep inhibitor and the condition providers.

pub mod config;
pub mod engine;
pub mod state;
pub mod providers;
pub mod inhibitor;
pub mod text;
