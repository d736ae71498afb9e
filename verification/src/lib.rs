//! A work timer: the timer's state machine and its session store, the accounting of active
//! time, and the decisions of the idle monitor, with their contracts.

pub mod clock;
pub mod text;
pub mod sql;
pub mod database;
pub mod timer;
pub mod config;
pub mod idle;
pub mod notifications;
pub mod state;
pub mod cli;
