//! Decisions the bot makes on what the couple typed or tapped. Sending the
//! replies and calling the services happens outside this crate.

pub mod access;
pub mod category_statement;
pub mod commands;
pub mod entry_actions;
pub mod executor;
pub mod export;
pub mod flow_runner;
pub mod membership;
pub mod periods;
pub mod recurrence_buttons;
pub mod router;
pub mod undo;
