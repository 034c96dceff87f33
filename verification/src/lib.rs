//! Telegram side of a couple's finance bot: guided forms as pure state
//! machines, inline-button payloads, command parsing and pt-BR texts.
//! Talking to Telegram and to the database happens outside this crate.

pub mod bot;
pub mod calendar;
pub mod callback_data;
pub mod flows;
pub mod gateway;
pub mod html;
pub mod ids;
pub mod ledger;
pub mod model;
pub mod money;
pub mod notifier;
pub mod numbers;
pub mod poller;
pub mod render;
pub mod text;

use vstd::prelude::*;

verus! {

} // verus!
