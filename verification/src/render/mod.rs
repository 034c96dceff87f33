//! pt-BR message text. A flow is shown as one "card": title, answers so
//! far and the current question.

pub mod card;
pub mod catalog;
pub mod category_statement;
pub mod entries;
pub mod errors;
pub mod help;
pub mod installments;
pub mod keyboards;
pub mod living_cost;
pub mod notices;
pub mod outlook;
pub mod report_text;
pub mod reports;
