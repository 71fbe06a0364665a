//! A personal finance store: bank accounts, spending and income categories,
//! and dated money transactions, with referential integrity between them and
//! expense totals over whole-day date ranges.
pub mod date;
pub mod amount;
pub mod errors;
pub mod models;
pub mod store;
pub mod laws;
pub mod page;
