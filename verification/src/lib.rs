//! Stock synchronisation engine for a marketplace inventory.
//!
//! The crate keeps a trader's stock records in step with the live market: it
//! derives a competitive price for every held item, decides which remote
//! listing operation (create, update, delete, none) brings the published
//! listing in line, and drives the repeating synchronisation loop as a state
//! machine whose every transition is stated as a function and proved.

pub mod cache;
pub mod commands;
pub mod enums;
pub mod error;
pub mod listing;
pub mod live_scraper;
pub mod price_aggregator;
pub mod price_history;
pub mod reconcile;
pub mod settings;
pub mod stock_item;
pub mod stock_sync;
pub mod sub_type;
pub mod text;
pub mod transaction;
pub mod transaction_wat;
pub mod wfm_client;
