//! State of a small wallet front end: which account is selected, the list of
//! account names, and whether the "add token" dialog is open.

pub mod display;
pub mod laws;
pub mod state;

pub use display::{placeholder_assets, AssetRow, PLACEHOLDER_ROWS};
pub use state::{AppModel, SecretApp, Snapshot, UiEvent};
