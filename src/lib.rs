//! A catalog of remote-access targets and the modal interaction that browses
//! it: live filtering, inline forms for adding a session and copying files,
//! confirm-by-typing deletion, and a throttled view of live connections.
//! Everything here is plain state and decisions; reading keys, drawing,
//! touching the disk and running programs belong to the caller.
pub mod config;
pub mod display;
pub mod export;
pub mod filter;
pub mod forms;
pub mod identity;
pub mod import;
pub mod keys;
pub mod machine;
pub mod model;
pub mod monitor;
pub mod state;
pub mod store;
pub mod text;
pub mod theme;
