//! Core of a federated wiki: articles carry a diff/hash based edit history,
//! edits propagate between instances as activities, and inbound activities
//! are validated against the version chain before they mutate local state.
pub mod activity;
pub mod api;
pub mod article;
pub mod clock;
pub mod diff;
pub mod edit;
pub mod error;
pub mod ids;
pub mod instance;
pub mod receiver;
pub mod store;
pub mod version;
