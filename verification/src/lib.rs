//! Anvel: the decision logic of a small file explorer with LAN file sharing
//! and an HTTP file API.
pub mod hash;
pub mod text;
pub mod listing;
pub mod format;
pub mod paths;
pub mod theme;
pub mod lan;
pub mod explorer;
pub mod labels;
pub mod server;
pub mod commands;
pub mod laws;

