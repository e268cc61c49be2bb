//! Connection rules, credential validation and OpenConnect command handling
//! for a graphical OpenConnect VPN client.

pub mod application;
pub mod domain;
pub mod i18n;
pub mod infrastructure;
pub mod text;
pub mod ui;
