//! Rusty Key: a password vault whose entries are sealed with a key derived
//! from a master password, driven through a chat dialog.
pub mod bot;
pub mod config;
pub mod crypto;
pub mod domain;
pub mod draws;
pub mod errors;
pub mod laws;
pub mod service;
pub mod text;
