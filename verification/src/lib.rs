//! Verified core of the native, read-only Paperclip roster bridge.
//!
//! Authentication uses Paperclip's browser-approved CLI challenge. The board
//! token is held only in the native keychain; pending challenge secrets stay in
//! the caller's memory. This crate holds the decisions of that bridge: input
//! normalisation, response checks, challenge validation and the sign-in state
//! machine. The caller performs the network and file I/O.

pub mod commands;
pub mod connection;
pub mod dto;
pub mod error;
pub mod http;
pub mod keychain;
pub mod login;
pub mod settings;
pub mod text;
pub mod uuid_form;
