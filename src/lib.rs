//! A desktop OAuth2 (authorization code with PKCE) client for a spreadsheet
//! service: it keeps the credential and the spreadsheet id, refreshes the
//! credential when it has expired, and provisions and writes the named tabs of
//! one spreadsheet.
//!
//! The library decides; the caller performs the HTTP exchanges, the disk
//! writes and the local redirect listener, and hands the outcomes back.

pub mod error;
pub mod credential;
pub mod session;
pub mod config;
pub mod json;
pub mod clock;
pub mod token;
pub mod authorize;
pub mod callback;
pub mod text;
pub mod sheets;
pub mod container;
pub mod writer;
