//! Verified core of the B2B quotation pilot: configuration checks, text
//! rules, the pilot quote workflow and catalog paging.

pub mod auth;
pub mod catalog;
pub mod config;
pub mod error;
pub mod pilot;
pub mod pilot_laws;
pub mod text;
