//! Verifiable ingestion core for environmental sensor readings.

pub mod api;
pub mod auth;
pub mod crypto;
pub mod db;
pub mod encoding;
pub mod http;
pub mod solana;
pub mod time;
