//! Spotify client library: identifiers, error kinds, wire encodings and
//! configuration values, with their behaviour stated as Verus contracts.

pub mod text;
pub mod file_id;
pub mod error;
pub mod packet;
pub mod mercury;
pub mod config;
pub mod dealer;
pub mod request;
pub mod proto;
pub mod metadata;
pub mod playback;
