//! Publishing and updating mobile-app release metadata against two vendor
//! platforms: an iOS-style app-distribution API and an Android-style one.
//!
//! The library holds the logic that decides what to send and what to accept:
//! credential lifecycle (minting a signed, time-bounded token from key
//! material, caching it, detecting expiry), strict translation between vendor
//! JSON shapes and typed structures, and the multi-step orchestration that
//! locates the right release resource and applies a localized-notes patch or
//! creates a new version.  The HTTP transport, file reading and command-line
//! surface live outside the library and drive it by exchanging plain values.

pub mod app_store_datasource;
pub mod app_store_flow;
pub mod base64url;
pub mod codec;
pub mod datasource;
pub mod errors;
pub mod google_play_datasource;
pub mod google_play_flow;
pub mod json;
pub mod jwt;
pub mod model;
pub mod store;
pub mod textfmt;
