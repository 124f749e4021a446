//! Verified client core for a music-streaming platform's dual API surface.
//!
//! The crate covers the logic of the client: OAuth2 client-credentials and
//! device-authorization grants, session validation and re-authentication
//! orchestration, and resolution of the obfuscated playback manifest into a
//! fetchable media URL.  Network transport, credential lookup and file
//! writing are left to the surrounding application, which hands plain
//! request and response values to the functions here.

pub mod auth;
pub mod codec;
pub mod device;
pub mod errors;
pub mod json;
pub mod manifest;
pub mod search;
pub mod session;
pub mod util;
