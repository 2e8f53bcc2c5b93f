//! Client library for a music-catalog web API: OAuth tokens, authorized
//! dispatch of requests, and lazy walking of paginated collections.

pub mod api;
pub mod clock;
pub mod encoding;
pub mod oauth;
pub mod outside;
pub mod model;
pub mod senum;
