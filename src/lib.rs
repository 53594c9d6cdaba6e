//! A client library for the Reddit API: OAuth token handling, request
//! building, response interpretation and post formatting.

pub mod auth;
pub mod cli;
pub mod config;
pub mod json;
pub mod listing;
pub mod operations;
pub mod submit;
pub mod text;
pub mod token;
