//! Authentication gate: bearer tokens, password hashes and a sliding-window
//! limiter for login attempts, with the rules that tie them together.

pub mod auth_service;
pub mod clock;
pub mod config;
pub mod dto;
pub mod error;
pub mod handlers;
pub mod middleware;
pub mod rate_limiter;
pub mod response;
pub mod text;
pub mod password;
pub mod profile;
pub mod token;
pub mod user;
pub mod validation;
