//! Verified core of the student service: configuration, cache keys,
//! request validation, response framing and the student workflows.

pub mod text;
pub mod json;
pub mod keys;
pub mod config;
pub mod user_service;
pub mod dto;
pub mod error;
pub mod response;
pub mod service;
pub mod handlers;
pub mod observe;
