//! Core logic of the authentication service: password policy, request
//! validation, response envelopes, token claims, configuration and the
//! decisions of the sign-in, registration and sign-out flows.

pub mod enums;
pub mod config;
pub mod password;
pub mod validation;
pub mod response;
pub mod users;
pub mod jwt;
pub mod system_config;
pub mod auth;
pub mod log;
pub mod seed;
pub mod laws;
