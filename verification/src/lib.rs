//! Verified core of a small blogging service: token issuance and verification,
//! password-credential handling, registration and login, post CRUD orchestration
//! with ownership enforcement, and the mapping of domain failures to
//! transport-neutral outcomes. Storage backends are interchangeable behind
//! the repository interfaces defined here, and a verified in-memory
//! implementation ships with the crate; transport adapters stay outside.

pub mod auth_service;
pub mod config;
pub mod dto;
pub mod error;
pub mod laws;
pub mod mem_store;
pub mod middleware;
pub mod post;
pub mod post_service;
pub mod security;
pub mod store;
pub mod user;
