//! Account registration: validated identity, contact and credential value
//! objects, a time-ordered account identifier, the account entity, the
//! persistence port with an in-memory adapter, and the registration service
//! that ties them together.
pub mod audit;
pub mod commands;
pub mod config;
pub mod created_at;
pub mod created_by;
pub mod dto;
pub mod email;
pub mod entities;
pub mod error;
pub mod in_memory;
pub mod model;
pub mod password;
pub mod repository;
pub mod response;
pub mod text;
pub mod time;
pub mod updated_at;
pub mod updated_by;
pub mod user_id;
pub mod user_service;
pub mod username;
