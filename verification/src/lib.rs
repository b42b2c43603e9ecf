//! Server-side building blocks: errors, identity, verification codes and file storage.

pub mod admin;
pub mod auth;
pub mod error;
pub mod storage;
pub mod text;
pub mod user;
pub mod web;
