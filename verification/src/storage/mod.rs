//! Reusable file storage: content-addressed objects, upload orchestration, quota and
//! direct-to-object-store uploads.

pub mod model;
pub mod naming;
pub mod policy;
pub mod quota;
pub mod backend;
pub mod config;
pub mod flow;
pub mod http;
pub mod image;
pub mod image_upload;
pub mod media_upload;
pub mod access;
pub mod direct;
pub mod sts;
