//! A URL-addressed binary cache: where a tool lives on disk, which archive
//! format its URL denotes, and the steps that stage it there.

pub mod archive;
pub mod cache;
pub mod config;
pub mod digest;
pub mod error;
pub mod materialize;
pub mod paths;
pub mod platform;
pub mod text;
pub mod utils;
