//! The image processing pipeline.
pub mod base64;
pub mod cache;
pub mod download;
pub mod guarantees;
pub mod hasher;
pub mod inference;
pub mod process;
