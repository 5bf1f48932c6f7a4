//! Helpers for binary messages and board images.

pub mod binary;
pub mod image;
