//! Typed pixel views and frame categories for depth and color camera frames.
//!
//! The library interprets a frame's byte buffer according to its declared
//! pixel format, and decides which typed frame wrapper a native frame handle
//! may be wrapped into from the tags that the native layer reports for it.

pub mod kind;
pub mod pixel;
pub mod base;
pub mod frame;
