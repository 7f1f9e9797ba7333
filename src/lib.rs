//! Extraction of the application icon embedded in handheld-console packages.

pub mod args;
pub mod color;
pub mod error;
pub mod icon;
pub mod n3ds;
pub mod reader;
