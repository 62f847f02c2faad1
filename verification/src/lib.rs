//! Verified core of a desktop AppImage installer: resolving an installation
//! request from flags and prompted answers, validating the bundle and icon,
//! planning the copy and conflict-handling steps, and rendering the
//! launcher descriptor text. The process edges — flag parsing, prompts and
//! the file system — stand outside and hand plain values in.

pub mod desktop;
pub mod install;
pub mod paths;
pub mod resolver;
pub mod text;
pub mod validate;
