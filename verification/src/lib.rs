//! Build-side core of a hot-patch toolchain: patch identity derivation,
//! toolchain interception planning, and kernel patch build orchestration.
//!
//! The library holds the decision and derivation logic; a thin runtime
//! around it performs process execution, device control and file access,
//! and hands the observed results back in as plain values.

pub mod cmd;
pub mod compiler;
pub mod error;
pub mod hook;
pub mod kpatch_builder;
pub mod patch_info;
pub mod patch_status;
pub mod text;
